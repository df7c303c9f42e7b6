//! The loop driver: one step of the simulation at a time.

use crate::state::State;
use crate::state::StateView;
use vstd::prelude::*;

verus! {

/// The simulation loop. It owns the [`State`] of one simulation and is
/// stepped by the host program, from a loop of its own or from an event
/// loop that belongs to someone else.
pub struct Loop {
    state: State,
    realtime: bool,
}

/// What a clock may read: `clock(a, t)` where `t` is a reading that it may
/// give when it is handed the state `a`.
pub type Readings = spec_fn(StateView, u64) -> bool;

/// What a callback may do to a state: `effect(a, b)` where it may leave `b`
/// when it is run on `a`.
pub type Effect = spec_fn(StateView, StateView) -> bool;

/// What a [`Loop`] holds, as mathematical values.
pub struct LoopView {
    /// The clocks of the simulation.
    pub state: StateView,
    /// Whether ticks wait for the update interval and steps display.
    pub realtime: bool,
}

impl View for Loop {
    type V = LoopView;

    closed spec fn view(&self) -> LoopView {
        LoopView { state: self.state@, realtime: self.realtime }
    }
}

impl LoopView {
    /// The loop at the start of a new run that begins at the reading `now`.
    pub open spec fn initialized(self, now: nat) -> LoopView {
        LoopView { state: self.state.restarted(now), ..self }
    }

    /// The display half of a step. In realtime mode the display callback is
    /// run once on `shown` and leaves `left`; outside realtime mode the
    /// callback has no part in the step, and the state stays as it is.
    pub open spec fn displays(
        self,
        shown: StateView,
        left: StateView,
        display: Effect,
    ) -> bool {
        if self.realtime {
            display(shown, left)
        } else {
            left == shown
        }
    }

    /// One step of a running loop that reads `now` off the clock when it begins.
    ///
    /// Where a tick is due, the clocks are advanced to `now`, the update
    /// callback is run once on the advanced state, the clock is read once
    /// more, on the state that the update has left, and that reading is
    /// recorded as the end of the tick; then comes the display half. Where
    /// no tick is due, the step is its display half.
    pub open spec fn steps_at(
        self,
        post: LoopView,
        now: u64,
        clock: Readings,
        update: Effect,
        display: Effect,
    ) -> bool {
        &&& post.realtime == self.realtime
        &&& if self.state.tick_due(now as nat, self.realtime) {
            exists|after: u64, updated: StateView|
                #![trigger clock(updated, after)]
                {
                    &&& update(self.state.advanced(now as nat, self.realtime), updated)
                    &&& clock(updated, after)
                    &&& self.displays(updated.stamped(after as nat), post.state, display)
                }
        } else {
            self.displays(self.state, post.state, display)
        }
    }

    /// One step of the loop: nothing at all while the simulation is paused,
    /// and else a step that begins with a reading of the clock, taken on
    /// the state as the step finds it.
    pub open spec fn steps_to(
        self,
        post: LoopView,
        clock: Readings,
        update: Effect,
        display: Effect,
    ) -> bool {
        if self.state.simulate {
            exists|now: u64|
                #[trigger] clock(self.state, now) && self.steps_at(
                    post,
                    now,
                    clock,
                    update,
                    display,
                )
        } else {
            post == self
        }
    }
}

impl Loop {
    /// Creates a simulation with a new state, in realtime mode.
    pub fn new() -> (sim: Loop)
        ensures
            sim@ == (LoopView { state: StateView::initial(sim@.state.epoch), realtime: true }),
    {
        Loop { state: State::new(), realtime: true }
    }

    /// Begins a new run now: the simulation runs, and real and simulation
    /// time are back at zero. The time of the last tick stays as it is, so
    /// the first step measures its delta time from whenever that was: call
    /// this right before the first step.
    pub fn init(&mut self)
        ensures
            exists|now: u64| final(self)@ == old(self)@.initialized(now as nat),
            final(self)@.state.simulate,
            final(self)@.state.irl_time == 0,
            final(self)@.state.sim_time == 0,
    {
        let now = self.state.now();
        self.init_at(now);
    }

    /// Begins a new run at the reading `now` of the clock.
    pub fn init_at(&mut self, now: u64)
        ensures
            final(self)@ == old(self)@.initialized(now as nat),
    {
        self.state.restart(now);
    }

    /// Executes one step of the loop on the state's own clock.
    ///
    /// While the simulation is paused, nothing happens. Else, where a tick is
    /// due, the clocks are advanced, `update_callback` is run, and the time
    /// at which it returns becomes the time of the last tick; and in realtime
    /// mode `display_callback` is run, whether there was a tick or not.
    ///
    /// A callback has to be fit to be called only where the step may call
    /// it: neither on a paused loop, and the display callback only in
    /// realtime mode.
    pub fn step(
        &mut self,
        update_callback: impl FnMut(&mut State),
        display_callback: impl FnMut(&mut State),
    )
        requires
            old(self)@.state.simulate ==> forall|s: &mut State|
                call_requires(update_callback, (s,)),
            old(self)@.state.simulate && old(self)@.realtime ==> forall|s: &mut State|
                call_requires(display_callback, (s,)),
        ensures
            !old(self)@.state.simulate ==> *final(self) == *old(self),
            old(self)@.steps_to(
                final(self)@,
                |a: StateView, t: u64| true,
                |a: StateView, b: StateView|
                    exists|s: &mut State|
                        s@ == a && final(s)@ == b && call_ensures(update_callback, (s,), ()),
                |a: StateView, b: StateView|
                    exists|s: &mut State|
                        s@ == a && final(s)@ == b && call_ensures(display_callback, (s,), ()),
            ),
    {
        let clock = |state: &State| -> (nanos: u64) { state.now() };
        let ghost readings = |a: StateView, t: u64|
            exists|s: State| s@ == a && call_ensures(clock, (&s,), t);
        let ghost updates = |a: StateView, b: StateView|
            exists|s: &mut State|
                s@ == a && final(s)@ == b && call_ensures(update_callback, (s,), ());
        let ghost shows = |a: StateView, b: StateView|
            exists|s: &mut State|
                s@ == a && final(s)@ == b && call_ensures(display_callback, (s,), ());
        self.step_with(clock, update_callback, display_callback);
        proof {
            lemma_step_allows_more(
                old(self)@,
                self@,
                readings,
                updates,
                shows,
                |a: StateView, t: u64| true,
                updates,
                shows,
            );
        }
    }

    /// Executes one step of the loop on a clock of the caller's. `clock` is
    /// handed the state and returns the reading in nanoseconds; it is called
    /// once when a running loop begins its step and once more when an update
    /// is over.
    ///
    /// The clock and the callbacks have to be fit to be called only where
    /// the step may call them: none of them on a paused loop, the update
    /// callback only where the clock may give a reading at which a tick is
    /// due, and the display callback only in realtime mode.
    pub fn step_with(
        &mut self,
        mut clock: impl FnMut(&State) -> u64,
        mut update_callback: impl FnMut(&mut State),
        mut display_callback: impl FnMut(&mut State),
    )
        requires
            old(self)@.state.simulate ==> forall|s: State| call_requires(clock, (&s,)),
            forall|s: State, t: u64|
                s@ == old(self)@.state && #[trigger] call_ensures(clock, (&s,), t) && old(
                    self,
                )@.state.simulate && old(self)@.state.tick_due(t as nat, old(self)@.realtime)
                    ==> forall|u: &mut State| call_requires(update_callback, (u,)),
            old(self)@.state.simulate && old(self)@.realtime ==> forall|s: &mut State|
                call_requires(display_callback, (s,)),
        ensures
            !old(self)@.state.simulate ==> *final(self) == *old(self),
            old(self)@.steps_to(
                final(self)@,
                |a: StateView, t: u64| exists|s: State| s@ == a && call_ensures(clock, (&s,), t),
                |a: StateView, b: StateView|
                    exists|s: &mut State|
                        s@ == a && final(s)@ == b && call_ensures(update_callback, (s,), ()),
                |a: StateView, b: StateView|
                    exists|s: &mut State|
                        s@ == a && final(s)@ == b && call_ensures(display_callback, (s,), ()),
            ),
    {
        let ghost readings = |a: StateView, t: u64|
            exists|s: State| s@ == a && call_ensures(clock, (&s,), t);
        let ghost updates = |a: StateView, b: StateView|
            exists|s: &mut State|
                s@ == a && final(s)@ == b && call_ensures(update_callback, (s,), ());
        let ghost shows = |a: StateView, b: StateView|
            exists|s: &mut State|
                s@ == a && final(s)@ == b && call_ensures(display_callback, (s,), ());
        if self.state.is_running() {
            let now = clock(&self.state);
            assert(readings(self.state@, now));
            if self.state.tick_due(now, self.realtime) {
                self.state.advance(now, self.realtime);
                let ghost given = self.state@;
                update_callback(&mut self.state);
                assert(updates(given, self.state@));
                let after = clock(&self.state);
                assert(readings(self.state@, after));
                self.state.stamp(after);
            }
            if self.realtime {
                display_callback(&mut self.state);
            }
        }
    }

    /// Returns a copy of the simulation's state as it is between steps.
    pub fn get_state(&self) -> (state: State)
        ensures
            state@ == self@.state,
    {
        self.state
    }

    /// Turns realtime mode on or off, from the next step on.
    pub fn set_realtime(&mut self, realtime: bool)
        ensures
            final(self)@ == (LoopView { realtime, ..old(self)@ }),
    {
        self.realtime = realtime;
    }

    /// Returns the update interval: the least time in milliseconds between
    /// two update ticks in realtime mode.
    pub fn get_update_interval(self) -> (millis: u32)
        ensures
            millis == self@.state.update_interval,
    {
        self.state.update_interval()
    }

    /// Changes the update interval, from the next step on.
    pub fn set_update_interval(&mut self, update_interval: u32)
        ensures
            final(self)@ == (LoopView {
                state: StateView { update_interval: update_interval as nat, ..old(self)@.state },
                ..old(self)@
            }),
    {
        self.state.set_update_interval(update_interval);
    }
}

/// A step stays a step where the clock may read more and the callbacks may
/// do more.
pub proof fn lemma_step_allows_more(
    pre: LoopView,
    post: LoopView,
    clock: Readings,
    update: Effect,
    display: Effect,
    wider_clock: Readings,
    wider_update: Effect,
    wider_display: Effect,
)
    requires
        pre.steps_to(post, clock, update, display),
        forall|a: StateView, t: u64| #[trigger] clock(a, t) ==> wider_clock(a, t),
        forall|a: StateView, b: StateView| #[trigger] update(a, b) ==> wider_update(a, b),
        forall|a: StateView, b: StateView| #[trigger] display(a, b) ==> wider_display(a, b),
    ensures
        pre.steps_to(post, wider_clock, wider_update, wider_display),
{
}

} // verus!
