//! The clocks of one simulation.

use crate::clock::reading;
use crate::clock::start;
use crate::report::append_digits;
use crate::report::append_integer;
use crate::report::append_millionths;
use crate::report::digits;
use crate::report::integer_text;
use crate::report::millionths_text;
use crate::time::advance_irl_time;
use crate::time::advance_sim_time;
use crate::time::advance_sim_time_fixed;
use crate::time::delta_millis;
use crate::time::delta_time;
use crate::time::irl_time_after;
use crate::time::nanos_between;
use crate::time::signed_millis;
use crate::time::sim_time_after;
use crate::time::sim_time_after_fixed;
use crate::time::span_between;
use crate::time::timestep;
use crate::time::timestep_micros;
use crate::time::whole_millis;
use crate::time::NANOS_PER_MILLI;
use crate::time::REAL_TIME_SPEED;
use std::time::Instant;
use vstd::prelude::*;

verus! {

/// The update interval of a new state, in milliseconds.
pub const DEFAULT_UPDATE_INTERVAL: u32 = 40;

/// The timing data of one simulation. A loop owns it and hands it to the
/// host's callbacks, which may read every clock and may pause, resume and
/// change the timescale.
#[derive(Clone, Copy)]
pub struct State {
    epoch: Instant,
    timescale: i32,
    simulate: bool,
    clock_start: u64,
    last_tick: u64,
    delta_time: u32,
    timestep: i64,
    irl_time: u64,
    sim_time: i64,
    update_interval: u32,
}

/// What a [`State`] holds, as mathematical values.
pub struct StateView {
    /// The origin of the clock that all readings are taken from.
    pub epoch: Instant,
    /// The speed of simulation time relative to real time, in thousandths.
    pub timescale: int,
    /// Whether the simulation runs; `false` while it is paused.
    pub simulate: bool,
    /// The reading at which the current run began.
    pub clock_start: nat,
    /// The reading taken when the last update tick was over.
    pub last_tick: nat,
    /// The milliseconds of real time between the last two ticks.
    pub delta_time: nat,
    /// The microseconds of simulation time between the last two ticks.
    pub timestep: int,
    /// The nanoseconds of real time that the current run has taken.
    pub irl_time: nat,
    /// The nanoseconds of simulation time that the current run has covered.
    pub sim_time: int,
    /// The least number of milliseconds between two ticks in realtime mode.
    pub update_interval: nat,
}

impl StateView {
    /// The state of a new simulation whose clock starts at `epoch`: running
    /// at the speed of real time, all clocks at zero, and the delta time set
    /// to the update interval, so that the first timestep is not zero.
    pub open spec fn initial(epoch: Instant) -> StateView {
        StateView {
            epoch,
            timescale: REAL_TIME_SPEED as int,
            simulate: true,
            clock_start: 0,
            last_tick: 0,
            delta_time: DEFAULT_UPDATE_INTERVAL as nat,
            timestep: timestep_micros(DEFAULT_UPDATE_INTERVAL as nat, REAL_TIME_SPEED as int),
            irl_time: 0,
            sim_time: 0,
            update_interval: DEFAULT_UPDATE_INTERVAL as nat,
        }
    }

    /// Every field is a value that a [`State`] can hold.
    pub open spec fn in_range(self) -> bool {
        &&& i32::MIN <= self.timescale <= i32::MAX
        &&& self.clock_start <= u64::MAX
        &&& self.last_tick <= u64::MAX
        &&& self.delta_time <= u32::MAX
        &&& i64::MIN <= self.timestep <= i64::MAX
        &&& self.irl_time <= u64::MAX
        &&& i64::MIN <= self.sim_time <= i64::MAX
        &&& self.update_interval <= u32::MAX
    }

    /// The state at the start of a new run that begins at the reading `now`:
    /// running, with real and simulation time at zero. The time of the last
    /// tick stays as it is.
    pub open spec fn restarted(self, now: nat) -> StateView {
        StateView { simulate: true, clock_start: now, irl_time: 0, sim_time: 0, ..self }
    }

    /// Whether an update tick is due at the reading `now`: always outside
    /// realtime mode, and in realtime mode once the whole milliseconds since
    /// the last tick have reached the update interval.
    pub open spec fn tick_due(self, now: nat, realtime: bool) -> bool {
        !realtime || whole_millis(span_between(self.last_tick, now)) >= self.update_interval
    }

    /// The clocks moved forward for a tick at the reading `now`.
    ///
    /// In realtime mode the delta time is the time since the last tick, real
    /// time grows by that span and simulation time by that span scaled by the
    /// timescale. Outside realtime mode the delta time is the update
    /// interval whatever time has passed, simulation time grows by the
    /// update interval, to which no timescale is applied, and real time is
    /// measured anew from the start of the run. In both modes the timestep
    /// is the new delta time scaled by the timescale.
    pub open spec fn advanced(self, now: nat, realtime: bool) -> StateView {
        if realtime {
            let span = span_between(self.last_tick, now);
            let delta = delta_millis(self.last_tick, now);
            StateView {
                delta_time: delta,
                timestep: timestep_micros(delta, self.timescale),
                sim_time: sim_time_after(self.sim_time, span, self.timescale),
                irl_time: irl_time_after(self.irl_time, span),
                ..self
            }
        } else {
            StateView {
                delta_time: self.update_interval,
                timestep: timestep_micros(self.update_interval, self.timescale),
                sim_time: sim_time_after_fixed(self.sim_time, self.update_interval),
                irl_time: span_between(self.clock_start, now),
                ..self
            }
        }
    }

    /// The state once a tick is over at the reading `now`.
    pub open spec fn stamped(self, now: nat) -> StateView {
        StateView { last_tick: now, ..self }
    }

    /// The line that reports the timings of the state at the reading `now`:
    /// real and simulation time in whole milliseconds, the delta time of
    /// the last tick, the milliseconds since the last tick to the
    /// nanosecond, and the timestep in seconds.
    pub open spec fn timing_line(self, now: nat) -> Seq<char> {
        "IRL time: "@
            + digits(whole_millis(self.irl_time))
            + "ms | Sim time: "@
            + integer_text(signed_millis(self.sim_time))
            + "ms | Delta time (tick): "@
            + digits(self.delta_time)
            + "ms | Delta time (step): "@
            + millionths_text(span_between(self.last_tick, now) as int)
            + "ms | Timestep: "@
            + millionths_text(self.timestep)
            + "s"@
    }
}

impl View for State {
    type V = StateView;

    closed spec fn view(&self) -> StateView {
        StateView {
            epoch: self.epoch,
            timescale: self.timescale as int,
            simulate: self.simulate,
            clock_start: self.clock_start as nat,
            last_tick: self.last_tick as nat,
            delta_time: self.delta_time as nat,
            timestep: self.timestep as int,
            irl_time: self.irl_time as nat,
            sim_time: self.sim_time as int,
            update_interval: self.update_interval as nat,
        }
    }
}

impl State {
    /// Creates the state of a new simulation, whose clock starts now.
    pub fn new() -> (state: State)
        ensures
            state@ == StateView::initial(state@.epoch),
    {
        State {
            epoch: start(),
            timescale: REAL_TIME_SPEED,
            simulate: true,
            clock_start: 0,
            last_tick: 0,
            delta_time: DEFAULT_UPDATE_INTERVAL,
            timestep: timestep(DEFAULT_UPDATE_INTERVAL, REAL_TIME_SPEED),
            irl_time: 0,
            sim_time: 0,
            update_interval: DEFAULT_UPDATE_INTERVAL,
        }
    }

    /// Returns the delta time: the real time in milliseconds between the
    /// last two update ticks.
    pub fn get_delta_time(self) -> (millis: u32)
        ensures
            millis == self@.delta_time,
    {
        self.delta_time
    }

    /// Returns the timestep: the simulation time in microseconds between the
    /// last two update ticks, by which update logic scales what it does.
    pub fn get_timestep(self) -> (micros: i64)
        ensures
            micros == self@.timestep,
    {
        self.timestep
    }

    /// Returns the real time in nanoseconds since the start of the run.
    pub fn get_irl_time(self) -> (nanos: u64)
        ensures
            nanos == self@.irl_time,
    {
        self.irl_time
    }

    /// Returns the simulation time in nanoseconds since the start of the run.
    pub fn get_sim_time(self) -> (nanos: i64)
        ensures
            nanos == self@.sim_time,
    {
        self.sim_time
    }

    /// Returns the timescale in thousandths: the speed of simulation time
    /// relative to real time.
    pub fn get_timescale(self) -> (thousandths: i32)
        ensures
            thousandths == self@.timescale,
    {
        self.timescale
    }

    /// Returns the reading of the clock at the end of the last tick, in
    /// nanoseconds since the state was made.
    pub fn get_last_tick(self) -> (nanos: u64)
        ensures
            nanos == self@.last_tick,
    {
        self.last_tick
    }

    /// Pauses the simulation. A step that is under way is finished; the
    /// steps after it do nothing until the simulation is resumed.
    pub fn pause(&mut self)
        ensures
            final(self)@ == (StateView { simulate: false, ..old(self)@ }),
    {
        self.simulate = false;
    }

    /// Resumes the simulation.
    pub fn resume(&mut self)
        ensures
            final(self)@ == (StateView { simulate: true, ..old(self)@ }),
    {
        self.simulate = true;
    }

    /// Changes the timescale, in thousandths. Any value is taken: zero
    /// freezes simulation time and a negative value turns it backwards. The
    /// timestep changes with the next tick.
    pub fn set_timescale(&mut self, timescale: i32)
        ensures
            final(self)@ == (StateView { timescale: timescale as int, ..old(self)@ }),
    {
        self.timescale = timescale;
    }

    /// Reads the state's clock: the nanoseconds since the state was made.
    pub fn now(&self) -> (nanos: u64) {
        reading(&self.epoch)
    }

    /// Returns a line of text on the timings of the step under way, such as
    /// `IRL time: 4443ms | Sim time: 4443ms | Delta time (tick): 40ms | Delta time (step): 40.0638ms | Timestep: 0.04s`.
    /// The time since the last tick is measured now, on the state's clock.
    pub fn debug_time(self) -> (line: String)
        ensures
            exists|now: u64| line@ == self@.timing_line(now as nat),
    {
        let now = self.now();
        self.debug_time_at(now)
    }

    /// Returns the line of text on the timings of the state at the reading
    /// `now` of the clock.
    pub fn debug_time_at(self, now: u64) -> (line: String)
        ensures
            line@ == self@.timing_line(now as nat),
    {
        let mut line = String::from_str("IRL time: ");
        append_digits(&mut line, (self.irl_time / NANOS_PER_MILLI) as u128);
        line.append("ms | Sim time: ");
        append_integer(&mut line, (self.sim_time / 1_000_000) as i128);
        line.append("ms | Delta time (tick): ");
        append_digits(&mut line, self.delta_time as u128);
        line.append("ms | Delta time (step): ");
        append_millionths(&mut line, nanos_between(self.last_tick, now) as i128);
        line.append("ms | Timestep: ");
        append_millionths(&mut line, self.timestep as i128);
        line.append("s");
        line
    }

    /// Whether the simulation runs: `false` while it is paused.
    pub fn is_running(&self) -> (running: bool)
        ensures
            running == self@.simulate,
    {
        self.simulate
    }

    /// The update interval in milliseconds.
    pub(crate) fn update_interval(&self) -> (millis: u32)
        ensures
            millis == self@.update_interval,
    {
        self.update_interval
    }

    /// Changes the update interval.
    pub(crate) fn set_update_interval(&mut self, update_interval: u32)
        ensures
            final(self)@ == (StateView {
                update_interval: update_interval as nat,
                ..old(self)@
            }),
    {
        self.update_interval = update_interval;
    }

    /// Begins a new run at the reading `now`.
    pub(crate) fn restart(&mut self, now: u64)
        ensures
            final(self)@ == old(self)@.restarted(now as nat),
    {
        self.simulate = true;
        self.clock_start = now;
        self.irl_time = 0;
        self.sim_time = 0;
    }

    /// Whether an update tick is due at the reading `now`.
    pub(crate) fn tick_due(&self, now: u64, realtime: bool) -> (due: bool)
        ensures
            due == self@.tick_due(now as nat, realtime),
    {
        !realtime || delta_time(self.last_tick, now) >= self.update_interval
    }

    /// Moves the clocks forward for a tick at the reading `now`.
    pub(crate) fn advance(&mut self, now: u64, realtime: bool)
        ensures
            final(self)@ == old(self)@.advanced(now as nat, realtime),
    {
        if realtime {
            let span = nanos_between(self.last_tick, now);
            self.delta_time = delta_time(self.last_tick, now);
            self.sim_time = advance_sim_time(self.sim_time, span, self.timescale);
            self.irl_time = advance_irl_time(self.irl_time, span);
        } else {
            self.delta_time = self.update_interval;
            self.sim_time = advance_sim_time_fixed(self.sim_time, self.update_interval);
            self.irl_time = nanos_between(self.clock_start, now);
        }
        self.timestep = timestep(self.delta_time, self.timescale);
    }

    /// Records the reading `now` as the end of a tick.
    pub(crate) fn stamp(&mut self, now: u64)
        ensures
            final(self)@ == old(self)@.stamped(now as nat),
    {
        self.last_tick = now;
    }

    /// What a state holds is within the range of its fields.
    pub proof fn lemma_view_in_range(self)
        ensures
            self@.in_range(),
    {
    }

    /// Two states that hold the same values are the same state.
    pub proof fn lemma_view_determines(self, other: State)
        requires
            self@ == other@,
        ensures
            self == other,
    {
    }
}

impl StateView {
    /// After every tick the timestep is the delta time of that tick scaled
    /// by the timescale: the delta time in milliseconds times the timescale
    /// in thousandths is the timestep in microseconds.
    pub proof fn lemma_timestep_follows_delta_time(self, now: nat, realtime: bool)
        ensures
            self.advanced(now, realtime).timestep == self.advanced(now, realtime).delta_time
                * self.timescale,
            realtime ==> self.advanced(now, realtime).delta_time == delta_millis(
                self.last_tick,
                now,
            ),
            !realtime ==> self.advanced(now, realtime).delta_time == self.update_interval,
    {
    }

    /// A tick in realtime mode never takes real time back.
    pub proof fn lemma_real_time_grows(self, now: nat)
        requires
            self.in_range(),
        ensures
            self.advanced(now, true).irl_time >= self.irl_time,
    {
    }

    /// A tick never takes simulation time back unless the timescale is
    /// negative, and in realtime mode a timescale of zero holds simulation
    /// time where it is.
    pub proof fn lemma_sim_time_grows(self, now: nat, realtime: bool)
        requires
            self.in_range(),
            self.timescale >= 0,
        ensures
            self.advanced(now, realtime).sim_time >= self.sim_time,
            realtime && self.timescale == 0 ==> self.advanced(now, realtime).sim_time
                == self.sim_time,
    {
        let span: nat = span_between(self.last_tick, now);
        let timescale: int = self.timescale;
        assert(span * timescale >= 0) by (nonlinear_arith)
            requires
                span >= 0,
                timescale >= 0,
        ;
        assert(timescale == 0 ==> span * timescale == 0) by (nonlinear_arith);
    }
}

} // verus!
