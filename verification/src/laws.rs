//! What holds of the steps of a loop, whatever the clock reads and the
//! callbacks do.
//!
//! Each law speaks of [`LoopView::steps_to`], the relation that
//! [`Loop::step`](crate::simulation::Loop::step) establishes between the
//! loop before and after it. Where a law says that the relation holds even
//! with a clock that gives no reading or a callback that never returns, it
//! says that the loop which the step leaves owes nothing to that clock or
//! callback. That a step does not call them there is in what `step` asks
//! of them: it does not ask that they can be called.

use crate::simulation::Effect;
use crate::simulation::LoopView;
use crate::simulation::Readings;
use crate::state::StateView;
use crate::time::span_between;
use crate::time::whole_millis;
use vstd::prelude::*;

verus! {

/// A step of a paused loop leaves the loop as it was, whatever the clock
/// and the callbacks are. The step relation holds of it even with a clock
/// that gives no reading and with callbacks that never return.
pub proof fn lemma_paused_step_is_idle(
    pre: LoopView,
    post: LoopView,
    clock: Readings,
    update: Effect,
    display: Effect,
)
    requires
        !pre.state.simulate,
        pre.steps_to(post, clock, update, display),
    ensures
        post == pre,
        pre.steps_to(
            post,
            |a: StateView, t: u64| false,
            |a: StateView, b: StateView| false,
            |a: StateView, b: StateView| false,
        ),
{
}

/// Outside realtime mode every step of a running loop ticks, however soon
/// it follows the last. The clock is read on the state as the step finds
/// it, the clocks are advanced by the update interval, the update callback
/// is run once on the advanced state, the clock is read on the state that
/// the update has left, and that reading is recorded as the end of the
/// tick. The step relation holds of it even with a display callback that
/// never returns.
pub proof fn lemma_headless_step_ticks(
    pre: LoopView,
    post: LoopView,
    clock: Readings,
    update: Effect,
    display: Effect,
)
    requires
        pre.state.simulate,
        !pre.realtime,
        pre.steps_to(post, clock, update, display),
    ensures
        exists|now: u64, after: u64, updated: StateView|
            #![trigger clock(pre.state, now), clock(updated, after)]
            {
                &&& clock(pre.state, now)
                &&& pre.state.advanced(now as nat, false).delta_time == pre.state.update_interval
                &&& update(pre.state.advanced(now as nat, false), updated)
                &&& clock(updated, after)
                &&& post.state == updated.stamped(after as nat)
            },
        pre.steps_to(post, clock, update, |a: StateView, b: StateView| false),
{
}

/// A run of steps: each loop of `run` but the last steps to the one after it.
pub open spec fn is_run(
    run: Seq<LoopView>,
    clock: Readings,
    update: Effect,
    display: Effect,
) -> bool {
    forall|i: int|
        0 <= i < run.len() - 1 ==> (#[trigger] run[i]).steps_to(
            run[i + 1],
            clock,
            update,
            display,
        )
}

/// A paused loop stays as it is through a run of any length: nothing but
/// a new run or a resumed state lets it step again.
pub proof fn lemma_paused_run_is_idle(
    run: Seq<LoopView>,
    clock: Readings,
    update: Effect,
    display: Effect,
    i: int,
)
    requires
        is_run(run, clock, update, display),
        0 <= i < run.len(),
        !run[0].state.simulate,
    ensures
        run[i] == run[0],
    decreases i,
{
    if i > 0 {
        lemma_paused_run_is_idle(run, clock, update, display, i - 1);
        lemma_paused_step_is_idle(run[i - 1], run[i], clock, update, display);
    }
}

/// A run of any length outside realtime mode, begun on a running loop with
/// an update callback that does not pause: every step of the run ticks, and
/// the step relation holds of every one of them even with a display
/// callback that never returns.
pub proof fn lemma_headless_run_ticks_every_step(
    run: Seq<LoopView>,
    clock: Readings,
    update: Effect,
    display: Effect,
    i: int,
)
    requires
        is_run(run, clock, update, display),
        0 <= i < run.len() - 1,
        run[0].state.simulate,
        !run[0].realtime,
        forall|a: StateView, b: StateView| #[trigger] update(a, b) ==> b.simulate,
    ensures
        run[i].state.simulate,
        !run[i].realtime,
        exists|now: u64, after: u64, updated: StateView|
            #![trigger clock(run[i].state, now), clock(updated, after)]
            {
                &&& clock(run[i].state, now)
                &&& run[i].state.advanced(now as nat, false).delta_time
                    == run[i].state.update_interval
                &&& update(run[i].state.advanced(now as nat, false), updated)
                &&& clock(updated, after)
                &&& run[i + 1].state == updated.stamped(after as nat)
            },
        run[i].steps_to(run[i + 1], clock, update, |a: StateView, b: StateView| false),
    decreases i,
{
    if i > 0 {
        lemma_headless_run_ticks_every_step(run, clock, update, display, i - 1);
    }
    lemma_headless_step_ticks(run[i], run[i + 1], clock, update, display);
}

/// In realtime mode a running loop that begins its step before the update
/// interval has passed since the last tick does not tick: the step is its
/// display half, in which the display callback is run on the state as the
/// step finds it. The step relation holds of it even with an update
/// callback that never returns.
pub proof fn lemma_early_step_only_displays(
    pre: LoopView,
    post: LoopView,
    now: u64,
    clock: Readings,
    update: Effect,
    display: Effect,
)
    requires
        pre.realtime,
        whole_millis(span_between(pre.state.last_tick, now as nat)) < pre.state.update_interval,
        pre.steps_at(post, now, clock, update, display),
    ensures
        display(pre.state, post.state),
        pre.steps_at(post, now, clock, |a: StateView, b: StateView| false, display),
{
}

/// Two steps in realtime mode, the second begun less than an update interval
/// after the first. Where the first step ticked, the clock did not run
/// backwards, and the callbacks left the pause flag, the update interval
/// and the time of the last tick alone, the second step does not tick: it
/// is its display half, in which the display callback is run on the state
/// that the first step left, and the step relation holds of it even with
/// an update callback that never returns. The first step ran its display
/// callback too.
pub proof fn lemma_second_step_within_interval(
    pre: LoopView,
    mid: LoopView,
    post: LoopView,
    first: u64,
    clock: Readings,
    update: Effect,
    display: Effect,
    later_clock: Readings,
    later_update: Effect,
    later_display: Effect,
)
    requires
        pre.realtime,
        pre.state.simulate,
        pre.state.tick_due(first as nat, true),
        pre.steps_at(mid, first, clock, update, display),
        mid.steps_to(post, later_clock, later_update, later_display),
        forall|a: StateView, t: u64| #[trigger] clock(a, t) ==> first <= t,
        forall|a: StateView, t: u64, b: StateView, later: u64|
            #[trigger] clock(a, t) && #[trigger] later_clock(b, later) ==> t <= later,
        forall|b: StateView, later: u64| #[trigger]
            later_clock(b, later) ==> whole_millis(span_between(first as nat, later as nat))
                < pre.state.update_interval,
        forall|a: StateView, b: StateView| #[trigger]
            update(a, b) ==> b.simulate == a.simulate && b.update_interval == a.update_interval,
        forall|a: StateView, b: StateView| #[trigger]
            display(a, b) ==> b.simulate == a.simulate && b.update_interval == a.update_interval
                && b.last_tick == a.last_tick,
    ensures
        exists|shown: StateView| #[trigger] display(shown, mid.state),
        later_display(mid.state, post.state),
        mid.steps_to(post, later_clock, |a: StateView, b: StateView| false, later_display),
{
}

/// The time of the last tick never goes back in a step, where the clock
/// has not run backwards since that tick and the display callback leaves the
/// time of the last tick alone.
pub proof fn lemma_last_tick_never_goes_back(
    pre: LoopView,
    post: LoopView,
    clock: Readings,
    update: Effect,
    display: Effect,
)
    requires
        pre.steps_to(post, clock, update, display),
        forall|a: StateView, t: u64| #[trigger] clock(a, t) ==> pre.state.last_tick <= t,
        forall|a: StateView, b: StateView| #[trigger] display(a, b) ==> b.last_tick == a.last_tick,
    ensures
        post.state.last_tick >= pre.state.last_tick,
{
}

/// A pause from within the update callback takes effect with the next
/// step. The step in which the callback paused the simulation is finished
/// as any other: the clock is read on the paused state that the update has
/// left, that reading is recorded as the end of the tick, and in realtime
/// mode the display callback is run. Where that callback does not resume
/// the simulation, the loop is left paused, and the step after it changes
/// nothing.
pub proof fn lemma_pause_ends_after_tick(
    pre: LoopView,
    mid: LoopView,
    post: LoopView,
    now: u64,
    clock: Readings,
    update: Effect,
    display: Effect,
    later_clock: Readings,
    later_update: Effect,
    later_display: Effect,
)
    requires
        pre.state.simulate,
        pre.state.tick_due(now as nat, pre.realtime),
        pre.steps_at(mid, now, clock, update, display),
        mid.steps_to(post, later_clock, later_update, later_display),
        forall|a: StateView, b: StateView| #[trigger] update(a, b) ==> !b.simulate,
        forall|a: StateView, b: StateView| #[trigger] display(a, b) ==> b.simulate == a.simulate,
    ensures
        exists|after: u64, updated: StateView|
            #![trigger clock(updated, after)]
            {
                &&& update(pre.state.advanced(now as nat, pre.realtime), updated)
                &&& !updated.simulate
                &&& clock(updated, after)
                &&& if pre.realtime {
                    display(updated.stamped(after as nat), mid.state)
                } else {
                    mid.state == updated.stamped(after as nat)
                }
            },
        !mid.state.simulate,
        post == mid,
{
}

} // verus!
