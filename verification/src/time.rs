//! The arithmetic of the loop's clocks.
//!
//! Instants and spans of real time are nanoseconds in a `u64`, read off a
//! monotonic clock. The time between two ticks is a whole number of
//! milliseconds in a `u32`. A timescale is a ratio in thousandths, so that
//! `1000` is the speed of real time, `2000` twice that speed, `0` a frozen
//! simulation and a negative value a simulation that runs backwards. A
//! timestep is a signed number of microseconds, and simulation time a signed
//! number of nanoseconds.

use vstd::prelude::*;

verus! {

/// Nanoseconds in a millisecond.
pub const NANOS_PER_MILLI: u64 = 1_000_000;

/// The timescale at which simulation time runs as fast as real time.
pub const REAL_TIME_SPEED: i32 = 1000;

/// The nanoseconds from `earlier` to `now`; zero where `now` lies before `earlier`.
pub open spec fn span_between(earlier: nat, now: nat) -> nat {
    if now >= earlier {
        (now - earlier) as nat
    } else {
        0
    }
}

/// The whole milliseconds in a span of nanoseconds.
pub open spec fn whole_millis(nanos: nat) -> nat {
    nanos / 1_000_000
}

/// The whole milliseconds in a signed number of nanoseconds, rounded toward zero.
pub open spec fn signed_millis(nanos: int) -> int {
    if nanos >= 0 {
        nanos / 1_000_000
    } else {
        -((-nanos) / 1_000_000)
    }
}

/// The delta time measured at `now` since `earlier`: the whole milliseconds
/// between them, held at `u32::MAX` where they are more than a `u32` can hold.
pub open spec fn delta_millis(earlier: nat, now: nat) -> nat {
    let millis = whole_millis(span_between(earlier, now));
    if millis > u32::MAX {
        u32::MAX as nat
    } else {
        millis
    }
}

/// The timestep in microseconds: `delta_time` milliseconds, divided by a
/// thousand to give seconds, times a timescale in thousandths.
pub open spec fn timestep_micros(delta_time: nat, timescale: int) -> int {
    delta_time * timescale
}

/// A span of nanoseconds scaled by a timescale in thousandths, rounded toward zero.
pub open spec fn scaled(span: nat, timescale: int) -> int {
    if timescale >= 0 {
        (span * timescale) / 1000
    } else {
        -((span * (-timescale)) / 1000)
    }
}

/// `value` held within `low ..= high`.
pub open spec fn held_within(value: int, low: int, high: int) -> int {
    if value < low {
        low
    } else if value > high {
        high
    } else {
        value
    }
}

/// Simulation time moved by `nanos`, held within what an `i64` can hold.
pub open spec fn sim_time_moved(sim_time: int, nanos: int) -> int {
    held_within(sim_time + nanos, i64::MIN as int, i64::MAX as int)
}

/// Simulation time after it has run for `span` nanoseconds of real time at `timescale`.
pub open spec fn sim_time_after(sim_time: int, span: nat, timescale: int) -> int {
    sim_time_moved(sim_time, scaled(span, timescale))
}

/// Simulation time after a tick of `millis` milliseconds that no timescale applies to.
pub open spec fn sim_time_after_fixed(sim_time: int, millis: nat) -> int {
    sim_time_moved(sim_time, (millis * 1_000_000) as int)
}

/// Real time after `span` more nanoseconds, held at `u64::MAX`.
pub open spec fn irl_time_after(irl_time: nat, span: nat) -> nat {
    held_within((irl_time + span) as int, 0, u64::MAX as int) as nat
}

/// The nanoseconds of real time from `earlier` to `now`, zero where the clock
/// has not moved forward.
pub fn nanos_between(earlier: u64, now: u64) -> (span: u64)
    ensures
        span == span_between(earlier as nat, now as nat),
{
    if now >= earlier {
        now - earlier
    } else {
        0
    }
}

/// The real time in milliseconds that has passed at `now` since `earlier`.
pub fn delta_time(earlier: u64, now: u64) -> (millis: u32)
    ensures
        millis == delta_millis(earlier as nat, now as nat),
{
    let millis: u64 = nanos_between(earlier, now) / NANOS_PER_MILLI;
    if millis > 0xffff_ffff {
        u32::MAX
    } else {
        millis as u32
    }
}

/// The timestep in microseconds for a delta time in milliseconds and a
/// timescale in thousandths.
pub fn timestep(delta_time: u32, timescale: i32) -> (micros: i64)
    ensures
        micros == timestep_micros(delta_time as nat, timescale as int),
{
    proof {
        lemma_timestep_fits(delta_time, timescale);
    }
    (delta_time as i64) * (timescale as i64)
}

/// Simulation time `sim_time` advanced by `span` nanoseconds of real time at `timescale`.
pub fn advance_sim_time(sim_time: i64, span: u64, timescale: i32) -> (advanced: i64)
    ensures
        advanced == sim_time_after(sim_time as int, span as nat, timescale as int),
{
    proof {
        lemma_scaled_fits(span, timescale);
    }
    let product: i128 = (span as i128) * (timescale as i128);
    let sum: i128 = (sim_time as i128) + product / 1000;
    if sum < -0x8000_0000_0000_0000 {
        i64::MIN
    } else if sum > 0x7fff_ffff_ffff_ffff {
        i64::MAX
    } else {
        sum as i64
    }
}

/// Simulation time `sim_time` advanced by a fixed tick of `millis` milliseconds.
pub fn advance_sim_time_fixed(sim_time: i64, millis: u32) -> (advanced: i64)
    ensures
        advanced == sim_time_after_fixed(sim_time as int, millis as nat),
{
    let sum: i128 = (sim_time as i128) + (millis as i128) * 1_000_000;
    if sum > 0x7fff_ffff_ffff_ffff {
        i64::MAX
    } else {
        sum as i64
    }
}

/// Real time `irl_time` advanced by `span` nanoseconds.
pub fn advance_irl_time(irl_time: u64, span: u64) -> (advanced: u64)
    ensures
        advanced == irl_time_after(irl_time as nat, span as nat),
{
    if span > u64::MAX - irl_time {
        u64::MAX
    } else {
        irl_time + span
    }
}

/// At the speed of real time a span is scaled to itself, and at a timescale
/// of zero to nothing.
pub proof fn lemma_scaled_at_plain_speeds(span: nat)
    ensures
        scaled(span, REAL_TIME_SPEED as int) == span,
        scaled(span, 0) == 0,
{
}

/// A negative timescale turns simulation time backwards: it scales a span
/// to what the same timescale without its sign scales it to, below zero.
pub proof fn lemma_scaled_mirrors(span: nat, timescale: int)
    ensures
        scaled(span, -timescale) == -scaled(span, timescale),
{
    if timescale == 0 {
        assert(span * 0 == 0);
    }
}

/// The product of a delta time and a timescale is within an `i64`.
proof fn lemma_timestep_fits(delta_time: u32, timescale: i32)
    ensures
        i64::MIN <= (delta_time as i64) * (timescale as i64) <= i64::MAX,
        (delta_time as i64) * (timescale as i64) == timestep_micros(
            delta_time as nat,
            timescale as int,
        ),
{
    let d: int = delta_time as int;
    let t: int = timescale as int;
    assert(-0x8000_0000_0000_0000 <= d * t <= 0x7fff_ffff_ffff_ffff) by (nonlinear_arith)
        requires
            0 <= d <= 0xffff_ffff,
            -0x8000_0000 <= t <= 0x7fff_ffff,
    ;
}

/// The product of a span and a timescale is within an `i128`, and its
/// thousandth as the machine divides it is the scaled span.
proof fn lemma_scaled_fits(span: u64, timescale: i32)
    ensures
        -0x8000_0000_0000_0000_0000_0000 <= (span as int) * (timescale as int)
            <= 0x8000_0000_0000_0000_0000_0000,
        timescale >= 0 ==> ((span as int) * (timescale as int)) / 1000 == scaled(
            span as nat,
            timescale as int,
        ),
        timescale < 0 ==> -((-((span as int) * (timescale as int))) / 1000) == scaled(
            span as nat,
            timescale as int,
        ),
{
    let s: int = span as int;
    let t: int = timescale as int;
    assert(-0x8000_0000_0000_0000_0000_0000 <= s * t <= 0x8000_0000_0000_0000_0000_0000)
        by (nonlinear_arith)
        requires
            0 <= s <= 0xffff_ffff_ffff_ffff,
            -0x8000_0000 <= t <= 0x7fff_ffff,
    ;
    assert(-(s * t) == s * (-t)) by (nonlinear_arith);
}

} // verus!
