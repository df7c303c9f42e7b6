//! The monotonic clock that the loop reads.
//!
//! A clock is an origin, a `std::time::Instant` taken when a state is made,
//! and a reading is the number of nanoseconds that have passed since that
//! origin. Nothing is proved of the standard library's clock: the three
//! declarations below only make it callable, and say nothing of what it
//! returns. What the loop does with a reading is proved for every reading.

use std::time::Duration;
use std::time::Instant;
use vstd::prelude::*;

verus! {

/// `std::time::Instant`, a point on the monotonic clock. Its inside is hidden.
#[verifier::external_type_specification]
#[verifier::external_body]
pub struct ExInstant(Instant);

/// `Instant::now` returns the current point on the monotonic clock. Nothing
/// is claimed of the point it returns.
pub assume_specification[ std::time::Instant::now ]() -> (now: Instant);

/// `Instant::elapsed` returns the time that has passed since `origin`.
/// Nothing is claimed of the span it returns.
pub assume_specification[ std::time::Instant::elapsed ](origin: &Instant) -> (span: Duration);

/// `Duration::as_nanos` returns the whole nanoseconds of `span`. Nothing is
/// claimed of the number it returns.
pub assume_specification[ std::time::Duration::as_nanos ](span: &Duration) -> (nanos: u128);

/// The origin of a new clock: the present moment.
pub(crate) fn start() -> (origin: Instant) {
    Instant::now()
}

/// Reads the clock: the nanoseconds that have passed since `origin`, held at
/// `u64::MAX` (which is reached after more than five centuries).
pub(crate) fn reading(origin: &Instant) -> (nanos: u64) {
    let span = origin.elapsed();
    reading_of(span.as_nanos())
}

/// A count of nanoseconds as a reading holds: the count itself, and
/// `u64::MAX` where the count is beyond it.
pub open spec fn held_nanos(nanos: nat) -> nat {
    if nanos > u64::MAX {
        u64::MAX as nat
    } else {
        nanos
    }
}

/// The reading for a count of nanoseconds since the origin.
pub fn reading_of(nanos: u128) -> (held: u64)
    ensures
        held == held_nanos(nanos as nat),
{
    if nanos > 0xffff_ffff_ffff_ffff {
        u64::MAX
    } else {
        nanos as u64
    }
}

} // verus!
