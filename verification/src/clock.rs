//! A monotonic clock that counts nanoseconds from the moment it was made.

use std::time::{Duration, Instant};
use vstd::prelude::*;

verus! {

#[verifier::external_type_specification]
#[verifier::external_body]
pub struct ExInstant(std::time::Instant);

/// Calls `std::time::Instant::now`. Nothing is claimed of the instant read:
/// it depends on when the call is made.
#[verifier::external_body]
fn instant_now() -> (t: Instant) {
    Instant::now()
}

/// Calls `std::time::Instant::saturating_duration_since`, which gives the time
/// from `earlier` to `later`, or zero where `earlier` is the later of the two.
/// It never panics. Nothing is claimed of the duration.
#[verifier::external_body]
fn instant_span(later: &Instant, earlier: &Instant) -> (d: Duration) {
    later.saturating_duration_since(*earlier)
}

/// Calls `std::time::Duration::as_nanos`, the whole duration in nanoseconds.
/// Nothing is claimed of the number.
#[verifier::external_body]
fn duration_nanos(d: &Duration) -> (n: u128) {
    d.as_nanos()
}

/// The text that std's `Debug` gives for a duration: the time in the largest
/// unit of seconds, milliseconds, microseconds and nanoseconds that it
/// fills, with the unit behind it.
pub uninterp spec fn duration_debug(d: Duration) -> Seq<char>;

/// Formats a `std::time::Duration` with `{:?}`, its `Debug` text. The text
/// depends on the duration alone.
#[verifier::external_body]
pub(crate) fn duration_text(d: &Duration) -> (s: String)
    ensures
        s@ == duration_debug(*d),
{
    format!("{:?}", d)
}

/// A monotonic clock. Its readings are nanoseconds since it was made, so two
/// readings of one clock can be subtracted.
pub struct MonotonicClock {
    origin: Instant,
}

impl MonotonicClock {
    /// A clock whose readings start now.
    pub fn new() -> (clock: MonotonicClock) {
        MonotonicClock { origin: instant_now() }
    }

    /// The time that has passed since the clock was made. It depends on the
    /// moment of the call, so nothing is promised of it.
    pub fn elapsed(&self) -> (d: Duration) {
        let t = instant_now();
        instant_span(&t, &self.origin)
    }

    /// The nanoseconds that have passed since the clock was made. The reading
    /// depends on the moment of the call, so nothing is promised of it.
    pub fn now(&self) -> (nanos: u128) {
        let d = self.elapsed();
        duration_nanos(&d)
    }
}

} // verus!
