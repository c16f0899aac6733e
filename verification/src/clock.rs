//! Readings of the wall clock and of the monotonic clock. What only the
//! platform can answer — what time it is, how long something took — comes
//! through trusted declarations; everything around them is verified for any
//! reading whatsoever.

use vstd::prelude::*;
use std::time::{Duration, Instant, SystemTime, SystemTimeError};
use crate::envelope::Cost;

verus! {

/// A monotonic point in time, from the standard library.
#[verifier::external_type_specification]
#[verifier::external_body]
pub struct ExInstant(Instant);

/// A wall-clock point in time, from the standard library.
#[verifier::external_type_specification]
#[verifier::external_body]
pub struct ExSystemTime(SystemTime);

/// The error a wall-clock difference reports when time went backwards.
#[verifier::external_type_specification]
#[verifier::external_body]
pub struct ExSystemTimeError(SystemTimeError);

/// Relies on `Instant::now`: a reading of the monotonic clock. Nothing is
/// promised of the value; callers hold for any reading.
pub assume_specification[ Instant::now ]() -> Instant;

/// Relies on `Instant::elapsed`: the time since the earlier reading. Nothing
/// is promised of the value.
pub assume_specification[ Instant::elapsed ](start: &Instant) -> Duration;

/// Relies on `SystemTime::now`: a reading of the wall clock.
pub assume_specification[ SystemTime::now ]() -> SystemTime;

/// Relies on `SystemTime::duration_since`: the span from `earlier`, or an
/// error when `earlier` is later than `t`.
pub assume_specification[ SystemTime::duration_since ](
    t: &SystemTime,
    earlier: SystemTime,
) -> Result<Duration, SystemTimeError>;

/// Relies on `Duration::as_secs`: the whole-second part of the span.
pub assume_specification[ Duration::as_secs ](d: &Duration) -> u64;

/// Relies on `Duration::subsec_nanos`: the fractional part of the span in
/// nanoseconds, documented as always less than one billion.
pub assume_specification[ Duration::subsec_nanos ](d: &Duration) -> (r: u32)
    ensures
        r < 1_000_000_000,
;

/// Relies on the standard library's `UNIX_EPOCH` constant: the fixed
/// reference point that timestamps count from.
#[verifier::external_body]
fn unix_epoch() -> SystemTime {
    std::time::UNIX_EPOCH
}

/// The wall clock now, as whole seconds since the Unix epoch; zero when the
/// clock stands before the epoch.
pub fn unix_now_secs() -> u64 {
    match SystemTime::now().duration_since(unix_epoch()) {
        Ok(d) => d.as_secs(),
        Err(_) => 0,
    }
}

/// The time since `start`, split for the canonical cost rendering.
pub fn elapsed_cost(start: &Instant) -> (c: Cost)
    ensures
        c.wf(),
{
    let d = start.elapsed();
    Cost { secs: d.as_secs(), nanos: d.subsec_nanos() }
}

/// A reading of the monotonic clock, taken just before a unit runs.
pub fn monotonic_now() -> Instant {
    Instant::now()
}

} // verus!
