use vstd::prelude::*;

verus! {

/// A reading of the monotonic clock. Verus sees nothing inside it: the
/// library only carries such readings and asks the clock how long ago they
/// were taken.
#[verifier::external_type_specification]
#[verifier::external_body]
pub struct ExInstant(std::time::Instant);

/// Reads the monotonic clock (`std::time::Instant::now`). Nothing is promised
/// of the reading: it depends on when the call is made.
#[verifier::external_body]
pub fn instant_now() -> std::time::Instant {
    std::time::Instant::now()
}

/// Nanoseconds elapsed since `since` (`Instant::elapsed`, then
/// `Duration::as_nanos`, truncated to 64 bits). Nothing is promised of the
/// value: it depends on the time of the call.
#[verifier::external_body]
pub fn ns_since(since: &std::time::Instant) -> u64 {
    since.elapsed().as_nanos() as u64
}

} // verus!

verus! {

/// A reading of the system (wall) clock. Verus sees nothing inside it.
#[verifier::external_type_specification]
#[verifier::external_body]
pub struct ExSystemTime(std::time::SystemTime);

/// Reads the system clock (`std::time::SystemTime::now`). Nothing is
/// promised of the reading: it depends on when the call is made.
#[verifier::external_body]
pub fn system_time_now() -> std::time::SystemTime {
    std::time::SystemTime::now()
}

/// Whole seconds from the Unix epoch to `t`
/// (`SystemTime::duration_since(UNIX_EPOCH)`, then `Duration::as_secs`), or
/// `None` when `t` is before the epoch. Nothing is promised of the value:
/// Verus sees nothing inside `t`.
#[verifier::external_body]
pub fn unix_secs_of(t: &std::time::SystemTime) -> Option<u64> {
    t.duration_since(std::time::UNIX_EPOCH).ok().map(|d| d.as_secs())
}

} // verus!
