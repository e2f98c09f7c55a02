//! Time values: durations in milliseconds and the system clock.
use core::time::Duration;
use vstd::prelude::*;

verus! {

/// The number of milliseconds a [`Duration`] holds.
pub uninterp spec fn duration_millis(d: Duration) -> u128;

/// Relies on core's `Duration::from_millis`: the duration holds exactly the
/// given milliseconds.
pub assume_specification[ Duration::from_millis ](ms: u64) -> (d: Duration)
    ensures
        duration_millis(d) == ms as u128,
;

/// Relies on core's `Duration::as_millis`: returns the whole milliseconds
/// the duration holds.
pub assume_specification[ Duration::as_millis ](d: &Duration) -> (r: u128)
    ensures
        r == duration_millis(*d),
;

/// Relies on std::time's `SystemTime`: the system clock's reading in
/// milliseconds since the Unix epoch. The result depends on the environment;
/// nothing is promised of it.
#[verifier::external_body]
pub(crate) fn current_time_millis() -> u64 {
    match std::time::SystemTime::now().duration_since(std::time::UNIX_EPOCH) {
        Ok(d) => d.as_millis().try_into().unwrap_or(u64::MAX),
        Err(_) => 0,
    }
}

} // verus!
