//! What the library knows about `std::time::Duration`.

use std::time::Duration;
use vstd::prelude::*;

verus! {

/// Length of a duration in nanoseconds, as `Duration::as_nanos` reports it.
pub uninterp spec fn nanos(duration: Duration) -> nat;

/// `Duration::is_zero` of `std`: whether the duration spans no time.
pub assume_specification[ Duration::is_zero ](duration: &Duration) -> (zero: bool)
    ensures
        zero == (nanos(*duration) == 0),
;

/// `Duration::from_millis` of `std`: a duration of that many milliseconds.
pub assume_specification[ Duration::from_millis ](millis: u64) -> (duration: Duration)
    ensures
        nanos(duration) == millis * 1_000_000,
;

/// `Duration::from_secs` of `std`: a duration of that many seconds.
pub assume_specification[ Duration::from_secs ](secs: u64) -> (duration: Duration)
    ensures
        nanos(duration) == secs * 1_000_000_000,
;

/// An optional timeout in which zero stands for none.
pub open spec fn normalized(timeout: Option<Duration>) -> Option<Duration> {
    match timeout {
        Some(duration) if nanos(duration) > 0 => Some(duration),
        _ => None,
    }
}

/// Converts `Some` of a zero duration to `None`.
pub fn normalize_timeout(timeout: Option<Duration>) -> (normal: Option<Duration>)
    ensures
        normal == normalized(timeout),
{
    match timeout {
        Some(duration) => {
            if duration.is_zero() {
                None
            } else {
                Some(duration)
            }
        },
        None => None,
    }
}

/// A timeout that spans time is kept as it is; one that spans none is no timeout.
pub proof fn law_only_an_empty_timeout_is_dropped(timeout: Duration)
    ensures
        nanos(timeout) > 0 ==> normalized(Some(timeout)) == Some(timeout),
        nanos(timeout) == 0 ==> normalized(Some(timeout)) is None,
        normalized(None) is None,
        normalized(normalized(Some(timeout))) == normalized(Some(timeout)),
{
}

} // verus!
