use vstd::prelude::*;

verus! {

/// A point in time, as milliseconds since the Unix epoch (UTC).
#[derive(Clone, Copy, Debug, PartialEq, Eq, Structural)]
pub struct Timestamp {
    pub millis: i64,
}

/// Relies on `SystemTime::now`, chrono's `From<SystemTime>` for
/// `DateTime<Utc>` and `DateTime::timestamp_millis`: the current time, also
/// when the clock reads before the epoch. Nothing is promised of its value.
#[verifier::external_body]
pub(crate) fn now() -> (r: Timestamp) {
    Timestamp {
        millis: chrono::DateTime::<chrono::Utc>::from(std::time::SystemTime::now()).timestamp_millis(),
    }
}

/// Whole milliseconds of a standard duration as chrono counts them, or
/// `None` for one beyond chrono's range.
pub uninterp spec fn millis_of(duration: std::time::Duration) -> Option<i64>;

/// Relies on chrono's `TimeDelta::from_std` and `TimeDelta::num_milliseconds`:
/// a standard duration that fits chrono's range becomes its whole number of
/// milliseconds, which is never negative; a longer one is refused.
#[verifier::external_body]
pub(crate) fn duration_millis(duration: std::time::Duration) -> (r: Option<i64>)
    ensures
        r == millis_of(duration),
        r matches Some(ms) ==> ms >= 0,
{
    chrono::Duration::from_std(duration).ok().map(|d| d.num_milliseconds())
}

} // verus!
