//! Wall-clock time, as milliseconds since the Unix epoch.
use vstd::prelude::*;

verus! {

/// Relies on `chrono::Utc::now` and `DateTime::timestamp_millis`: the current
/// UTC time in milliseconds since the Unix epoch. `Utc::now` refuses (panics
/// on) a system clock set before the epoch, so every value that comes back is
/// at least zero. Nothing else is known of it: two calls may return any pair
/// of values, in either order.
#[verifier::external_body]
pub fn current_timestamp() -> (r: i64)
    ensures
        r >= 0,
{
    chrono::Utc::now().timestamp_millis()
}

/// The instant that an RFC 3339 date-time stands for, in milliseconds since
/// the Unix epoch, or `None` when the text is not such a date-time.
pub uninterp spec fn rfc3339_millis(s: Seq<char>) -> Option<i64>;

/// Relies on `chrono::DateTime::parse_from_rfc3339` and
/// `DateTime::timestamp_millis`: the parse depends on the text alone.
#[verifier::external_body]
pub fn parse_rfc3339_millis(s: &str) -> (r: Option<i64>)
    ensures
        r == rfc3339_millis(s@),
{
    match chrono::DateTime::parse_from_rfc3339(s) {
        Ok(t) => Some(t.timestamp_millis()),
        Err(_) => None,
    }
}

/// The audit time after a change made at `now` to a record last changed at
/// `last`: the clock's reading, unless the clock has gone back, in which case
/// the time stays where it was.
pub open spec fn later(last: i64, now: i64) -> i64 {
    if now > last {
        now
    } else {
        last
    }
}

/// `at` is the audit time of a change recorded at some reading `now` of the
/// clock after a last change at `last`: `later(last, now)`. It rises strictly
/// when the reading is later than `last`.
pub open spec fn stamped_after(last: i64, at: i64) -> bool {
    exists|now: i64| now >= 0 && at == #[trigger] later(last, now) && (now > last ==> at > last)
}

/// A recorded change never moves the audit time back, and moves it forward
/// whenever the clock reads later than the last change.
pub proof fn lemma_audit_time_advances(last: i64, now: i64)
    ensures
        later(last, now) >= last,
        now > last ==> later(last, now) > last && later(last, now) == now,
{
}

/// Computes `later(last, now)`.
pub fn advance(last: i64, now: i64) -> (r: i64)
    ensures
        r == later(last, now),
        r >= last,
        r >= now,
{
    if now > last {
        now
    } else {
        last
    }
}

} // verus!
