use vstd::prelude::*;

verus! {

/// Seconds in a day.
pub const SECONDS_PER_DAY: i64 = 86400;

/// The day number, counted from the Common Era, of January 1, 1970.
pub const UNIX_EPOCH_DAY: i64 = 719163;

/// Timestamps this far from the epoch, in either direction, fall well inside
/// the range of dates that can be represented.
pub const SAFE_RANGE: i64 = 1099511627776;

/// The day number, counted from the Common Era, of the UTC day holding a
/// timestamp, or `None` where the date cannot be represented.
pub uninterp spec fn day_of_timestamp(ts: i64) -> Option<i32>;

/// The calendar day a timestamp's day number says it falls on.
pub open spec fn epoch_day(ts: int) -> int {
    ts / (SECONDS_PER_DAY as int) + UNIX_EPOCH_DAY as int
}

/// Relies on `chrono::DateTime::<Utc>::from_timestamp` and
/// `Datelike::num_days_from_ce`: a UTC date from a timestamp, `None` where it is
/// out of range, and its day number counted from the Common Era, with
/// January 1, 1970 as day 719163.
#[verifier::external_body]
pub(crate) fn day_number(ts: i64) -> (r: Option<i32>)
    ensures
        r == day_of_timestamp(ts),
        r matches Some(d) ==> d as int == epoch_day(ts as int),
        -SAFE_RANGE <= ts <= SAFE_RANGE ==> r is Some,
{
    chrono::DateTime::from_timestamp(ts, 0).map(|d| chrono::Datelike::num_days_from_ce(&d))
}

/// Relies on `chrono::Utc::now` and `DateTime::timestamp`: the current time,
/// in whole seconds since the Unix epoch. Nothing is known of its value.
#[verifier::external_body]
pub(crate) fn current_timestamp() -> (r: i64) {
    chrono::Utc::now().timestamp()
}

/// The start of the UTC day holding `now`, as a timestamp, or `None` where the
/// date cannot be represented.
pub fn get_today(now: i64) -> (r: Option<i64>)
    ensures
        r == (match day_of_timestamp(now) {
            Some(d) => Some(((d - UNIX_EPOCH_DAY) * SECONDS_PER_DAY) as i64),
            None => None::<i64>,
        }),
        r matches Some(t) ==> t == (now as int / SECONDS_PER_DAY as int) * SECONDS_PER_DAY,
        -SAFE_RANGE <= now <= SAFE_RANGE ==> r is Some,
{
    match day_number(now) {
        Some(d) => {
            proof {
                assert((now as int / 86400) * 86400 <= now as int) by (nonlinear_arith);
                assert((now as int / 86400) * 86400 > now as int - 86400) by (nonlinear_arith);
            }
            Some((d as i64 - UNIX_EPOCH_DAY) * SECONDS_PER_DAY)
        },
        None => None,
    }
}

/// The start of the UTC day after the one holding `now`, or `None` where the
/// date cannot be represented.
pub fn get_tomorrow(now: i64) -> (r: Option<i64>)
    ensures
        r == (match day_of_timestamp(now) {
            Some(d) => Some(((d - UNIX_EPOCH_DAY + 1) * SECONDS_PER_DAY) as i64),
            None => None::<i64>,
        }),
        r matches Some(t) ==> t == (now as int / SECONDS_PER_DAY as int + 1) * SECONDS_PER_DAY,
        -SAFE_RANGE <= now <= SAFE_RANGE ==> r is Some,
{
    match get_today(now) {
        Some(t) => Some(t + SECONDS_PER_DAY),
        None => None,
    }
}

/// Seconds left until the next UTC midnight, counted from `now`.
pub fn seconds_until_refresh(now: i64) -> (r: Option<i64>)
    ensures
        r matches Some(s) ==> 0 < s <= SECONDS_PER_DAY && s == SECONDS_PER_DAY - now as int
            % SECONDS_PER_DAY as int,
        -SAFE_RANGE <= now <= SAFE_RANGE ==> r is Some,
{
    match get_tomorrow(now) {
        Some(t) => {
            proof {
                let n = now as int;
                assert(n == (n / 86400) * 86400 + n % 86400) by (nonlinear_arith);
                assert((n / 86400 + 1) * 86400 == (n / 86400) * 86400 + 86400) by (nonlinear_arith);
            }
            Some(t - now)
        },
        None => None,
    }
}

} // verus!
