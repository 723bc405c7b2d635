//! Conversions between epoch milliseconds and UTC instants, and the RFC3339
//! renderings of those instants.

use crate::chrono_api::{
    fmt_rfc3339_millis, now_utc, rfc3339_millis_body, utc_dt_nanos, utc_from_secs_nsecs,
    utc_is_leap, utc_timestamp_nanos, UtcInstant, UTC_SECS_MAX, UTC_SECS_MIN,
};
use crate::split::{nanos_to_time_ms, rounded_millis, time_ms_to_secs_nsecs};
use vstd::arithmetic::div_mod::{lemma_fundamental_div_mod, lemma_mod_bound};
use vstd::pervasive::unreached;
use vstd::prelude::*;

verus! {

/// Millisecond counts whose date the underlying calendar library can
/// represent, so that `time_ms_to_utc` is defined on them.
pub open spec fn utc_buildable_ms(time_ms: int) -> bool {
    UTC_SECS_MIN * 1000 <= time_ms <= UTC_SECS_MAX * 1000 + 999
}

/// Builds the UTC instant that is exactly `time_ms` milliseconds after the
/// epoch.
pub fn time_ms_to_utc(time_ms: i64) -> (r: UtcInstant)
    requires
        utc_buildable_ms(time_ms as int),
    ensures
        utc_dt_nanos(r) == time_ms * 1_000_000,
        !utc_is_leap(r),
{
    let (secs, nsecs) = time_ms_to_secs_nsecs(time_ms);
    match utc_from_secs_nsecs(secs, nsecs) {
        Some(dt) => dt,
        None => unreached(),
    }
}

/// Reads a UTC instant back as epoch milliseconds, rounding its nanosecond
/// count half-up; exact on every instant `time_ms_to_utc` produces, all of
/// which satisfy the non-leap requirement.
pub fn utc_to_time_ms(date_time: &UtcInstant) -> (r: i64)
    requires
        !utc_is_leap(*date_time),
        i64::MIN <= utc_dt_nanos(*date_time) <= i64::MAX - 500_000,
    ensures
        r == rounded_millis(utc_dt_nanos(*date_time)),
{
    match utc_timestamp_nanos(date_time) {
        Some(nanos) => nanos_to_time_ms(nanos),
        None => unreached(),
    }
}

impl UtcInstant {
    /// Renders this instant as RFC3339 with exactly three fractional digits,
    /// with a literal `Z` suffix when `use_z` is set and `+00:00` otherwise.
    /// Defined away from leap-second instants, which this library never
    /// builds: every instant `time_ms_to_utc` returns qualifies.
    pub fn to_rfc3339_millis(&self, use_z: bool) -> (r: String)
        requires
            !utc_is_leap(*self),
        ensures
            use_z ==> r@ == rfc3339_millis_body(utc_dt_nanos(*self)) + "Z"@,
            !use_z ==> r@ == rfc3339_millis_body(utc_dt_nanos(*self)) + "+00:00"@,
    {
        fmt_rfc3339_millis(self, use_z)
    }
}

/// `time_ms` rendered as an RFC3339 string with millisecond precision and a
/// numeric `+00:00` suffix.
pub fn time_ms_to_utc_string(time_ms: i64) -> (r: String)
    requires
        utc_buildable_ms(time_ms as int),
    ensures
        r@ == rfc3339_millis_body(time_ms * 1_000_000) + "+00:00"@,
{
    let dt = time_ms_to_utc(time_ms);
    fmt_rfc3339_millis(&dt, false)
}

/// `time_ms` rendered as an RFC3339 string with millisecond precision and a
/// literal `Z` suffix.
pub fn time_ms_to_utc_z_string(time_ms: i64) -> (r: String)
    requires
        utc_buildable_ms(time_ms as int),
    ensures
        r@ == rfc3339_millis_body(time_ms * 1_000_000) + "Z"@,
{
    let dt = time_ms_to_utc(time_ms);
    fmt_rfc3339_millis(&dt, true)
}

/// Round-trip law: for any instant `time_ms_to_utc` can build whose
/// nanosecond count a machine word carries, `utc_to_time_ms` reads back
/// exactly the millisecond count it was built from.
pub proof fn lemma_utc_round_trip(time_ms: i64, dt: UtcInstant)
    requires
        utc_dt_nanos(dt) == time_ms * 1_000_000,
        -9_223_372_036_854 <= time_ms <= 9_223_372_036_854,
    ensures
        i64::MIN <= utc_dt_nanos(dt) <= i64::MAX - 500_000,
        rounded_millis(utc_dt_nanos(dt)) == time_ms,
{
    crate::split::lemma_round_trip(time_ms as int);
}

/// The system clock now, as epoch milliseconds rounded half-up from the
/// clock's nanosecond reading.  The clock decides the value, so only what
/// holds of every outcome is promised: the result is the half-up rounding
/// of some `i64` nanosecond reading, hence within the bounds below; a
/// reading outside the range an `i64` nanosecond count can carry (about 292
/// years either side of the epoch) saturates to the largest millisecond
/// count that range holds.
pub fn utc_now_to_time_ms() -> (r: i64)
    ensures
        -9_223_372_036_855 <= r <= 9_223_372_036_854,
{
    let dt = now_utc();
    match utc_timestamp_nanos(&dt) {
        Some(nanos) => {
            if nanos <= i64::MAX - 500_000 {
                let ms = nanos_to_time_ms(nanos);
                proof {
                    lemma_fundamental_div_mod(nanos as int + 500_000, 1_000_000);
                    lemma_mod_bound(nanos as int + 500_000, 1_000_000);
                }
                ms
            } else {
                9_223_372_036_854
            }
        },
        None => 9_223_372_036_854,
    }
}

} // verus!
