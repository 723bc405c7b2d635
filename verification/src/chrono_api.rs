//! Trusted declarations for the chrono calls this library makes.
//!
//! Every item here is believed, not verified: each wrapper's contract states
//! only what chrono's source and documentation show of the one call its body
//! makes.  `chrono::DateTime<Tz>` itself cannot be declared to the verifier
//! (its `TimeZone` bound is outside the verified world), so each
//! instantiation the library uses is held in an opaque holder struct; the
//! uninterpreted functions below name the one thing the library reads of
//! such a value, the nanosecond count of the instant it denotes.

use chrono::TimeZone;
use vstd::prelude::*;

verus! {

#[verifier::external_type_specification]
#[verifier::external_body]
pub struct ExNaiveDateTime(chrono::NaiveDateTime);

#[verifier::external_type_specification]
#[verifier::external_body]
pub struct ExParseError(chrono::format::ParseError);

/// An instant anchored to UTC: a `chrono::DateTime<chrono::Utc>`, opaque to
/// the verifier.
#[verifier::external_body]
pub struct UtcInstant {
    dt: chrono::DateTime<chrono::Utc>,
}

/// An instant carrying the fixed numeric offset it was parsed with: a
/// `chrono::DateTime<chrono::FixedOffset>`, opaque to the verifier.
#[verifier::external_body]
pub struct FixedInstant {
    dt: chrono::DateTime<chrono::FixedOffset>,
}

/// An instant expressed in the process's local timezone: a
/// `chrono::DateTime<chrono::Local>`, opaque to the verifier.
#[verifier::external_body]
pub struct LocalInstant {
    dt: chrono::DateTime<chrono::Local>,
}

/// The number of non-leap nanoseconds between the epoch and the instant a
/// `UtcInstant` denotes, as an unbounded integer.
pub uninterp spec fn utc_dt_nanos(dt: UtcInstant) -> int;

/// The number of non-leap nanoseconds between the epoch and the instant a
/// `FixedInstant` denotes (the offset already applied).
pub uninterp spec fn fixed_dt_nanos(dt: FixedInstant) -> int;

/// The number of non-leap nanoseconds between the epoch and the instant a
/// `LocalInstant` denotes (the local offset already applied).
pub uninterp spec fn local_dt_nanos(dt: LocalInstant) -> int;

/// The number of non-leap nanoseconds between the epoch and a timezone-naive
/// date-time, read as if its wall clock were UTC.
pub uninterp spec fn naive_dt_nanos(dt: chrono::NaiveDateTime) -> int;

/// What `chrono::DateTime::parse_from_str(s, fmt)` gives: the nanosecond
/// count of the parsed offset-aware instant, or `None` where parsing fails.
pub uninterp spec fn chrono_parse_fixed(s: Seq<char>, fmt: Seq<char>) -> Option<int>;

/// What `chrono::NaiveDateTime::parse_from_str(s, fmt)` gives: the
/// nanosecond count of the parsed naive date-time read as UTC, or `None`
/// where parsing fails.
pub uninterp spec fn chrono_parse_naive(s: Seq<char>, fmt: Seq<char>) -> Option<int>;

/// Whether a `UtcInstant` lies inside an inserted leap second: chrono
/// represents such an instant with a nanosecond field of one to two
/// billion, and it then shares its nanosecond count with an instant of the
/// following minute while rendering differently.
pub uninterp spec fn utc_is_leap(dt: UtcInstant) -> bool;

/// What `chrono::DateTime::<Utc>::to_rfc3339_opts(SecondsFormat::Millis, _)`
/// renders before the offset suffix, for a non-leap instant with the given
/// nanosecond count: `YYYY-MM-DDTHH:MM:SS.fff`.
pub uninterp spec fn rfc3339_millis_body(nanos: int) -> Seq<char>;

/// Seconds comfortably inside chrono's representable date range (about
/// 253,000 years either side of the epoch; chrono reaches about 262,000).
pub const UTC_SECS_MIN: i64 = -8_000_000_000_000;

/// See `UTC_SECS_MIN`.
pub const UTC_SECS_MAX: i64 = 8_000_000_000_000;

/// Relies on `chrono::DateTime::<Utc>::from_timestamp`: it returns `Some`
/// for any second count whose date chrono can represent together with a
/// nanosecond offset under one second, and the result round-trips to exactly
/// `secs` seconds plus `nsecs` nanoseconds since the epoch.
#[verifier::external_body]
pub(crate) fn utc_from_secs_nsecs(secs: i64, nsecs: u32) -> (r: Option<UtcInstant>)
    ensures
        UTC_SECS_MIN <= secs <= UTC_SECS_MAX && nsecs < 1_000_000_000 ==> r is Some,
        r is Some ==> utc_dt_nanos(r->0) == secs * 1_000_000_000 + nsecs,
        r is Some && nsecs < 1_000_000_000 ==> !utc_is_leap(r->0),
{
    match chrono::DateTime::<chrono::Utc>::from_timestamp(secs, nsecs) {
        Some(dt) => Some(UtcInstant { dt }),
        None => None,
    }
}

/// Relies on `chrono::DateTime::<Utc>::timestamp_nanos_opt`: for a
/// non-leap instant it returns the nanosecond count exactly when that count
/// fits in an `i64`.  For a leap-second instant chrono's sign workaround
/// multiplies the whole-second part first and can overflow within the
/// bottom second of the representable range, returning `None` for a count
/// that would fit; so the if-and-only-if is stated for non-leap instants
/// only, and of `None` only that the count lies within one second of the
/// bottom of the range, or above it.
#[verifier::external_body]
pub(crate) fn utc_timestamp_nanos(dt: &UtcInstant) -> (r: Option<i64>)
    ensures
        !utc_is_leap(*dt) ==> (r is Some <==> i64::MIN <= utc_dt_nanos(*dt) <= i64::MAX),
        r is Some ==> r->0 == utc_dt_nanos(*dt),
        r is None ==> utc_dt_nanos(*dt) < i64::MIN + 1_000_000_000 || utc_dt_nanos(*dt)
            > i64::MAX,
{
    dt.dt.timestamp_nanos_opt()
}

/// Relies on `chrono::DateTime::<FixedOffset>::timestamp_nanos_opt`.  The
/// leap-second caveat of `utc_timestamp_nanos` cannot arise here: every
/// `FixedInstant` comes from `parse_fixed`, whose numeric offsets are whole
/// minutes, so a leap instant's timestamp is 59 modulo 60 while the one
/// timestamp whose whole-second part overflows first is 42 modulo 60; for
/// all reachable values the if-and-only-if is exact.
#[verifier::external_body]
pub(crate) fn fixed_timestamp_nanos(dt: &FixedInstant) -> (r: Option<i64>)
    ensures
        r is Some <==> i64::MIN <= fixed_dt_nanos(*dt) <= i64::MAX,
        r is Some ==> r->0 == fixed_dt_nanos(*dt),
{
    dt.dt.timestamp_nanos_opt()
}

/// Relies on `chrono::DateTime::with_timezone`: it changes only the timezone
/// a date-time is displayed in, never the instant it denotes.
#[verifier::external_body]
pub(crate) fn local_to_utc(dt: &LocalInstant) -> (r: UtcInstant)
    ensures
        utc_dt_nanos(r) == local_dt_nanos(*dt),
{
    UtcInstant { dt: dt.dt.with_timezone(&chrono::Utc) }
}

/// Relies on `chrono::DateTime::parse_from_str`: a pure function of the two
/// strings, succeeding exactly where the named parse does.
#[verifier::external_body]
pub(crate) fn parse_fixed(s: &str, fmt: &str) -> (r: Result<
    FixedInstant,
    chrono::format::ParseError,
>)
    ensures
        r is Ok <==> chrono_parse_fixed(s@, fmt@) is Some,
        r is Ok ==> fixed_dt_nanos(r->Ok_0) == chrono_parse_fixed(s@, fmt@)->0,
{
    match chrono::DateTime::parse_from_str(s, fmt) {
        Ok(dt) => Ok(FixedInstant { dt }),
        Err(e) => Err(e),
    }
}

/// Relies on `chrono::NaiveDateTime::parse_from_str`: a pure function of the
/// two strings, succeeding exactly where the named parse does.
#[verifier::external_body]
pub(crate) fn parse_naive(s: &str, fmt: &str) -> (r: Result<
    chrono::NaiveDateTime,
    chrono::format::ParseError,
>)
    ensures
        r is Ok <==> chrono_parse_naive(s@, fmt@) is Some,
        r is Ok ==> naive_dt_nanos(r->Ok_0) == chrono_parse_naive(s@, fmt@)->0,
{
    chrono::NaiveDateTime::parse_from_str(s, fmt)
}

/// How the process's local timezone reads one timezone-naive wall-clock
/// time: as no instant, exactly one, or two (around a daylight-saving jump).
pub enum LocalLookup {
    Missing,
    Unique(LocalInstant),
    Ambiguous,
}

/// Relies on `chrono::TimeZone::from_local_datetime` for `Local`: a unique
/// answer denotes the naive wall-clock time minus the local offset, and a
/// `chrono::FixedOffset` is strictly less than one day in either direction.
/// Which of the three shapes comes back depends on the process environment,
/// so nothing more is promised.  chrono itself panics here should the
/// timezone lookup fail outright — an environment fault, not an input, so
/// no `requires` can exclude it.
#[verifier::external_body]
pub(crate) fn resolve_local(ndt: &chrono::NaiveDateTime) -> (r: LocalLookup)
    ensures
        r is Unique ==> local_dt_nanos(r->Unique_0) - naive_dt_nanos(*ndt) < 86_400_000_000_000,
        r is Unique ==> naive_dt_nanos(*ndt) - local_dt_nanos(r->Unique_0) < 86_400_000_000_000,
{
    match chrono::Local.from_local_datetime(ndt) {
        chrono::LocalResult::None => LocalLookup::Missing,
        chrono::LocalResult::Single(dt) => LocalLookup::Unique(LocalInstant { dt }),
        chrono::LocalResult::Ambiguous(_, _) => LocalLookup::Ambiguous,
    }
}

/// Relies on `chrono::DateTime::<Utc>::to_rfc3339_opts` with
/// `SecondsFormat::Millis`: for a non-leap instant the date-time body is a
/// pure function of the nanosecond count, and the offset of UTC renders as
/// a literal `Z` when `use_z` is set and as `+00:00` otherwise.  Inside a
/// leap second two instants share one count but render differently, so a
/// leap instant is excluded here.
#[verifier::external_body]
pub(crate) fn fmt_rfc3339_millis(dt: &UtcInstant, use_z: bool) -> (r: String)
    requires
        !utc_is_leap(*dt),
    ensures
        use_z ==> r@ == rfc3339_millis_body(utc_dt_nanos(*dt)) + "Z"@,
        !use_z ==> r@ == rfc3339_millis_body(utc_dt_nanos(*dt)) + "+00:00"@,
{
    dt.dt.to_rfc3339_opts(chrono::SecondsFormat::Millis, use_z)
}

/// Relies on `chrono::Utc::now`: it reads the system clock, of which nothing
/// can be promised.  chrono itself panics here should the system clock read
/// before 1970 — an environment fault, not an input, so no `requires` can
/// exclude it.
#[verifier::external_body]
pub(crate) fn now_utc() -> UtcInstant {
    UtcInstant { dt: chrono::Utc::now() }
}

} // verus!
