//! The timezone-massaging parser: a date-time string to epoch milliseconds
//! under one of three timezone-interpretation policies.

use crate::chrono_api::{
    chrono_parse_fixed, chrono_parse_naive, fixed_dt_nanos, fixed_timestamp_nanos, local_dt_nanos,
    local_to_utc, parse_fixed, parse_naive, resolve_local, utc_timestamp_nanos, FixedInstant,
    LocalLookup,
};
use crate::split::{nanos_to_time_ms, rounded_millis};
use crate::text::{
    assumes_offset, count_char, count_char_str, is_ws, lemma_count_char_all_ws,
    lemma_count_char_concat, lemma_count_char_trim, lemma_trim_ws_idempotent,
    lemma_trim_ws_padding, scan_assumes_offset, trim_str, trim_ws,
};
use vstd::arithmetic::div_mod::{lemma_fundamental_div_mod, lemma_mod_bound};
use vstd::prelude::*;
use vstd::string::StringExecFns;

verus! {

/// How a parsed date-time string's timezone ambiguity is resolved.
pub enum TzMassaging {
    /// Assume UTC (append `+0000`) where the string carries no explicit
    /// numeric offset; otherwise honour the offset it carries.
    CondAddTzUtc,
    /// The string must carry an explicit numeric offset; parsing fails
    /// where it does not.
    HasTz,
    /// The string carries no offset and is read as wall-clock time in the
    /// process's local timezone.
    LocalTz,
}

/// Why a date-time string did not convert to epoch milliseconds.
#[derive(Debug, Clone, Copy, PartialEq, Eq, Structural)]
pub enum TimeError {
    /// The string does not match the expected layout, lacks a required
    /// offset, or denotes an instant out of the representable range.
    Malformed,
    /// The local timezone skips this wall-clock time (a spring-forward gap).
    NoResult,
    /// The local timezone repeats this wall-clock time (a fall-back fold).
    AmbiguousResult,
}

/// Whether `s` holds exactly one `'T'`, which selects the layout with a
/// literal `T` separator over the one with a space.
pub open spec fn has_single_t(s: Seq<char>) -> bool {
    count_char(s, 'T') == 1
}

/// The offset-bearing layout chosen for input `s`.
pub open spec fn layout_fixed(s: Seq<char>) -> Seq<char> {
    if has_single_t(s) {
        "%Y-%m-%dT%H:%M:%S%.f%#z"@
    } else {
        "%Y-%m-%d %H:%M:%S%.f%#z"@
    }
}

/// The offset-free layout chosen for input `s`.
pub open spec fn layout_naive(s: Seq<char>) -> Seq<char> {
    if has_single_t(s) {
        "%Y-%m-%dT%H:%M:%S%.f"@
    } else {
        "%Y-%m-%d %H:%M:%S%.f"@
    }
}

/// A trimmed input with UTC made explicit where no offset mark was found.
pub open spec fn massaged(t: Seq<char>) -> Seq<char> {
    if assumes_offset(t) {
        t
    } else {
        t + "+0000"@
    }
}

/// The nanosecond count the offset-aware parse gives for `s` under a
/// policy, `None` where it fails (`LocalTz` parses offset-free instead).
pub open spec fn fixed_parse_nanos(s: Seq<char>, tz: TzMassaging) -> Option<int> {
    match tz {
        TzMassaging::HasTz => chrono_parse_fixed(trim_ws(s), layout_fixed(s)),
        TzMassaging::CondAddTzUtc => chrono_parse_fixed(massaged(trim_ws(s)), layout_fixed(s)),
        TzMassaging::LocalTz => Option::None,
    }
}

/// Nanosecond counts whose half-up rounding stays inside machine range.
pub open spec fn roundable(nanos: int) -> bool {
    i64::MIN <= nanos <= i64::MAX - 500_000
}

/// Epoch milliseconds of an offset-aware instant, rounded half-up; an
/// instant outside the nanosecond-representable range is malformed input.
fn fo_to_time_ms(date_time: &FixedInstant) -> (r: Result<i64, TimeError>)
    ensures
        roundable(fixed_dt_nanos(*date_time)) ==> r is Ok && r->Ok_0 == rounded_millis(
            fixed_dt_nanos(*date_time),
        ),
        !roundable(fixed_dt_nanos(*date_time)) ==> r is Err && r->Err_0 == TimeError::Malformed,
{
    match fixed_timestamp_nanos(date_time) {
        Some(nanos) => {
            if nanos <= i64::MAX - 500_000 {
                Ok(nanos_to_time_ms(nanos))
            } else {
                Err(TimeError::Malformed)
            }
        },
        None => Err(TimeError::Malformed),
    }
}

/// Epoch milliseconds of what the local timezone made of a wall-clock
/// time, with each shape of the lookup mapped to its own error: a gap in
/// local time reports `NoResult`, a repeated local time reports
/// `AmbiguousResult`, and a unique reading rounds half-up to milliseconds
/// (or is malformed input where it leaves the representable range).
/// Success is owed wherever the reading is clear of both ends of the
/// range: within the bottom second chrono may decline a leap-second count
/// that would fit, and either answer is then reported as malformed.
fn local_lookup_to_time_ms(lookup: LocalLookup) -> (r: Result<i64, TimeError>)
    ensures
        lookup is Missing ==> r is Err && r->Err_0 == TimeError::NoResult,
        lookup is Ambiguous ==> r is Err && r->Err_0 == TimeError::AmbiguousResult,
        lookup is Unique && i64::MIN + 1_000_000_000 <= local_dt_nanos(lookup->Unique_0)
            <= i64::MAX - 500_000 ==> r is Ok,
        r is Ok ==> lookup is Unique && r->Ok_0 == rounded_millis(
            local_dt_nanos(lookup->Unique_0),
        ),
        lookup is Unique && !roundable(local_dt_nanos(lookup->Unique_0)) ==> r is Err && r->Err_0
            == TimeError::Malformed,
        lookup is Unique && r is Err ==> r->Err_0 == TimeError::Malformed,
        r is Ok ==> r->Ok_0 * 1_000_000 - local_dt_nanos(lookup->Unique_0) <= 500_000,
        r is Ok ==> local_dt_nanos(lookup->Unique_0) - r->Ok_0 * 1_000_000 < 500_000,
{
    match lookup {
        LocalLookup::Unique(ldt) => {
            let utc = local_to_utc(&ldt);
            match utc_timestamp_nanos(&utc) {
                Some(nanos) => {
                    if nanos <= i64::MAX - 500_000 {
                        let ms = nanos_to_time_ms(nanos);
                        proof {
                            lemma_fundamental_div_mod(nanos as int + 500_000, 1_000_000);
                            lemma_mod_bound(nanos as int + 500_000, 1_000_000);
                        }
                        Ok(ms)
                    } else {
                        Err(TimeError::Malformed)
                    }
                },
                None => Err(TimeError::Malformed),
            }
        },
        LocalLookup::Missing => Err(TimeError::NoResult),
        LocalLookup::Ambiguous => Err(TimeError::AmbiguousResult),
    }
}

/// Parses a date-time string to epoch milliseconds under a timezone policy.
///
/// The layout is chosen by whether the raw string holds exactly one `'T'`;
/// the string is then trimmed.  Under `HasTz` and `CondAddTzUtc` the
/// contract pins the result to what the offset-aware parse of the massaged
/// string gives, rounded half-up to milliseconds.  Under `LocalTz` the
/// process's local timezone decides; what is promised of every outcome is
/// that failure to parse offset-free is reported as malformed, and that a
/// successful result differs from the naive wall-clock reading by less than
/// a day (the largest fixed offset), up to rounding.
pub fn dt_str_to_utc_time_ms(dt_str: &str, tz_massaging: TzMassaging) -> (r: Result<
    i64,
    TimeError,
>)
    ensures
        !(tz_massaging is LocalTz) && fixed_parse_nanos(dt_str@, tz_massaging) is None ==> r
            is Err && r->Err_0 == TimeError::Malformed,
        !(tz_massaging is LocalTz) && fixed_parse_nanos(dt_str@, tz_massaging) is Some
            && roundable(fixed_parse_nanos(dt_str@, tz_massaging)->0) ==> r is Ok && r->Ok_0
            == rounded_millis(fixed_parse_nanos(dt_str@, tz_massaging)->0),
        !(tz_massaging is LocalTz) && fixed_parse_nanos(dt_str@, tz_massaging) is Some
            && !roundable(fixed_parse_nanos(dt_str@, tz_massaging)->0) ==> r is Err && r->Err_0
            == TimeError::Malformed,
        tz_massaging is LocalTz && chrono_parse_naive(trim_ws(dt_str@), layout_naive(dt_str@))
            is None ==> r is Err && r->Err_0 == TimeError::Malformed,
        tz_massaging is LocalTz && r is Ok ==> chrono_parse_naive(
            trim_ws(dt_str@),
            layout_naive(dt_str@),
        ) is Some,
        tz_massaging is LocalTz && r is Ok ==> r->Ok_0 * 1_000_000 - chrono_parse_naive(
            trim_ws(dt_str@),
            layout_naive(dt_str@),
        )->0 < 86_400_000_500_000,
        tz_massaging is LocalTz && r is Ok ==> chrono_parse_naive(
            trim_ws(dt_str@),
            layout_naive(dt_str@),
        )->0 - r->Ok_0 * 1_000_000 < 86_400_000_500_000,
        r is Err && (r->Err_0 == TimeError::NoResult || r->Err_0 == TimeError::AmbiguousResult)
            ==> tz_massaging is LocalTz && chrono_parse_naive(
            trim_ws(dt_str@),
            layout_naive(dt_str@),
        ) is Some,
{
    let single_t = count_char_str(dt_str, 'T') == 1;
    let trimmed = trim_str(dt_str);
    match tz_massaging {
        TzMassaging::HasTz => {
            let fmt = if single_t {
                "%Y-%m-%dT%H:%M:%S%.f%#z"
            } else {
                "%Y-%m-%d %H:%M:%S%.f%#z"
            };
            match parse_fixed(trimmed, fmt) {
                Ok(dtfo) => fo_to_time_ms(&dtfo),
                Err(_) => Err(TimeError::Malformed),
            }
        },
        TzMassaging::CondAddTzUtc => {
            let fmt = if single_t {
                "%Y-%m-%dT%H:%M:%S%.f%#z"
            } else {
                "%Y-%m-%d %H:%M:%S%.f%#z"
            };
            if scan_assumes_offset(trimmed) {
                match parse_fixed(trimmed, fmt) {
                    Ok(dtfo) => fo_to_time_ms(&dtfo),
                    Err(_) => Err(TimeError::Malformed),
                }
            } else {
                let mut owned = trimmed.to_owned();
                owned.append("+0000");
                match parse_fixed(owned.as_str(), fmt) {
                    Ok(dtfo) => fo_to_time_ms(&dtfo),
                    Err(_) => Err(TimeError::Malformed),
                }
            }
        },
        TzMassaging::LocalTz => {
            let fmt = if single_t {
                "%Y-%m-%dT%H:%M:%S%.f"
            } else {
                "%Y-%m-%d %H:%M:%S%.f"
            };
            match parse_naive(trimmed, fmt) {
                Ok(ndt) => {
                    let lookup = resolve_local(&ndt);
                    local_lookup_to_time_ms(lookup)
                },
                Err(_) => Err(TimeError::Malformed),
            }
        },
    }
}

/// Leading or trailing whitespace never changes the parsed result: an
/// input padded with whitespace at either end is trimmed to the same text,
/// selects the same layout, and so has exactly the outcome of the unpadded
/// input, under every policy.
pub proof fn lemma_whitespace_padding_irrelevant(
    p: Seq<char>,
    s: Seq<char>,
    q: Seq<char>,
    tz: TzMassaging,
)
    requires
        forall|k: int| 0 <= k < p.len() ==> is_ws(p[k]),
        forall|k: int| 0 <= k < q.len() ==> is_ws(q[k]),
    ensures
        fixed_parse_nanos(p + s + q, tz) == fixed_parse_nanos(s, tz),
        chrono_parse_naive(trim_ws(p + s + q), layout_naive(p + s + q)) == chrono_parse_naive(
            trim_ws(s),
            layout_naive(s),
        ),
{
    lemma_trim_ws_padding(p, s, q);
    assert(!is_ws('T'));
    assert(p + s + q =~= p + (s + q));
    lemma_count_char_concat(p, s + q, 'T');
    lemma_count_char_concat(s, q, 'T');
    lemma_count_char_all_ws(p, 'T');
    lemma_count_char_all_ws(q, 'T');
}

/// Whitespace at the ends of the input never changes what is parsed: every
/// policy sees the same trimmed text, the same chosen layout, and so the
/// same outcome, whether or not the input was trimmed beforehand.
pub proof fn lemma_trim_insensitive(s: Seq<char>, tz: TzMassaging)
    ensures
        fixed_parse_nanos(s, tz) == fixed_parse_nanos(trim_ws(s), tz),
        chrono_parse_naive(trim_ws(s), layout_naive(s)) == chrono_parse_naive(
            trim_ws(trim_ws(s)),
            layout_naive(trim_ws(s)),
        ),
{
    lemma_trim_ws_idempotent(s);
    assert(!is_ws('T'));
    lemma_count_char_trim(s, 'T');
}

} // verus!
