//! The millisecond / sub-second splitter and the nanosecond rounding rule.
//!
//! A signed epoch-millisecond count decomposes into a whole-second count
//! (rounding toward negative infinity) plus a non-negative sub-second offset,
//! so that an instant is always `seconds` whole seconds after the epoch plus
//! a forward-only nanosecond offset.  Rounding a nanosecond count back to
//! milliseconds adds half a millisecond and divides, again rounding toward
//! negative infinity, which makes the round trip exact on whole milliseconds.

use vstd::arithmetic::div_mod::{
    lemma_fundamental_div_mod, lemma_fundamental_div_mod_converse, lemma_mod_bound,
};
use vstd::prelude::*;

verus! {

/// The whole-second part of a millisecond count: the largest second count
/// not after the instant (floor division by 1000).
pub open spec fn split_secs(time_ms: int) -> int {
    time_ms / 1000
}

/// The sub-second part of a millisecond count, always in `[0, 999]`.
pub open spec fn split_millis(time_ms: int) -> int {
    time_ms % 1000
}

/// A nanosecond count rounded to milliseconds, round-half-up: add half a
/// millisecond, then divide by one million rounding toward negative infinity.
pub open spec fn rounded_millis(nanos: int) -> int {
    (nanos + 500_000) / 1_000_000
}

/// Splits `time_ms` into `(seconds, nanoseconds)` with the nanoseconds
/// non-negative, below one second, and a whole number of milliseconds.
///
/// Negative inputs decompose into a (possibly more negative) second count
/// plus a forward offset: `-1` ms is `-1` s plus `999_000_000` ns.
pub fn time_ms_to_secs_nsecs(time_ms: i64) -> (r: (i64, u32))
    ensures
        r.0 == split_secs(time_ms as int),
        r.1 == split_millis(time_ms as int) * 1_000_000,
        r.1 < 1_000_000_000,
        r.1 % 1_000_000 == 0,
        r.0 * 1_000_000_000 + r.1 == time_ms * 1_000_000,
{
    proof {
        lemma_fundamental_div_mod(time_ms as int, 1000);
        lemma_mod_bound(time_ms as int, 1000);
    }
    let secs: i64 = time_ms.checked_div_euclid(1000).unwrap();
    let millis: u32 = time_ms.checked_rem_euclid(1000).unwrap() as u32;
    let nsecs: u32 = millis * 1_000_000;
    (secs, nsecs)
}

/// Rounds a signed nanosecond count since the epoch to the nearest
/// millisecond, half a millisecond rounding up.
pub fn nanos_to_time_ms(nanos: i64) -> (r: i64)
    requires
        nanos <= i64::MAX - 500_000,
    ensures
        r == rounded_millis(nanos as int),
{
    proof {
        lemma_fundamental_div_mod(nanos as int + 500_000, 1_000_000);
        lemma_mod_bound(nanos as int + 500_000, 1_000_000);
    }
    (nanos + 500_000).checked_div_euclid(1_000_000).unwrap()
}

/// Round-trip law: a whole millisecond count expressed in nanoseconds and
/// rounded back to milliseconds is unchanged.
pub proof fn lemma_round_trip(time_ms: int)
    ensures
        rounded_millis(time_ms * 1_000_000) == time_ms,
{
    lemma_fundamental_div_mod_converse(
        time_ms * 1_000_000 + 500_000,
        1_000_000,
        time_ms,
        500_000,
    );
}

/// Round-trip law through the splitter: the `(seconds, nanoseconds)` pair of
/// a millisecond count denotes an instant whose nanosecond count rounds back
/// to exactly that millisecond count.
pub proof fn lemma_split_round_trip(time_ms: int)
    ensures
        rounded_millis(split_secs(time_ms) * 1_000_000_000 + split_millis(time_ms) * 1_000_000)
            == time_ms,
{
    lemma_fundamental_div_mod(time_ms, 1000);
    lemma_round_trip(time_ms);
}

} // verus!
