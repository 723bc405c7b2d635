//! Character-level text handling for the parser: whitespace trimming,
//! character counting, and the scan for an explicit numeric offset.

use vstd::prelude::*;

verus! {

/// The characters trimmed from the ends of an input: the Unicode
/// `White_Space` set, as Rust's `char::is_whitespace` has it.
pub open spec fn is_ws(c: char) -> bool {
    let u = c as u32;
    u == 0x09 || u == 0x0A || u == 0x0B || u == 0x0C || u == 0x0D || u == 0x20 || u == 0x85
        || u == 0xA0 || u == 0x1680 || (0x2000 <= u <= 0x200A) || u == 0x2028 || u == 0x2029
        || u == 0x202F || u == 0x205F || u == 0x3000
}

/// `s` with its leading whitespace removed.
pub open spec fn ltrim(s: Seq<char>) -> Seq<char>
    decreases s.len(),
{
    if s.len() > 0 && is_ws(s[0]) {
        ltrim(s.drop_first())
    } else {
        s
    }
}

/// `s` with its trailing whitespace removed.
pub open spec fn rtrim(s: Seq<char>) -> Seq<char>
    decreases s.len(),
{
    if s.len() > 0 && is_ws(s.last()) {
        rtrim(s.drop_last())
    } else {
        s
    }
}

/// `s` with whitespace removed from both ends.
pub open spec fn trim_ws(s: Seq<char>) -> Seq<char> {
    rtrim(ltrim(s))
}

/// How many times `c` occurs in `s`.
pub open spec fn count_char(s: Seq<char>, c: char) -> int
    decreases s.len(),
{
    if s.len() == 0 {
        0
    } else {
        (if s[0] == c {
            1int
        } else {
            0int
        }) + count_char(s.drop_first(), c)
    }
}

/// Whether `s` holds a character that marks an explicit numeric offset: a
/// `'+'` anywhere, or a `'-'` strictly after index 7 (a hyphen at or before
/// index 7 is a date separator of the `YYYY-MM-DD` prefix).
pub open spec fn assumes_offset(s: Seq<char>) -> bool {
    (exists|k: int| 0 <= k < s.len() && s[k] == '+') || (exists|k: int|
        7 < k < s.len() && s[k] == '-')
}

fn is_ws_char(c: char) -> (b: bool)
    ensures
        b == is_ws(c),
{
    let u = c as u32;
    u == 0x09 || u == 0x0A || u == 0x0B || u == 0x0C || u == 0x0D || u == 0x20 || u == 0x85
        || u == 0xA0 || u == 0x1680 || (0x2000 <= u && u <= 0x200A) || u == 0x2028 || u == 0x2029
        || u == 0x202F || u == 0x205F || u == 0x3000
}

proof fn lemma_ltrim_at(s: Seq<char>, i: int)
    requires
        0 <= i <= s.len(),
        forall|k: int| 0 <= k < i ==> is_ws(s[k]),
        i == s.len() || !is_ws(s[i]),
    ensures
        ltrim(s) == s.subrange(i, s.len() as int),
    decreases i,
{
    if i == 0 {
        assert(s.subrange(0, s.len() as int) =~= s);
    } else {
        let t = s.drop_first();
        assert(forall|k: int| 0 <= k < i - 1 ==> t[k] == s[k + 1] && is_ws(t[k]));
        lemma_ltrim_at(t, i - 1);
        assert(t.subrange(i - 1, t.len() as int) =~= s.subrange(i, s.len() as int));
    }
}

proof fn lemma_rtrim_at(s: Seq<char>, j: int)
    requires
        0 <= j <= s.len(),
        forall|k: int| j <= k < s.len() ==> is_ws(s[k]),
        j == 0 || !is_ws(s[j - 1]),
    ensures
        rtrim(s) == s.subrange(0, j),
    decreases s.len(),
{
    if j == s.len() {
        assert(s.subrange(0, j) =~= s);
    } else {
        assert(is_ws(s.last()));
        let t = s.drop_last();
        lemma_rtrim_at(t, j);
        assert(t.subrange(0, j) =~= s.subrange(0, j));
    }
}

/// Trims leading and trailing whitespace from `s`.
pub fn trim_str(s: &str) -> (r: &str)
    ensures
        r@ == trim_ws(s@),
{
    let n = s.unicode_len();
    let mut i: usize = 0;
    while i < n
        invariant_except_break
            0 <= i <= n,
        invariant
            n == s@.len(),
            forall|k: int| 0 <= k < i ==> is_ws(s@[k]),
        ensures
            0 <= i <= n,
            i == n || !is_ws(s@[i as int]),
        decreases n - i,
    {
        if is_ws_char(s.get_char(i)) {
            i += 1;
        } else {
            break ;
        }
    }
    let mut j: usize = n;
    while j > i
        invariant_except_break
            i <= j <= n,
        invariant
            n == s@.len(),
            forall|k: int| j <= k < n ==> is_ws(s@[k]),
        ensures
            i <= j <= n,
            j == i || !is_ws(s@[j - 1]),
        decreases j,
    {
        if is_ws_char(s.get_char(j - 1)) {
            j -= 1;
        } else {
            break ;
        }
    }
    proof {
        lemma_ltrim_at(s@, i as int);
        let t = s@.subrange(i as int, s@.len() as int);
        assert(forall|k: int|
            j - i <= k < t.len() ==> t[k] == s@[k + i] && is_ws(t[k]));
        lemma_rtrim_at(t, j - i);
        assert(t.subrange(0, j - i) =~= s@.subrange(i as int, j as int));
    }
    s.substring_char(i, j)
}

/// Counts how often `c` occurs in `s`.
pub fn count_char_str(s: &str, c: char) -> (r: usize)
    ensures
        r == count_char(s@, c),
{
    let n = s.unicode_len();
    let mut i: usize = 0;
    let mut cnt: usize = 0;
    proof {
        assert(s@.subrange(0, n as int) =~= s@);
    }
    while i < n
        invariant
            0 <= i <= n,
            n == s@.len(),
            cnt <= i,
            cnt + count_char(s@.subrange(i as int, n as int), c) == count_char(s@, c),
        decreases n - i,
    {
        let ch = s.get_char(i);
        proof {
            let t = s@.subrange(i as int, n as int);
            assert(t.drop_first() =~= s@.subrange(i as int + 1, n as int));
        }
        if ch == c {
            cnt += 1;
        }
        i += 1;
    }
    proof {
        assert(s@.subrange(n as int, n as int) =~= Seq::<char>::empty());
        assert(s@.subrange(0, n as int) =~= s@);
    }
    cnt
}

/// Scans `s` for the marks of an explicit numeric offset.
pub fn scan_assumes_offset(s: &str) -> (r: bool)
    ensures
        r == assumes_offset(s@),
{
    let n = s.unicode_len();
    let mut i: usize = 0;
    let mut found: bool = false;
    while i < n
        invariant
            0 <= i <= n,
            n == s@.len(),
            found == ((exists|k: int| 0 <= k < i && s@[k] == '+') || (exists|k: int|
                7 < k < i && s@[k] == '-')),
        decreases n - i,
    {
        let ch = s.get_char(i);
        if ch == '+' || (ch == '-' && i > 7) {
            found = true;
        }
        i += 1;
    }
    found
}

/// Whitespace at the ends never hides or adds an offset mark or a separator:
/// trimming is idempotent, and a character count for a non-whitespace
/// character is unchanged by trimming.
pub proof fn lemma_trim_ws_idempotent(s: Seq<char>)
    ensures
        trim_ws(trim_ws(s)) == trim_ws(s),
{
    let t = trim_ws(s);
    lemma_ltrim_props(s);
    lemma_rtrim_props(ltrim(s));
    if t.len() > 0 {
        assert(t[0] == ltrim(s)[0]);
        assert(!is_ws(t[0]));
        assert(ltrim(t) == t);
        assert(!is_ws(t.last()));
        assert(rtrim(t) == t);
    } else {
        assert(ltrim(t) == t);
        assert(rtrim(t) == t);
    }
}

proof fn lemma_ltrim_props(s: Seq<char>)
    ensures
        ltrim(s).len() > 0 ==> !is_ws(ltrim(s)[0]),
    decreases s.len(),
{
    if s.len() > 0 && is_ws(s[0]) {
        lemma_ltrim_props(s.drop_first());
    }
}

proof fn lemma_rtrim_props(s: Seq<char>)
    ensures
        rtrim(s).len() > 0 ==> !is_ws(rtrim(s).last()),
        rtrim(s).len() <= s.len(),
        rtrim(s) == s.subrange(0, rtrim(s).len() as int),
    decreases s.len(),
{
    if s.len() > 0 && is_ws(s.last()) {
        let t = s.drop_last();
        lemma_rtrim_props(t);
        assert(rtrim(s) == rtrim(t));
        assert(t.subrange(0, rtrim(t).len() as int) =~= s.subrange(0, rtrim(t).len() as int));
    } else {
        assert(s.subrange(0, s.len() as int) =~= s);
    }
}

proof fn lemma_ltrim_ws_prefix(p: Seq<char>, s: Seq<char>)
    requires
        forall|k: int| 0 <= k < p.len() ==> is_ws(p[k]),
    ensures
        ltrim(p + s) == ltrim(s),
    decreases p.len(),
{
    if p.len() == 0 {
        assert(p + s =~= s);
    } else {
        assert((p + s)[0] == p[0]);
        assert((p + s).drop_first() =~= p.drop_first() + s);
        lemma_ltrim_ws_prefix(p.drop_first(), s);
    }
}

proof fn lemma_rtrim_ws_suffix(s: Seq<char>, q: Seq<char>)
    requires
        forall|k: int| 0 <= k < q.len() ==> is_ws(q[k]),
    ensures
        rtrim(s + q) == rtrim(s),
    decreases q.len(),
{
    if q.len() == 0 {
        assert(s + q =~= s);
    } else {
        assert((s + q).last() == q.last());
        assert((s + q).drop_last() =~= s + q.drop_last());
        lemma_rtrim_ws_suffix(s, q.drop_last());
    }
}

proof fn lemma_ltrim_concat(s: Seq<char>, q: Seq<char>)
    ensures
        ltrim(s + q) == if ltrim(s).len() > 0 {
            ltrim(s) + q
        } else {
            ltrim(q)
        },
    decreases s.len(),
{
    if s.len() == 0 {
        assert(s + q =~= q);
    } else if is_ws(s[0]) {
        assert((s + q)[0] == s[0]);
        assert((s + q).drop_first() =~= s.drop_first() + q);
        lemma_ltrim_concat(s.drop_first(), q);
    } else {
        assert((s + q)[0] == s[0]);
    }
}

proof fn lemma_ltrim_all_ws(q: Seq<char>)
    requires
        forall|k: int| 0 <= k < q.len() ==> is_ws(q[k]),
    ensures
        ltrim(q) == Seq::<char>::empty(),
    decreases q.len(),
{
    if q.len() == 0 {
        assert(q =~= Seq::<char>::empty());
    } else {
        lemma_ltrim_all_ws(q.drop_first());
    }
}

/// Whitespace padded onto either end of a string trims away entirely.
pub proof fn lemma_trim_ws_padding(p: Seq<char>, s: Seq<char>, q: Seq<char>)
    requires
        forall|k: int| 0 <= k < p.len() ==> is_ws(p[k]),
        forall|k: int| 0 <= k < q.len() ==> is_ws(q[k]),
    ensures
        trim_ws(p + s + q) == trim_ws(s),
{
    assert(p + s + q =~= p + (s + q));
    lemma_ltrim_ws_prefix(p, s + q);
    lemma_ltrim_concat(s, q);
    if ltrim(s).len() > 0 {
        lemma_rtrim_ws_suffix(ltrim(s), q);
    } else {
        lemma_ltrim_all_ws(q);
        assert(ltrim(s) =~= Seq::<char>::empty());
    }
}

/// A character count distributes over concatenation.
pub proof fn lemma_count_char_concat(a: Seq<char>, b: Seq<char>, c: char)
    ensures
        count_char(a + b, c) == count_char(a, c) + count_char(b, c),
    decreases a.len(),
{
    if a.len() == 0 {
        assert(a + b =~= b);
    } else {
        assert((a + b)[0] == a[0]);
        assert((a + b).drop_first() =~= a.drop_first() + b);
        lemma_count_char_concat(a.drop_first(), b, c);
    }
}

/// An all-whitespace string holds no occurrence of a non-whitespace
/// character.
pub proof fn lemma_count_char_all_ws(q: Seq<char>, c: char)
    requires
        !is_ws(c),
        forall|k: int| 0 <= k < q.len() ==> is_ws(q[k]),
    ensures
        count_char(q, c) == 0,
    decreases q.len(),
{
    if q.len() > 0 {
        lemma_count_char_all_ws(q.drop_first(), c);
    }
}

proof fn lemma_count_char_drop_last(s: Seq<char>, c: char)
    requires
        s.len() > 0,
    ensures
        count_char(s, c) == count_char(s.drop_last(), c) + (if s.last() == c {
            1int
        } else {
            0int
        }),
    decreases s.len(),
{
    if s.len() == 1 {
        assert(s.drop_last() =~= Seq::<char>::empty());
        assert(s.drop_first() =~= Seq::<char>::empty());
    } else {
        let t = s.drop_first();
        lemma_count_char_drop_last(t, c);
        assert(t.drop_last() =~= s.drop_last().drop_first());
        assert(t.last() == s.last());
        assert(s.drop_last().len() > 0);
        assert(s.drop_last()[0] == s[0]);
    }
}

/// A non-whitespace character occurs in a trimmed string exactly as often as
/// in the string itself.
pub proof fn lemma_count_char_trim(s: Seq<char>, c: char)
    requires
        !is_ws(c),
    ensures
        count_char(trim_ws(s), c) == count_char(s, c),
{
    lemma_count_char_ltrim(s, c);
    lemma_count_char_rtrim(ltrim(s), c);
}

proof fn lemma_count_char_ltrim(s: Seq<char>, c: char)
    requires
        !is_ws(c),
    ensures
        count_char(ltrim(s), c) == count_char(s, c),
    decreases s.len(),
{
    if s.len() > 0 && is_ws(s[0]) {
        lemma_count_char_ltrim(s.drop_first(), c);
    }
}

proof fn lemma_count_char_rtrim(s: Seq<char>, c: char)
    requires
        !is_ws(c),
    ensures
        count_char(rtrim(s), c) == count_char(s, c),
    decreases s.len(),
{
    if s.len() > 0 && is_ws(s.last()) {
        lemma_count_char_drop_last(s, c);
        lemma_count_char_rtrim(s.drop_last(), c);
    }
}

} // verus!
