//! Reading numbers out of tool output: Unicode whitespace trimming,
//! whitespace-separated tokens, first occurrences of a marker and unsigned
//! decimal parsing with the rules of `str::parse::<u64>`.

use vstd::prelude::*;
use crate::text::{is_digit, digits_value, occurs_at};
use crate::a1::{lemma_digits_value_push, lemma_digits_value_prefix_mono};

verus! {

/// Characters with the Unicode `White_Space` property, as `char::is_whitespace`
/// tests them.
pub open spec fn is_ws(c: char) -> bool {
    c == ' ' || ('\t' <= c && c <= '\r') || c == '\u{85}' || c == '\u{a0}' || c == '\u{1680}'
        || ('\u{2000}' <= c && c <= '\u{200a}') || c == '\u{2028}' || c == '\u{2029}'
        || c == '\u{202f}' || c == '\u{205f}' || c == '\u{3000}'
}

/// `s` without its leading whitespace.
pub open spec fn trim_start(s: Seq<char>) -> Seq<char>
    decreases s.len(),
{
    if s.len() > 0 && is_ws(s[0]) {
        trim_start(s.drop_first())
    } else {
        s
    }
}

/// `s` without its trailing whitespace.
pub open spec fn trim_end(s: Seq<char>) -> Seq<char>
    decreases s.len(),
{
    if s.len() > 0 && is_ws(s.last()) {
        trim_end(s.drop_last())
    } else {
        s
    }
}

/// `s` without leading or trailing whitespace.
pub open spec fn trim(s: Seq<char>) -> Seq<char> {
    trim_end(trim_start(s))
}

/// What `str::parse::<u64>` gives: an optional `+`, then at least one ASCII
/// digit and nothing else, with a value that fits in 64 bits.
pub open spec fn spec_parse_u64(s: Seq<char>) -> Option<u64> {
    let d = unsigned_digits(s);
    if d.len() > 0 && all_digits(d) && digits_value(d) <= u64::MAX {
        Some(digits_value(d) as u64)
    } else {
        None
    }
}

/// `s` without one leading `+`.
pub open spec fn unsigned_digits(s: Seq<char>) -> Seq<char> {
    if s.len() > 0 && s[0] == '+' { s.drop_first() } else { s }
}

/// Every character is an ASCII digit.
pub open spec fn all_digits(d: Seq<char>) -> bool {
    forall|i: int| 0 <= i < d.len() ==> is_digit(#[trigger] d[i])
}

/// Position of the first occurrence of `t` in `s` at or after `i`.
pub open spec fn first_occurrence_from(s: Seq<char>, t: Seq<char>, i: int) -> Option<int>
    decreases s.len() + 1 - i,
{
    if i < 0 || i > s.len() || i + t.len() > s.len() {
        None
    } else if occurs_at(s, t, i) {
        Some(i)
    } else {
        first_occurrence_from(s, t, i + 1)
    }
}

/// Position of the first occurrence of `t` in `s`.
pub open spec fn first_occurrence(s: Seq<char>, t: Seq<char>) -> Option<int> {
    first_occurrence_from(s, t, 0)
}

/// What `first_occurrence_from` finds is an occurrence, and nothing
/// between the start and it is one; when it finds nothing there is none.
pub proof fn lemma_first_occurrence_from(s: Seq<char>, t: Seq<char>, j: int)
    requires
        0 <= j,
    ensures
        first_occurrence_from(s, t, j) matches Some(m) ==> j <= m && occurs_at(s, t, m)
            && forall|k: int| j <= k < m ==> !occurs_at(s, t, k),
        first_occurrence_from(s, t, j) is None ==> forall|k: int| j <= k ==> !occurs_at(s, t, k),
    decreases s.len() + 1 - j,
{
    if j > s.len() || j + t.len() > s.len() {
    } else if occurs_at(s, t, j) {
    } else {
        lemma_first_occurrence_from(s, t, j + 1);
    }
}

/// Whether the characters of `t` sit in `x` at `i`.
fn matches_at(x: &Vec<char>, lo: usize, t: &Vec<char>) -> (r: bool)
    requires
        lo + t@.len() <= x@.len(),
    ensures
        r == occurs_at(x@, t@, lo as int),
{
    let mut j: usize = 0;
    while j < t.len()
        invariant
            0 <= j <= t@.len(),
            lo + t@.len() <= x@.len(),
            lo + t.len() <= x.len(),
            forall|k: int| 0 <= k < j ==> x@[lo + k] == t@[k],
        decreases t.len() - j,
    {
        if x[lo + j] != t[j] {
            assert(x@.subrange(lo as int, lo + t@.len())[j as int] != t@[j as int]);
            return false;
        }
        j = j + 1;
    }
    assert(x@.subrange(lo as int, lo + t@.len()) =~= t@);
    true
}

/// First occurrence of `t` in `x[lo..hi]`, as a position in `x`.
pub fn find_in(x: &Vec<char>, lo: usize, hi: usize, t: &Vec<char>) -> (r: Option<usize>)
    requires
        lo <= hi <= x@.len(),
    ensures
        match r {
            Some(k) => first_occurrence(x@.subrange(lo as int, hi as int), t@) == Some(k - lo) && lo <= k && k + t@.len() <= hi,
            None => first_occurrence(x@.subrange(lo as int, hi as int), t@) is None,
        },
{
    let ghost piece = x@.subrange(lo as int, hi as int);
    if t.len() == 0 {
        assert(piece.subrange(0, 0) =~= t@);
        return Some(lo);
    }
    let mut i: usize = lo;
    while t.len() <= hi - i
        invariant
            lo <= i <= hi,
            hi <= x@.len(),
            t@.len() >= 1,
            piece == x@.subrange(lo as int, hi as int),
            first_occurrence(piece, t@) == first_occurrence_from(piece, t@, i - lo),
        decreases hi - i,
    {
        let found = matches_at(x, i, t);
        proof {
            assert(piece.subrange(i - lo, i - lo + t@.len()) =~= x@.subrange(i as int, i + t@.len()));
        }
        if found {
            return Some(i);
        }
        i = i + 1;
    }
    None
}

/// Unsigned value of `x[lo..hi]` read by the rules of `str::parse::<u64>`.
pub fn parse_u64_range(x: &Vec<char>, lo: usize, hi: usize) -> (r: Option<u64>)
    requires
        lo <= hi <= x@.len(),
    ensures
        r == spec_parse_u64(x@.subrange(lo as int, hi as int)),
{
    let ghost s = x@.subrange(lo as int, hi as int);
    let mut start = lo;
    if start < hi && x[start] == '+' {
        start = start + 1;
    }
    let ghost d = x@.subrange(start as int, hi as int);
    proof {
        assert(s.len() > 0 ==> s[0] == x@[lo as int]);
        if lo < hi && x@[lo as int] == '+' {
            assert(s.len() > 0 && s[0] == '+');
            assert(s.drop_first() =~= d);
        } else {
            assert(!(s.len() > 0 && s[0] == '+'));
            assert(s =~= d);
        }
    }
    if start == hi {
        return None;
    }
    assert(unsigned_digits(s) == d);
    assert(spec_parse_u64(s) == (if all_digits(d) && digits_value(d) <= u64::MAX {
        Some(digits_value(d) as u64)
    } else {
        None
    }));
    let mut acc: u64 = 0;
    let mut i: usize = start;
    while i < hi
        invariant
            start <= i <= hi <= x@.len(),
            d == x@.subrange(start as int, hi as int),
            s == x@.subrange(lo as int, hi as int),
            spec_parse_u64(s) == (if all_digits(d) && digits_value(d) <= u64::MAX {
                Some(digits_value(d) as u64)
            } else {
                None
            }),
            forall|j: int| start <= j < i ==> is_digit(#[trigger] x@[j]),
            acc as nat == digits_value(x@.subrange(start as int, i as int)),
        decreases hi - i,
    {
        let c = x[i];
        if !('0' <= c && c <= '9') {
            assert(!is_digit(d[i - start]));
            return None;
        }
        let dv = (c as u32 - '0' as u32) as u64;
        proof {
            assert(x@.subrange(start as int, i + 1) =~= x@.subrange(start as int, i as int).push(c));
            lemma_digits_value_push(x@.subrange(start as int, i as int), c);
        }
        if acc > (u64::MAX - dv) / 10 {
            proof {
                assert(acc * 10 + dv > u64::MAX) by (nonlinear_arith)
                    requires acc > (u64::MAX - dv) / 10, dv <= 9;
                let k = i + 1 - start;
                assert(x@.subrange(start as int, i + 1) =~= d.subrange(0, k));
                lemma_digits_value_prefix_mono(d, k);
            }
            return None;
        }
        proof {
            assert(acc * 10 + dv <= u64::MAX) by (nonlinear_arith)
                requires acc <= (u64::MAX - dv) / 10, dv <= 9;
        }
        acc = acc * 10 + dv;
        i = i + 1;
    }
    assert(x@.subrange(start as int, hi as int) =~= d);
    Some(acc)
}

/// Bounds of `x[lo..hi]` with leading and trailing whitespace removed.
pub fn trim_range(x: &Vec<char>, lo: usize, hi: usize) -> (r: (usize, usize))
    requires
        lo <= hi <= x@.len(),
    ensures
        lo <= r.0 <= r.1 <= hi,
        x@.subrange(r.0 as int, r.1 as int) == trim(x@.subrange(lo as int, hi as int)),
{
    let mut a = lo;
    while a < hi && is_whitespace(x[a])
        invariant
            lo <= a <= hi <= x@.len(),
            trim_start(x@.subrange(lo as int, hi as int)) == trim_start(x@.subrange(a as int, hi as int)),
        decreases hi - a,
    {
        proof {
            assert(x@.subrange(a as int, hi as int).drop_first() =~= x@.subrange(a + 1, hi as int));
        }
        a = a + 1;
    }
    let mut b = hi;
    while b > a && is_whitespace(x[b - 1])
        invariant
            lo <= a <= b <= hi <= x@.len(),
            trim_end(x@.subrange(a as int, hi as int)) == trim_end(x@.subrange(a as int, b as int)),
        decreases b - a,
    {
        proof {
            assert(x@.subrange(a as int, b as int).drop_last() =~= x@.subrange(a as int, b - 1));
        }
        b = b - 1;
    }
    (a, b)
}

/// The leading run of non-whitespace characters of `s`.
pub open spec fn leading_token(s: Seq<char>) -> Seq<char>
    decreases s.len(),
{
    if s.len() == 0 || is_ws(s[0]) {
        Seq::empty()
    } else {
        seq![s[0]] + leading_token(s.drop_first())
    }
}

/// The first whitespace-separated token of `s` (empty when there is none),
/// as `split_whitespace().next()` finds it.
pub open spec fn first_token(s: Seq<char>) -> Seq<char> {
    leading_token(trim_start(s))
}

/// Bounds of the first whitespace-separated token of `x[lo..hi]`.
pub fn first_token_range(x: &Vec<char>, lo: usize, hi: usize) -> (r: (usize, usize))
    requires
        lo <= hi <= x@.len(),
    ensures
        lo <= r.0 <= r.1 <= hi,
        x@.subrange(r.0 as int, r.1 as int) == first_token(x@.subrange(lo as int, hi as int)),
{
    let mut a = lo;
    while a < hi && is_whitespace(x[a])
        invariant
            lo <= a <= hi <= x@.len(),
            trim_start(x@.subrange(lo as int, hi as int)) == trim_start(x@.subrange(a as int, hi as int)),
        decreases hi - a,
    {
        proof {
            assert(x@.subrange(a as int, hi as int).drop_first() =~= x@.subrange(a + 1, hi as int));
        }
        a = a + 1;
    }
    assert(trim_start(x@.subrange(a as int, hi as int)) == x@.subrange(a as int, hi as int));
    let mut b = a;
    while b < hi && !is_whitespace(x[b])
        invariant
            lo <= a <= b <= hi <= x@.len(),
            leading_token(x@.subrange(a as int, hi as int)) == x@.subrange(a as int, b as int) + leading_token(x@.subrange(b as int, hi as int)),
        decreases hi - b,
    {
        proof {
            let t = x@.subrange(b as int, hi as int);
            assert(t.drop_first() =~= x@.subrange(b + 1, hi as int));
            assert(x@.subrange(a as int, b + 1) =~= x@.subrange(a as int, b as int) + seq![t[0]]);
            assert(leading_token(t) == seq![t[0]] + leading_token(t.drop_first()));
            assert(x@.subrange(a as int, b as int) + leading_token(t) =~= x@.subrange(a as int, b + 1) + leading_token(x@.subrange(b + 1, hi as int)));
        }
        b = b + 1;
    }
    proof {
        let t = x@.subrange(b as int, hi as int);
        assert(leading_token(t) =~= Seq::<char>::empty());
        assert(x@.subrange(a as int, b as int) + leading_token(t) =~= x@.subrange(a as int, b as int));
    }
    (a, b)
}

/// `char::is_whitespace`.
pub fn is_whitespace(c: char) -> (r: bool)
    ensures
        r == is_ws(c),
{
    c == ' ' || ('\t' <= c && c <= '\r') || c == '\u{85}' || c == '\u{a0}' || c == '\u{1680}'
        || ('\u{2000}' <= c && c <= '\u{200a}') || c == '\u{2028}' || c == '\u{2029}'
        || c == '\u{202f}' || c == '\u{205f}' || c == '\u{3000}'
}

} // verus!
