//! Decimal text of a number: how many digits follow the decimal point,
//! and the digits with the point taken out.
//!
//! Tick values are added and multiplied digit by digit so that a step such
//! as `0.1` does not drift; these two functions read that information off
//! the shortest decimal text of a value.

use vstd::prelude::*;
use vstd::string::*;

verus! {

/// The byte `.`.
pub open spec fn is_point(b: u8) -> bool {
    b == 46u8
}

/// Length of the run of bytes of `s` that starts at `i` and stops at the next
/// `.` or at the end.
pub open spec fn run_len(s: Seq<u8>, i: int) -> nat
    decreases s.len() - i,
{
    if i < 0 || i >= s.len() || is_point(s[i]) {
        0
    } else {
        1 + run_len(s, i + 1)
    }
}

/// Index of the first `.` of `s` at or after `i`, if there is one.
pub open spec fn next_point(s: Seq<u8>, i: int) -> Option<int>
    decreases s.len() - i,
{
    if i < 0 || i >= s.len() {
        None
    } else if is_point(s[i]) {
        Some(i)
    } else {
        next_point(s, i + 1)
    }
}

/// The number of bytes in the second `.`-separated piece of `s`, or 0 when
/// `s` holds no `.`: for the text of a number, its count of decimal places.
pub open spec fn fraction_len(s: Seq<u8>) -> nat {
    match next_point(s, 0) {
        Some(p) => run_len(s, p + 1),
        None => 0,
    }
}

/// `s` with every `.` removed, the other characters kept in order.
pub open spec fn without_points(s: Seq<char>) -> Seq<char>
    decreases s.len(),
{
    if s.len() == 0 {
        Seq::empty()
    } else if s.last() == '.' {
        without_points(s.drop_last())
    } else {
        without_points(s.drop_last()).push(s.last())
    }
}

/// Number of decimal places written in `text`: the byte length of the piece
/// between the first `.` and the next one (or the end), 0 without a `.`.
pub fn f_len(text: &str) -> (r: usize)
    ensures
        r == fraction_len(text.spec_bytes()),
{
    let bytes = text.as_bytes();
    let ghost s = bytes@;
    let n = bytes.len();
    let mut i: usize = 0;
    while i < n && bytes[i] != 46u8
        invariant
            s == bytes@,
            n == s.len(),
            0 <= i <= n,
            next_point(s, 0) == next_point(s, i as int),
        decreases n - i,
    {
        i = i + 1;
    }
    if i == n {
        return 0;
    }
    let start: usize = i + 1;
    let mut j: usize = start;
    while j < n && bytes[j] != 46u8
        invariant
            s == bytes@,
            n == s.len(),
            start <= j <= n,
            run_len(s, start as int) == (j - start) + run_len(s, j as int),
        decreases n - j,
    {
        j = j + 1;
    }
    j - start
}

/// The characters of `text` with every `.` removed.
pub fn f_int(text: &str) -> (r: String)
    ensures
        r@ == without_points(text@),
{
    let n = text.unicode_len();
    let mut r = String::new();
    let mut i: usize = 0;
    while i < n
        invariant
            n == text@.len(),
            0 <= i <= n,
            r@ == without_points(text@.subrange(0, i as int)),
        decreases n - i,
    {
        let c = text.get_char(i);
        assert(text@.subrange(0, i as int + 1).drop_last() =~= text@.subrange(0, i as int));
        if c != '.' {
            let piece = text.substring_char(i, i + 1);
            r.append(piece);
            assert(piece@ =~= seq![c]);
        }
        i = i + 1;
    }
    assert(text@.subrange(0, n as int) =~= text@);
    r
}

proof fn next_point_skips(p: Seq<u8>, q: Seq<u8>, i: int)
    requires
        0 <= i <= p.len(),
        forall|k: int| 0 <= k < p.len() ==> !is_point(#[trigger] p[k]),
    ensures
        next_point(p + seq![46u8] + q, i) == Some(p.len() as int),
    decreases p.len() - i,
{
    let s = p + seq![46u8] + q;
    if i < p.len() {
        assert(s[i] == p[i]);
        next_point_skips(p, q, i + 1);
    } else {
        assert(s[i] == 46u8);
    }
}

proof fn next_point_none(s: Seq<u8>, i: int)
    requires
        0 <= i,
        forall|k: int| 0 <= k < s.len() ==> !is_point(#[trigger] s[k]),
    ensures
        next_point(s, i) is None,
    decreases s.len() - i,
{
    if i < s.len() {
        next_point_none(s, i + 1);
    }
}

proof fn run_len_shape(s: Seq<u8>, i: int)
    requires
        0 <= i <= s.len(),
    ensures
        i + run_len(s, i) <= s.len(),
        forall|k: int| i <= k < i + run_len(s, i) ==> !is_point(#[trigger] s[k]),
        i + run_len(s, i) == s.len() || is_point(s[i + run_len(s, i)]),
    decreases s.len() - i,
{
    if i < s.len() && !is_point(s[i]) {
        run_len_shape(s, i + 1);
    }
}

/// Only what follows the first `.` counts: for a text `p.q` where `p` holds
/// no `.`, the count of decimal places is the length of the longest start of
/// `q` free of `.` (all of `q`, or up to its first `.`), whatever `p` is.
pub proof fn fraction_len_reads_after_first_point(p: Seq<u8>, q: Seq<u8>)
    requires
        forall|k: int| 0 <= k < p.len() ==> !is_point(#[trigger] p[k]),
    ensures
        fraction_len(p + seq![46u8] + q) <= q.len(),
        forall|k: int|
            0 <= k < fraction_len(p + seq![46u8] + q) ==> !is_point(#[trigger] q[k]),
        fraction_len(p + seq![46u8] + q) == q.len() || is_point(
            q[fraction_len(p + seq![46u8] + q) as int],
        ),
{
    let s = p + seq![46u8] + q;
    let start: int = p.len() as int + 1;
    next_point_skips(p, q, 0);
    run_len_shape(s, start);
    let r: int = run_len(s, start) as int;
    assert forall|k: int| 0 <= k < r implies !is_point(#[trigger] q[k]) by {
        assert(s[start + k] == q[k]);
    }
    if r < q.len() {
        assert(s[start + r] == q[r]);
    }
}

/// A text without `.` has no decimal places.
pub proof fn fraction_len_without_point(s: Seq<u8>)
    requires
        forall|k: int| 0 <= k < s.len() ==> !is_point(#[trigger] s[k]),
    ensures
        fraction_len(s) == 0,
{
    next_point_none(s, 0);
}

/// Removing the points of a text piece by piece gives the same as removing
/// them at once.
pub proof fn without_points_concat(a: Seq<char>, b: Seq<char>)
    ensures
        without_points(a + b) == without_points(a) + without_points(b),
    decreases b.len(),
{
    if b.len() == 0 {
        assert(a + b =~= a);
        assert(without_points(a) + without_points(b) =~= without_points(a));
    } else {
        without_points_concat(a, b.drop_last());
        assert((a + b).drop_last() =~= a + b.drop_last());
        assert((a + b).last() == b.last());
        if b.last() == '.' {
        } else {
            assert(without_points(a) + without_points(b.drop_last()).push(b.last())
                =~= (without_points(a) + without_points(b.drop_last())).push(b.last()));
        }
    }
}

/// A single character is kept unless it is a `.`.
pub proof fn without_points_single(c: char)
    ensures
        c != '.' ==> without_points(seq![c]) == seq![c],
        c == '.' ==> without_points(seq![c]) == Seq::<char>::empty(),
{
    let one = seq![c];
    assert(one.len() == 1 && one.last() == c);
    assert(one.drop_last() =~= Seq::<char>::empty());
    assert(without_points(Seq::<char>::empty()) == Seq::<char>::empty());
    assert(Seq::<char>::empty().push(c) =~= one);
}

/// The digits keep every character of the text that is not a `.`, in order
/// and nothing else: removing points from `a` followed by `b` gives the
/// digits of `a` followed by those of `b`, so a leading sign stays in front.
pub proof fn without_points_keeps_the_rest(c: char, rest: Seq<char>)
    requires
        c != '.',
    ensures
        without_points(seq![c] + rest) == seq![c] + without_points(rest),
        without_points(seq![c] + rest)[0] == c,
{
    without_points_concat(seq![c], rest);
    without_points_single(c);
}

} // verus!
