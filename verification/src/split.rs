//! Splitting an argument text at a separator, and joining pieces again.

use vstd::prelude::*;
use crate::text::{append_chars, views};

verus! {

/// Whether `pat` stands in `s` at position `i`.
pub open spec fn occurs_at(s: Seq<char>, pat: Seq<char>, i: int) -> bool {
    &&& 0 <= i
    &&& i + pat.len() <= s.len()
    &&& s.subrange(i, i + pat.len()) == pat
}

/// Whether `pat` stands somewhere in `s`.
pub open spec fn contains_text(s: Seq<char>, pat: Seq<char>) -> bool {
    exists|i: int| occurs_at(s, pat, i)
}

/// The pieces of `s` from `start` on, where the scan for the separator has
/// reached position `i` and the piece at hand began at `start`.
pub open spec fn split_scan(s: Seq<char>, pat: Seq<char>, start: int, i: int) -> Seq<Seq<char>>
    decreases s.len() - i,
{
    if pat.len() == 0 || i < 0 || start < 0 || start > i || i + pat.len() > s.len() {
        seq![s.subrange(start, s.len() as int)]
    } else if occurs_at(s, pat, i) {
        seq![s.subrange(start, i)] + split_scan(s, pat, i + pat.len(), i + pat.len())
    } else {
        split_scan(s, pat, start, i + 1)
    }
}

/// The pieces of `s` between the occurrences of `pat`, found from left to
/// right without overlap. An empty `pat` separates nothing.
pub open spec fn split_by(s: Seq<char>, pat: Seq<char>) -> Seq<Seq<char>> {
    split_scan(s, pat, 0, 0)
}

/// The pieces of `parts` written one after another with `sep` between them.
pub open spec fn join(parts: Seq<Seq<char>>, sep: Seq<char>) -> Seq<char>
    decreases parts.len(),
{
    if parts.len() == 0 {
        Seq::empty()
    } else if parts.len() == 1 {
        parts[0]
    } else {
        join(parts.drop_last(), sep) + sep + parts.last()
    }
}

/// Joining with a leading piece: the piece, the separator, the rest joined.
pub proof fn lemma_join_front(head: Seq<char>, rest: Seq<Seq<char>>, sep: Seq<char>)
    requires
        rest.len() > 0,
    ensures
        join(seq![head] + rest, sep) == head + sep + join(rest, sep),
    decreases rest.len(),
{
    let all = seq![head] + rest;
    if rest.len() == 1 {
        assert(all.drop_last() == seq![head]);
        assert(all.last() == rest[0]);
        assert(join(seq![head], sep) == head);
    } else {
        assert(all.drop_last() == seq![head] + rest.drop_last());
        assert(all.last() == rest.last());
        lemma_join_front(head, rest.drop_last(), sep);
        assert(join(all, sep) == (head + sep + join(rest.drop_last(), sep)) + sep + rest.last());
        assert(join(rest, sep) == join(rest.drop_last(), sep) + sep + rest.last());
    }
}

/// What the scan yields is never empty.
pub proof fn lemma_split_scan_nonempty(s: Seq<char>, pat: Seq<char>, start: int, i: int)
    ensures
        split_scan(s, pat, start, i).len() >= 1,
    decreases s.len() - i,
{
    if pat.len() == 0 || i < 0 || start < 0 || start > i || i + pat.len() > s.len() {
    } else if occurs_at(s, pat, i) {
        lemma_split_scan_nonempty(s, pat, i + pat.len(), i + pat.len());
    } else {
        lemma_split_scan_nonempty(s, pat, start, i + 1);
    }
}

/// Joining what the scan yields gives the text from `start` on.
pub proof fn lemma_split_scan_join(s: Seq<char>, pat: Seq<char>, start: int, i: int)
    requires
        0 <= start <= i <= s.len(),
    ensures
        join(split_scan(s, pat, start, i), pat) == s.subrange(start, s.len() as int),
    decreases s.len() - i,
{
    if pat.len() == 0 || i + pat.len() > s.len() {
    } else if occurs_at(s, pat, i) {
        let next = i + pat.len();
        lemma_split_scan_join(s, pat, next, next);
        lemma_split_scan_nonempty(s, pat, next, next);
        lemma_join_front(s.subrange(start, i), split_scan(s, pat, next, next), pat);
        assert(s.subrange(start, i) + pat + s.subrange(next, s.len() as int) == s.subrange(
            start,
            s.len() as int,
        ));
    } else {
        lemma_split_scan_join(s, pat, start, i + 1);
    }
}

/// Splitting loses nothing: the pieces joined by the separator are the text.
pub proof fn law_split_loses_nothing(s: Seq<char>, pat: Seq<char>)
    ensures
        split_by(s, pat).len() >= 1,
        join(split_by(s, pat), pat) == s,
{
    lemma_split_scan_nonempty(s, pat, 0, 0);
    lemma_split_scan_join(s, pat, 0, 0);
    assert(s.subrange(0, s.len() as int) == s);
}

/// No piece that the scan yields holds the separator, given that the piece at
/// hand holds none before position `i`.
pub proof fn lemma_split_scan_clean(s: Seq<char>, pat: Seq<char>, start: int, i: int, k: int)
    requires
        pat.len() > 0,
        0 <= start <= i <= s.len(),
        forall|j: int| start <= j < i ==> !occurs_at(s, pat, j),
        0 <= k < split_scan(s, pat, start, i).len(),
    ensures
        !contains_text(split_scan(s, pat, start, i)[k], pat),
    decreases s.len() - i,
{
    if i + pat.len() > s.len() {
        let piece = s.subrange(start, s.len() as int);
        assert forall|j: int| !occurs_at(piece, pat, j) by {
            if occurs_at(piece, pat, j) {
                assert(piece.subrange(j, j + pat.len()) == s.subrange(
                    start + j,
                    start + j + pat.len(),
                ));
                assert(occurs_at(s, pat, start + j));
            }
        }
    } else if occurs_at(s, pat, i) {
        let next = i + pat.len();
        if k == 0 {
            let piece = s.subrange(start, i);
            assert forall|j: int| !occurs_at(piece, pat, j) by {
                if occurs_at(piece, pat, j) {
                    assert(piece.subrange(j, j + pat.len()) == s.subrange(
                        start + j,
                        start + j + pat.len(),
                    ));
                    assert(occurs_at(s, pat, start + j));
                }
            }
        } else {
            lemma_split_scan_clean(s, pat, next, next, k - 1);
        }
    } else {
        lemma_split_scan_clean(s, pat, start, i + 1, k);
    }
}

/// No piece of a split holds the separator.
pub proof fn law_pieces_hold_no_separator(s: Seq<char>, pat: Seq<char>, k: int)
    requires
        pat.len() > 0,
        0 <= k < split_by(s, pat).len(),
    ensures
        !contains_text(split_by(s, pat)[k], pat),
{
    lemma_split_scan_clean(s, pat, 0, 0, k);
}

/// A text without the separator is its own single piece.
pub proof fn lemma_split_without_separator(s: Seq<char>, pat: Seq<char>)
    requires
        !contains_text(s, pat),
    ensures
        split_by(s, pat) == seq![s],
{
    lemma_split_scan_none(s, pat, 0);
}

proof fn lemma_split_scan_none(s: Seq<char>, pat: Seq<char>, i: int)
    requires
        !contains_text(s, pat),
        0 <= i,
    ensures
        split_scan(s, pat, 0, i) == seq![s],
    decreases s.len() - i,
{
    assert(s.subrange(0, s.len() as int) == s);
    if pat.len() == 0 || i + pat.len() > s.len() {
    } else {
        assert(!occurs_at(s, pat, i));
        lemma_split_scan_none(s, pat, i + 1);
    }
}

/// Whether `pat` stands in `s` at position `i`.
pub fn matches_at(s: &Vec<char>, pat: &Vec<char>, i: usize) -> (r: bool)
    ensures
        r == occurs_at(s@, pat@, i as int),
{
    if pat.len() > s.len() || i > s.len() - pat.len() {
        return false;
    }
    let mut k: usize = 0;
    while k < pat.len()
        invariant
            k <= pat.len(),
            i + pat.len() <= s.len(),
            s@.subrange(i as int, i + k) == pat@.take(k as int),
        decreases pat.len() - k,
    {
        if s[i + k] != pat[k] {
            assert(s@.subrange(i as int, i + pat.len())[k as int] != pat@[k as int]);
            return false;
        }
        assert(s@.subrange(i as int, i + k + 1) == s@.subrange(i as int, i + k).push(
            s@[i + k],
        ));
        assert(pat@.take(k + 1) == pat@.take(k as int).push(pat@[k as int]));
        k += 1;
    }
    assert(pat@.take(pat.len() as int) == pat@);
    true
}

/// Whether `pat` stands somewhere in `s`.
pub fn has_text(s: &Vec<char>, pat: &Vec<char>) -> (r: bool)
    ensures
        r == contains_text(s@, pat@),
{
    let mut i: usize = 0;
    while i < s.len()
        invariant
            i <= s.len(),
            forall|j: int| 0 <= j < i ==> !occurs_at(s@, pat@, j),
        decreases s.len() - i,
    {
        if matches_at(s, pat, i) {
            return true;
        }
        i += 1;
    }
    matches_at(s, pat, i)
}

/// The characters of `s` from `from` up to `to`.
pub(crate) fn slice_chars(s: &Vec<char>, from: usize, to: usize) -> (out: Vec<char>)
    requires
        from <= to <= s.len(),
    ensures
        out@ == s@.subrange(from as int, to as int),
{
    let mut out: Vec<char> = Vec::new();
    let mut i: usize = from;
    while i < to
        invariant
            from <= i <= to <= s.len(),
            out@ == s@.subrange(from as int, i as int),
        decreases to - i,
    {
        out.push(s[i]);
        i += 1;
    }
    out
}

/// Splits `s` at each occurrence of `pat`.
pub fn split_chars(s: &Vec<char>, pat: &Vec<char>) -> (out: Vec<Vec<char>>)
    ensures
        views(out@) == split_by(s@, pat@),
        out.len() >= 1,
{
    let mut out: Vec<Vec<char>> = Vec::new();
    let mut start: usize = 0;
    let mut i: usize = 0;
    if pat.len() > 0 {
        while i < s.len() && pat.len() <= s.len() - i
            invariant
                pat.len() > 0,
                start <= i <= s.len(),
                views(out@) + split_scan(s@, pat@, start as int, i as int) == split_by(s@, pat@),
            decreases s.len() - i,
        {
            if matches_at(s, pat, i) {
                let piece = slice_chars(s, start, i);
                proof {
                    let rest = split_scan(s@, pat@, i + pat.len(), i + pat.len());
                    assert(views(out@.push(piece)) == views(out@) + seq![piece@]);
                    assert(views(out@) + (seq![piece@] + rest) == (views(out@) + seq![piece@])
                        + rest);
                }
                out.push(piece);
                i = i + pat.len();
                start = i;
            } else {
                i += 1;
            }
        }
    }
    let piece = slice_chars(s, start, s.len());
    proof {
        assert(split_scan(s@, pat@, start as int, i as int) == seq![piece@]);
        assert(views(out@.push(piece)) == views(out@) + seq![piece@]);
    }
    out.push(piece);
    out
}

/// Writes the pieces one after another with `sep` between them.
pub fn join_chars(parts: &Vec<Vec<char>>, sep: &Vec<char>) -> (out: Vec<char>)
    ensures
        out@ == join(views(parts@), sep@),
{
    let mut out: Vec<char> = Vec::new();
    let mut i: usize = 0;
    while i < parts.len()
        invariant
            i <= parts.len(),
            out@ == join(views(parts@).take(i as int), sep@),
        decreases parts.len() - i,
    {
        proof {
            let next = views(parts@).take(i + 1);
            assert(next.drop_last() == views(parts@).take(i as int));
            assert(next.last() == parts@[i as int]@);
            if i > 0 {
                assert(join(next, sep@) == join(next.drop_last(), sep@) + sep@ + next.last());
            } else {
                assert(join(next, sep@) == next[0]);
                assert(out@ + parts@[i as int]@ == parts@[i as int]@);
            }
        }
        if i > 0 {
            append_chars(&mut out, sep);
        }
        append_chars(&mut out, &parts[i]);
        i += 1;
    }
    assert(views(parts@).take(parts.len() as int) == views(parts@));
    out
}

/// The separator of the entries of an argument text: one comma.
pub open spec fn comma() -> Seq<char> {
    seq![',']
}

/// The entries of an argument text: its pieces between commas.
pub open spec fn entries(attr: Seq<char>) -> Seq<Seq<char>> {
    split_by(attr, comma())
}

/// The entries of an argument text.
pub fn split_entries(attr: &Vec<char>) -> (out: Vec<Vec<char>>)
    ensures
        views(out@) == entries(attr@),
        out.len() >= 1,
{
    let mut pat: Vec<char> = Vec::new();
    pat.push(',');
    assert(pat@ == comma());
    split_chars(attr, &pat)
}

/// With a prefix before the text, the scan yields what it yields on the text
/// alone.
pub proof fn lemma_split_scan_shift(
    pre: Seq<char>,
    b: Seq<char>,
    pat: Seq<char>,
    start: int,
    i: int,
)
    requires
        0 <= start <= i <= b.len(),
    ensures
        split_scan(pre + b, pat, pre.len() + start, pre.len() + i) == split_scan(b, pat, start, i),
    decreases b.len() - i,
{
    let s = pre + b;
    let n = pre.len() as int;
    assert(s.subrange(n + start, s.len() as int) == b.subrange(start, b.len() as int));
    if pat.len() == 0 || i + pat.len() > b.len() {
    } else {
        assert(s.subrange(n + i, n + i + pat.len()) == b.subrange(i, i + pat.len()));
        if occurs_at(b, pat, i) {
            assert(occurs_at(s, pat, n + i));
            assert(s.subrange(n + start, n + i) == b.subrange(start, i));
            lemma_split_scan_shift(pre, b, pat, i + pat.len(), i + pat.len());
        } else {
            assert(!occurs_at(s, pat, n + i));
            lemma_split_scan_shift(pre, b, pat, start, i + 1);
        }
    }
}

proof fn lemma_split_scan_first(a: Seq<char>, c: char, b: Seq<char>, i: int)
    requires
        !a.contains(c),
        0 <= i <= a.len(),
    ensures
        split_scan(a + seq![c] + b, seq![c], 0, i) == seq![a] + split_by(b, seq![c]),
    decreases a.len() - i,
{
    let pat = seq![c];
    let s = a + pat + b;
    if i < a.len() {
        assert(s.subrange(i, i + 1)[0] == a[i]);
        assert(a.contains(a[i]));
        assert(!occurs_at(s, pat, i));
        lemma_split_scan_first(a, c, b, i + 1);
    } else {
        assert(s.subrange(i, i + 1) == pat);
        assert(occurs_at(s, pat, i));
        assert(s.subrange(0, i) == a);
        lemma_split_scan_shift(a + pat, b, pat, 0, 0);
    }
}

/// The first entry ends at the first separator: where `a` holds no `c`, the
/// text `a`, `c`, `b` splits into `a` and the pieces of `b`.
pub proof fn lemma_split_first(a: Seq<char>, c: char, b: Seq<char>)
    requires
        !a.contains(c),
    ensures
        split_by(a + seq![c] + b, seq![c]) == seq![a] + split_by(b, seq![c]),
{
    lemma_split_scan_first(a, c, b, 0);
}

/// A text without `c` is its own single piece.
pub proof fn lemma_split_single(a: Seq<char>, c: char)
    requires
        !a.contains(c),
    ensures
        split_by(a, seq![c]) == seq![a],
{
    assert forall|i: int| !occurs_at(a, seq![c], i) by {
        if occurs_at(a, seq![c], i) {
            assert(a.subrange(i, i + 1)[0] == a[i]);
            assert(a.contains(a[i]));
        }
    }
    lemma_split_without_separator(a, seq![c]);
}

} // verus!
