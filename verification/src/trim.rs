//! Removing characters from the ends of a text, or from all of it.

use vstd::prelude::*;
use crate::split::{contains_text, entries, occurs_at, slice_chars, split_entries};
use crate::text::views;

verus! {

/// Whether `c` is white space: one of the characters with the Unicode
/// property White_Space.
pub open spec fn is_space(c: char) -> bool {
    ||| '\u{9}' <= c <= '\u{d}'
    ||| c == ' '
    ||| c == '\u{85}'
    ||| c == '\u{a0}'
    ||| c == '\u{1680}'
    ||| '\u{2000}' <= c <= '\u{200a}'
    ||| c == '\u{2028}'
    ||| c == '\u{2029}'
    ||| c == '\u{202f}'
    ||| c == '\u{205f}'
    ||| c == '\u{3000}'
}

/// Whether `c` is removed from the ends of a text: white space where no
/// character is given, else the given character.
pub open spec fn is_stripped(what: Option<char>, c: char) -> bool {
    match what {
        Some(q) => c == q,
        None => is_space(c),
    }
}

/// `s` without the stripped characters at its start.
pub open spec fn strip_start(s: Seq<char>, what: Option<char>) -> Seq<char>
    decreases s.len(),
{
    if s.len() > 0 && is_stripped(what, s[0]) {
        strip_start(s.skip(1), what)
    } else {
        s
    }
}

/// `s` without the stripped characters at its end.
pub open spec fn strip_end(s: Seq<char>, what: Option<char>) -> Seq<char>
    decreases s.len(),
{
    if s.len() > 0 && is_stripped(what, s.last()) {
        strip_end(s.drop_last(), what)
    } else {
        s
    }
}

/// `s` without the stripped characters at either end.
pub open spec fn strip(s: Seq<char>, what: Option<char>) -> Seq<char> {
    strip_end(strip_start(s, what), what)
}

/// `s` without the white space around it.
pub open spec fn trimmed(s: Seq<char>) -> Seq<char> {
    strip(s, None)
}

/// `s` without the double quotes around it.
pub open spec fn unquoted(s: Seq<char>) -> Seq<char> {
    strip(s, Some('"'))
}

/// `s` without any occurrence of `c`.
pub open spec fn without(s: Seq<char>, c: char) -> Seq<char>
    decreases s.len(),
{
    if s.len() == 0 {
        s
    } else if s.last() == c {
        without(s.drop_last(), c)
    } else {
        without(s.drop_last(), c).push(s.last())
    }
}

/// What is left after stripping neither starts nor ends with a stripped
/// character, and is a part of the text.
pub proof fn law_strip_leaves_clean_ends(s: Seq<char>, what: Option<char>)
    ensures
        strip(s, what).len() <= s.len(),
        strip(s, what).len() > 0 ==> !is_stripped(what, strip(s, what)[0]) && !is_stripped(
            what,
            strip(s, what).last(),
        ),
        contains_text(s, strip(s, what)),
{
    lemma_strip_start(s, what);
    let t = strip_start(s, what);
    lemma_strip_end(t, what);
    let from = s.len() - t.len();
    assert(t == s.skip(from));
    assert(strip(s, what) == t.take(strip(s, what).len() as int));
    assert(strip(s, what) == s.subrange(from, from + strip(s, what).len()));
    assert(occurs_at(s, strip(s, what), from));
}

proof fn lemma_strip_start(s: Seq<char>, what: Option<char>)
    ensures
        strip_start(s, what).len() <= s.len(),
        strip_start(s, what) == s.skip(s.len() - strip_start(s, what).len()),
        strip_start(s, what).len() > 0 ==> !is_stripped(what, strip_start(s, what)[0]),
    decreases s.len(),
{
    if s.len() > 0 && is_stripped(what, s[0]) {
        lemma_strip_start(s.skip(1), what);
        let r = strip_start(s.skip(1), what);
        assert(s.skip(1).skip(s.len() - 1 - r.len()) == s.skip(s.len() - r.len()));
    } else {
        assert(s.skip(0) == s);
    }
}

proof fn lemma_strip_end(s: Seq<char>, what: Option<char>)
    ensures
        strip_end(s, what).len() <= s.len(),
        strip_end(s, what) == s.take(strip_end(s, what).len() as int),
        strip_end(s, what).len() > 0 ==> !is_stripped(what, strip_end(s, what).last()),
        strip_end(s, what).len() > 0 ==> strip_end(s, what)[0] == s[0],
    decreases s.len(),
{
    if s.len() > 0 && is_stripped(what, s.last()) {
        lemma_strip_end(s.drop_last(), what);
        let r = strip_end(s.drop_last(), what);
        assert(s.drop_last().take(r.len() as int) == s.take(r.len() as int));
    } else {
        assert(s.take(s.len() as int) == s);
    }
}

/// A text that neither starts nor ends with a stripped character is left as
/// it is.
pub proof fn lemma_strip_clean(s: Seq<char>, what: Option<char>)
    requires
        s.len() > 0 ==> !is_stripped(what, s[0]) && !is_stripped(what, s.last()),
    ensures
        strip(s, what) == s,
{
}

/// Whether `c` is white space.
pub fn is_space_char(c: char) -> (r: bool)
    ensures
        r == is_space(c),
{
    ('\u{9}' <= c && c <= '\u{d}') || c == ' ' || c == '\u{85}' || c == '\u{a0}' || c == '\u{1680}'
        || ('\u{2000}' <= c && c <= '\u{200a}') || c == '\u{2028}' || c == '\u{2029}' || c
        == '\u{202f}' || c == '\u{205f}' || c == '\u{3000}'
}

fn strips_char(what: Option<char>, c: char) -> (r: bool)
    ensures
        r == is_stripped(what, c),
{
    match what {
        Some(q) => c == q,
        None => is_space_char(c),
    }
}

/// `s` without the stripped characters at either end.
pub fn strip_chars(s: &Vec<char>, what: Option<char>) -> (out: Vec<char>)
    ensures
        out@ == strip(s@, what),
{
    let mut from: usize = 0;
    assert(s@.skip(0) == s@);
    while from < s.len() && strips_char(what, s[from])
        invariant
            from <= s.len(),
            strip_start(s@, what) == strip_start(s@.skip(from as int), what),
        decreases s.len() - from,
    {
        assert(s@.skip(from as int).skip(1) == s@.skip(from + 1));
        from += 1;
    }
    assert(strip_start(s@, what) == s@.skip(from as int));
    assert(s@.skip(from as int) == s@.subrange(from as int, s.len() as int));
    let mut to: usize = s.len();
    while to > from && strips_char(what, s[to - 1])
        invariant
            from <= to <= s.len(),
            strip(s@, what) == strip_end(s@.subrange(from as int, to as int), what),
        decreases to - from,
    {
        assert(s@.subrange(from as int, to as int).drop_last() == s@.subrange(
            from as int,
            to - 1,
        ));
        to -= 1;
    }
    slice_chars(s, from, to)
}

/// `s` without the white space around it.
pub fn trim_chars(s: &Vec<char>) -> (out: Vec<char>)
    ensures
        out@ == trimmed(s@),
{
    strip_chars(s, None)
}

/// `s` without the double quotes around it.
pub fn unquote_chars(s: &Vec<char>) -> (out: Vec<char>)
    ensures
        out@ == unquoted(s@),
{
    strip_chars(s, Some('"'))
}

/// `s` without any occurrence of `c`.
pub fn remove_char(s: &Vec<char>, c: char) -> (out: Vec<char>)
    ensures
        out@ == without(s@, c),
{
    let mut out: Vec<char> = Vec::new();
    let mut i: usize = 0;
    while i < s.len()
        invariant
            i <= s.len(),
            out@ == without(s@.take(i as int), c),
        decreases s.len() - i,
    {
        assert(s@.take(i + 1).drop_last() == s@.take(i as int));
        if s[i] != c {
            out.push(s[i]);
        }
        i += 1;
    }
    assert(s@.take(s.len() as int) == s@);
    out
}

/// Nothing that was removed is left, and the rest keeps its order.
pub proof fn law_without_removes_all(s: Seq<char>, c: char)
    ensures
        !without(s, c).contains(c),
        without(s, c).len() <= s.len(),
        !s.contains(c) ==> without(s, c) == s,
    decreases s.len(),
{
    if s.len() > 0 {
        law_without_removes_all(s.drop_last(), c);
        let r = without(s.drop_last(), c);
        if s.last() != c {
            assert forall|i: int| 0 <= i < r.push(s.last()).len() implies r.push(s.last())[i]
                != c by {
                if i < r.len() {
                    assert(r.contains(r[i]));
                }
            }
        }
        if !s.contains(c) {
            assert forall|i: int| 0 <= i < s.drop_last().len() implies s.drop_last()[i] != c by {
                assert(s.contains(s[i]));
            }
            assert(s.contains(s.last()));
            assert(s.drop_last().push(s.last()) == s);
        }
    }
}

/// The entries of an argument text, each without the white space around it.
pub open spec fn trimmed_entries(attr: Seq<char>) -> Seq<Seq<char>> {
    Seq::new(entries(attr).len(), |i: int| trimmed(entries(attr)[i]))
}

/// The entries of the argument text `attr`, each without the white space
/// around it.
pub fn parse_entries(attr: &Vec<char>) -> (out: Vec<Vec<char>>)
    ensures
        views(out@) == trimmed_entries(attr@),
{
    let pieces = split_entries(attr);
    let mut out: Vec<Vec<char>> = Vec::new();
    let mut i: usize = 0;
    while i < pieces.len()
        invariant
            i <= pieces.len(),
            views(pieces@) == entries(attr@),
            views(out@) == trimmed_entries(attr@).take(i as int),
        decreases pieces.len() - i,
    {
        let name = trim_chars(&pieces[i]);
        proof {
            assert(views(pieces@)[i as int] == pieces@[i as int]@);
            assert(views(out@.push(name)) == views(out@).push(name@));
            assert(trimmed_entries(attr@).take(i + 1) == trimmed_entries(attr@).take(i as int).push(
                trimmed(entries(attr@)[i as int]),
            ));
        }
        out.push(name);
        i += 1;
    }
    assert(trimmed_entries(attr@).take(pieces.len() as int) == trimmed_entries(attr@));
    out
}

} // verus!
