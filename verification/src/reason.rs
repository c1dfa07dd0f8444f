//! Judging a condition from its entries and the outcome of each probe:
//! whether it is satisfied, and if not, the reason.

use vstd::prelude::*;
use crate::error::ConfigError;
use crate::split::{contains_text, join, join_chars, occurs_at};
use crate::text::{append_chars, append_str, chars_of, copy_chars, string_of, string_views, views};
use crate::trim::{parse_entries, trimmed_entries, unquote_chars, unquoted};

verus! {

/// How a condition words its reasons: the text around a single failing entry,
/// and the text around several, with what stands between them.
pub struct Wording<'a> {
    pub one_before: &'a str,
    pub one_after: &'a str,
    pub many_before: &'a str,
    pub between: &'a str,
    pub many_after: &'a str,
}

/// The entries whose probe failed, in the order of the entries. An entry
/// for which no outcome is recorded counts as failed.
pub open spec fn failures(names: Seq<Seq<char>>, ok: Seq<bool>) -> Seq<Seq<char>>
    decreases names.len(),
{
    if names.len() == 0 {
        Seq::empty()
    } else {
        let rest = failures(names.drop_last(), ok);
        if succeeded(ok, names.len() - 1) {
            rest
        } else {
            rest.push(names.last())
        }
    }
}

/// Whether the probe of entry `i` is recorded as a success.
pub open spec fn succeeded(ok: Seq<bool>, i: int) -> bool {
    0 <= i < ok.len() && ok[i]
}

/// Whether every entry has a recorded outcome that is a success.
pub open spec fn all_ok(names: Seq<Seq<char>>, ok: Seq<bool>) -> bool {
    forall|i: int| 0 <= i < names.len() ==> #[trigger] succeeded(ok, i)
}

/// The reason for the failing entries `missing`: empty where there is none,
/// the singular wording for one, the plural wording for more.
pub open spec fn reason_text(
    missing: Seq<Seq<char>>,
    one_before: Seq<char>,
    one_after: Seq<char>,
    many_before: Seq<char>,
    between: Seq<char>,
    many_after: Seq<char>,
) -> Seq<char> {
    if missing.len() == 0 {
        Seq::empty()
    } else if missing.len() == 1 {
        one_before + missing[0] + one_after
    } else {
        many_before + join(missing, between) + many_after
    }
}

impl<'a> Wording<'a> {
    /// The reason that this wording gives for the failing entries `missing`.
    pub open spec fn reason(&self, missing: Seq<Seq<char>>) -> Seq<char> {
        reason_text(
            missing,
            self.one_before@,
            self.one_after@,
            self.many_before@,
            self.between@,
            self.many_after@,
        )
    }

}

/// The failures are exactly the entries whose probe did not succeed: there
/// is none if and only if every probe succeeded, and every failing entry is
/// among them.
pub proof fn lemma_failures(names: Seq<Seq<char>>, ok: Seq<bool>)
    ensures
        failures(names, ok).len() <= names.len(),
        failures(names, ok).len() == 0 <==> all_ok(names, ok),
        forall|i: int|
            0 <= i < names.len() && !succeeded(ok, i) ==> failures(names, ok).contains(
                #[trigger] names[i],
            ),
        forall|m: Seq<char>| #[trigger]
            failures(names, ok).contains(m) ==> exists|i: int|
                0 <= i < names.len() && !succeeded(ok, i) && #[trigger] names[i] == m,
    decreases names.len(),
{
    if names.len() > 0 {
        let front = names.drop_last();
        lemma_failures(front, ok);
        let rest = failures(front, ok);
        let last = names.len() - 1;
        let out = failures(names, ok);
        assert forall|i: int| 0 <= i < names.len() && !succeeded(ok, i) implies out.contains(
            #[trigger] names[i],
        ) by {
            if i < last {
                assert(front[i] == names[i]);
                assert(rest.contains(front[i]));
                let k = choose|k: int| 0 <= k < rest.len() && rest[k] == front[i];
                assert(out[k] == names[i]);
            } else {
                assert(out[out.len() - 1] == names[i]);
            }
        }
        assert forall|m: Seq<char>| #[trigger] out.contains(m) implies exists|i: int|
            0 <= i < names.len() && !succeeded(ok, i) && #[trigger] names[i] == m by {
            let k = choose|k: int| 0 <= k < out.len() && out[k] == m;
            if k < rest.len() {
                assert(rest.contains(m));
                let i = choose|i: int|
                    0 <= i < front.len() && !succeeded(ok, i) && #[trigger] front[i] == m;
                assert(names[i] == m);
            } else {
                assert(names[last] == m);
            }
        }
        if all_ok(names, ok) {
            assert(succeeded(ok, last));
            assert forall|i: int| 0 <= i < front.len() implies #[trigger] succeeded(ok, i) by {
                assert(0 <= i < names.len());
            }
        }
        if out.len() == 0 {
            assert(all_ok(front, ok));
            assert forall|i: int| 0 <= i < names.len() implies #[trigger] succeeded(ok, i) by {
                if i < last {
                    assert(0 <= i < front.len());
                }
            }
        }
    }
}

/// Each piece stands in the pieces joined.
pub proof fn lemma_join_holds_piece(parts: Seq<Seq<char>>, sep: Seq<char>, k: int)
    requires
        0 <= k < parts.len(),
    ensures
        contains_text(join(parts, sep), parts[k]),
    decreases parts.len(),
{
    let all = join(parts, sep);
    if parts.len() == 1 {
        assert(all.subrange(0, parts[0].len() as int) == parts[0]);
        assert(occurs_at(all, parts[k], 0));
    } else if k == parts.len() - 1 {
        let at = all.len() - parts[k].len();
        assert(all.subrange(at, at + parts[k].len()) == parts[k]);
        assert(occurs_at(all, parts[k], at));
    } else {
        let front = join(parts.drop_last(), sep);
        lemma_join_holds_piece(parts.drop_last(), sep, k);
        let at = choose|at: int| occurs_at(front, parts.drop_last()[k], at);
        assert(all.subrange(at, at + parts[k].len()) == front.subrange(at, at + parts[k].len()));
        assert(occurs_at(all, parts[k], at));
    }
}

/// A reason names every failing entry, not just the first.
pub proof fn law_reason_names_each(
    missing: Seq<Seq<char>>,
    one_before: Seq<char>,
    one_after: Seq<char>,
    many_before: Seq<char>,
    between: Seq<char>,
    many_after: Seq<char>,
    k: int,
)
    requires
        0 <= k < missing.len(),
    ensures
        contains_text(
            reason_text(missing, one_before, one_after, many_before, between, many_after),
            missing[k],
        ),
{
    let r = reason_text(missing, one_before, one_after, many_before, between, many_after);
    if missing.len() == 1 {
        let at = one_before.len() as int;
        assert(r.subrange(at, at + missing[0].len()) == missing[0]);
        assert(occurs_at(r, missing[k], at));
    } else {
        let joined = join(missing, between);
        lemma_join_holds_piece(missing, between, k);
        let at = choose|at: int| occurs_at(joined, missing[k], at);
        let shifted = many_before.len() + at;
        assert(r.subrange(shifted, shifted + missing[k].len()) == joined.subrange(
            at,
            at + missing[k].len(),
        ));
        assert(occurs_at(r, missing[k], shifted));
    }
}

/// The entries of `names` whose probe failed.
pub fn collect_failures(names: &Vec<Vec<char>>, ok: &Vec<bool>) -> (out: Vec<Vec<char>>)
    ensures
        views(out@) == failures(views(names@), ok@),
{
    let mut out: Vec<Vec<char>> = Vec::new();
    let mut i: usize = 0;
    while i < names.len()
        invariant
            i <= names.len(),
            views(out@) == failures(views(names@).take(i as int), ok@),
        decreases names.len() - i,
    {
        proof {
            let next = views(names@).take(i + 1);
            assert(next.drop_last() == views(names@).take(i as int));
            assert(next.last() == names@[i as int]@);
        }
        if !(i < ok.len() && ok[i]) {
            let name = copy_chars(&names[i]);
            assert(views(out@.push(name)) == views(out@).push(name@));
            out.push(name);
        }
        i += 1;
    }
    assert(views(names@).take(names.len() as int) == views(names@));
    out
}

impl<'a> Wording<'a> {
    /// Words the reason for the failing entries `missing`.
    pub fn compose(&self, missing: &Vec<Vec<char>>) -> (out: Vec<char>)
        ensures
            out@ == self.reason(views(missing@)),
    {
        let mut out: Vec<char> = Vec::new();
        if missing.len() == 1 {
            append_str(&mut out, self.one_before);
            append_chars(&mut out, &missing[0]);
            append_str(&mut out, self.one_after);
            assert(out@ == self.one_before@ + missing@[0]@ + self.one_after@);
        } else if missing.len() > 1 {
            let sep = chars_of(self.between);
            let joined = join_chars(missing, &sep);
            append_str(&mut out, self.many_before);
            append_chars(&mut out, &joined);
            append_str(&mut out, self.many_after);
            assert(out@ == self.many_before@ + joined@ + self.many_after@);
        }
        out
    }

    /// The verdict on the entries `names` with the probe outcomes `ok`:
    /// satisfied when every probe succeeded, else the reason naming each
    /// entry whose probe failed.
    pub fn judge(&self, names: &Vec<Vec<char>>, ok: &Vec<bool>) -> (r: (bool, Vec<char>))
        ensures
            r.0 == all_ok(views(names@), ok@),
            r.1@ == self.reason(failures(views(names@), ok@)),
    {
        let missing = collect_failures(names, ok);
        proof {
            lemma_failures(views(names@), ok@);
        }
        let reason = self.compose(&missing);
        (missing.len() == 0, reason)
    }
}

impl<'a> Wording<'a> {
    /// The verdict on the condition `attr_str`, whose entries are the pieces
    /// between its commas, each without the white space around it, with the
    /// probe outcomes `ok`.
    pub fn judge_listed(&self, attr_str: &str, ok: &Vec<bool>) -> (r: (bool, String))
        ensures
            r.0 == all_ok(trimmed_entries(attr_str@), ok@),
            r.1@ == self.reason(failures(trimmed_entries(attr_str@), ok@)),
            self.one_before@.len() > 0 && self.many_before@.len() > 0 ==> (r.0 <==> r.1@.len()
                == 0),
    {
        let attr = chars_of(attr_str);
        let names = parse_entries(&attr);
        let verdict = self.judge(&names, ok);
        proof {
            lemma_failures(trimmed_entries(attr_str@), ok@);
        }
        (verdict.0, string_of(&verdict.1))
    }
}

/// What is probed for each entry of the condition `attr_str`: the entry
/// without the white space and then without the double quotes around it.
pub open spec fn targets(attr: Seq<char>) -> Seq<Seq<char>> {
    Seq::new(trimmed_entries(attr).len(), |i: int| unquoted(trimmed_entries(attr)[i]))
}

/// What is probed for each entry of the condition `attr_str`.
pub fn parse_targets(attr_str: &str) -> (out: Vec<String>)
    ensures
        string_views(out@) == targets(attr_str@),
{
    let attr = chars_of(attr_str);
    let names = parse_entries(&attr);
    let mut out: Vec<String> = Vec::new();
    let mut i: usize = 0;
    while i < names.len()
        invariant
            i <= names.len(),
            views(names@) == trimmed_entries(attr_str@),
            string_views(out@) == targets(attr_str@).take(i as int),
        decreases names.len() - i,
    {
        let bare = unquote_chars(&names[i]);
        let target = string_of(&bare);
        proof {
            assert(views(names@)[i as int] == names@[i as int]@);
            assert(string_views(out@.push(target)) == string_views(out@).push(target@));
            assert(targets(attr_str@).take(i + 1) == targets(attr_str@).take(i as int).push(
                targets(attr_str@)[i as int],
            ));
        }
        out.push(target);
        i += 1;
    }
    assert(targets(attr_str@).take(names.len() as int) == targets(attr_str@));
    out
}

/// The outcome of a condition, its reason taken by its characters: the
/// verdict, or the fault of the argument text.
pub open spec fn verdict_view(outcome: Result<(bool, String), ConfigError>) -> Result<
    (bool, Seq<char>),
    ConfigError,
> {
    match outcome {
        Ok(v) => Ok((v.0, v.1@)),
        Err(fault) => Err(fault),
    }
}

/// Whether the outcome `r` of a condition is `v`.
pub open spec fn is_outcome(
    r: Result<(bool, String), ConfigError>,
    v: Result<(bool, Seq<char>), ConfigError>,
) -> bool {
    verdict_view(r) == v
}

} // verus!
