//! Conditions on the variables of the process environment: that each named
//! variable is set, or that none is.
//!
//! The environment is handed in as the list of the names that are set.

use vstd::prelude::*;
use crate::reason::{all_ok, failures, lemma_failures, reason_text, succeeded, Wording};
use crate::split::{entries, join, lemma_split_first, lemma_split_single};
use crate::text::{chars_of, string_of, string_views, views};
use crate::trim::{is_space, lemma_strip_clean, parse_entries, trimmed_entries};

verus! {

/// The variable names that an argument text lists: its entries, each without
/// the white space around it.
pub open spec fn var_names(attr: Seq<char>) -> Seq<Seq<char>> {
    trimmed_entries(attr)
}

/// For each name, whether it is among the set variables `env`.
pub open spec fn presence(names: Seq<Seq<char>>, env: Seq<Seq<char>>) -> Seq<bool> {
    Seq::new(names.len(), |i: int| env.contains(names[i]))
}

/// For each name, whether it is not among the set variables `env`.
pub open spec fn absence(names: Seq<Seq<char>>, env: Seq<Seq<char>>) -> Seq<bool> {
    Seq::new(names.len(), |i: int| !env.contains(names[i]))
}

/// The reason given for the unset variables `missing`.
pub open spec fn missing_reason(missing: Seq<Seq<char>>) -> Seq<char> {
    reason_text(
        missing,
        "because variable "@,
        " not found"@,
        "because following variables not found:\n"@,
        ", "@,
        "\n"@,
    )
}

/// The reason given for the set variables `found` that should be unset.
pub open spec fn found_reason(found: Seq<Seq<char>>) -> Seq<char> {
    reason_text(
        found,
        "because variable "@,
        " was found"@,
        "because following variables were found:\n"@,
        ", "@,
        "\n"@,
    )
}

/// The verdict of the presence condition `attr` in the environment `env`.
pub open spec fn env_verdict(attr: Seq<char>, env: Seq<Seq<char>>) -> (bool, Seq<char>) {
    let names = var_names(attr);
    (
        forall|i: int| 0 <= i < names.len() ==> env.contains(#[trigger] names[i]),
        missing_reason(failures(names, presence(names, env))),
    )
}

/// The verdict of the absence condition `attr` in the environment `env`.
pub open spec fn no_env_verdict(attr: Seq<char>, env: Seq<Seq<char>>) -> (bool, Seq<char>) {
    let names = var_names(attr);
    (
        forall|i: int| 0 <= i < names.len() ==> !env.contains(#[trigger] names[i]),
        found_reason(failures(names, absence(names, env))),
    )
}

/// Whether `name` is among the strings of `env`.
fn is_set(env: &Vec<String>, name: &Vec<char>) -> (r: bool)
    ensures
        r == string_views(env@).contains(name@),
{
    let mut i: usize = 0;
    while i < env.len()
        invariant
            i <= env.len(),
            forall|j: int| 0 <= j < i ==> string_views(env@)[j] != name@,
        decreases env.len() - i,
    {
        let candidate = chars_of(env[i].as_str());
        if crate::text::same_chars(&candidate, name) {
            assert(string_views(env@)[i as int] == name@);
            return true;
        }
        i += 1;
    }
    false
}

/// For each name, whether it is set in `env`, or, with `want_set` false,
/// whether it is unset.
fn probe_names(names: &Vec<Vec<char>>, env: &Vec<String>, want_set: bool) -> (ok: Vec<bool>)
    ensures
        want_set ==> ok@ == presence(views(names@), string_views(env@)),
        !want_set ==> ok@ == absence(views(names@), string_views(env@)),
{
    let mut ok: Vec<bool> = Vec::new();
    let mut i: usize = 0;
    while i < names.len()
        invariant
            i <= names.len(),
            want_set ==> ok@ == presence(views(names@), string_views(env@)).take(i as int),
            !want_set ==> ok@ == absence(views(names@), string_views(env@)).take(i as int),
        decreases names.len() - i,
    {
        let set = is_set(env, &names[i]);
        ok.push(set == want_set);
        proof {
            let all = if want_set {
                presence(views(names@), string_views(env@))
            } else {
                absence(views(names@), string_views(env@))
            };
            assert(all.take(i + 1) == all.take(i as int).push(all[i as int]));
        }
        i += 1;
    }
    proof {
        let p = presence(views(names@), string_views(env@));
        let a = absence(views(names@), string_views(env@));
        assert(p.take(names.len() as int) == p);
        assert(a.take(names.len() as int) == a);
    }
    ok
}

/// Whether every variable that `attr_str` names is set, where `set_vars`
/// holds the names of the variables that are set; if not, the reason names
/// each variable that is missing.
pub fn check_env_condition(attr_str: String, set_vars: &Vec<String>) -> (r: (bool, String))
    ensures
        (r.0, r.1@) == env_verdict(attr_str@, string_views(set_vars@)),
        r.0 <==> r.1@.len() == 0,
{
    let attr = chars_of(attr_str.as_str());
    let names = parse_entries(&attr);
    let ok = probe_names(&names, set_vars, true);
    let wording = Wording {
        one_before: "because variable ",
        one_after: " not found",
        many_before: "because following variables not found:\n",
        between: ", ",
        many_after: "\n",
    };
    let verdict = wording.judge(&names, &ok);
    proof {
        let ns = var_names(attr_str@);
        let env = string_views(set_vars@);
        assert(all_ok(ns, ok@) <==> env_verdict(attr_str@, env).0) by {
            if all_ok(ns, ok@) {
                assert forall|i: int| 0 <= i < ns.len() implies env.contains(#[trigger] ns[i]) by {
                    assert(succeeded(ok@, i));
                }
            }
            if env_verdict(attr_str@, env).0 {
                assert forall|i: int| 0 <= i < ns.len() implies #[trigger] succeeded(ok@, i) by {
                    assert(env.contains(ns[i]));
                }
            }
        }
        lemma_env_reason(attr_str@, env);
    }
    (verdict.0, string_of(&verdict.1))
}

/// Whether every variable that `attr_str` names is unset, where `set_vars`
/// holds the names of the variables that are set; if not, the reason names
/// each variable that was found.
pub fn check_no_env_condition(attr_str: String, set_vars: &Vec<String>) -> (r: (bool, String))
    ensures
        (r.0, r.1@) == no_env_verdict(attr_str@, string_views(set_vars@)),
        r.0 <==> r.1@.len() == 0,
{
    let attr = chars_of(attr_str.as_str());
    let names = parse_entries(&attr);
    let ok = probe_names(&names, set_vars, false);
    let wording = Wording {
        one_before: "because variable ",
        one_after: " was found",
        many_before: "because following variables were found:\n",
        between: ", ",
        many_after: "\n",
    };
    let verdict = wording.judge(&names, &ok);
    proof {
        let ns = var_names(attr_str@);
        let env = string_views(set_vars@);
        assert(all_ok(ns, ok@) <==> no_env_verdict(attr_str@, env).0) by {
            if all_ok(ns, ok@) {
                assert forall|i: int| 0 <= i < ns.len() implies !env.contains(#[trigger] ns[i]) by {
                    assert(succeeded(ok@, i));
                }
            }
            if no_env_verdict(attr_str@, env).0 {
                assert forall|i: int| 0 <= i < ns.len() implies #[trigger] succeeded(ok@, i) by {
                    assert(!env.contains(ns[i]));
                }
            }
        }
        lemma_no_env_reason(attr_str@, env);
    }
    (verdict.0, string_of(&verdict.1))
}

/// The presence condition gives a reason exactly where it is not satisfied.
pub proof fn lemma_env_reason(attr: Seq<char>, env: Seq<Seq<char>>)
    ensures
        env_verdict(attr, env).0 <==> env_verdict(attr, env).1.len() == 0,
{
    let names = var_names(attr);
    let ok = presence(names, env);
    lemma_failures(names, ok);
    reveal_strlit("because variable ");
    reveal_strlit("because following variables not found:\n");
    if all_ok(names, ok) {
        assert forall|i: int| 0 <= i < names.len() implies env.contains(#[trigger] names[i]) by {
            assert(succeeded(ok, i));
        }
    }
    if env_verdict(attr, env).0 {
        assert forall|i: int| 0 <= i < names.len() implies #[trigger] succeeded(ok, i) by {
            assert(env.contains(names[i]));
        }
    }
}

/// The absence condition gives a reason exactly where it is not satisfied.
pub proof fn lemma_no_env_reason(attr: Seq<char>, env: Seq<Seq<char>>)
    ensures
        no_env_verdict(attr, env).0 <==> no_env_verdict(attr, env).1.len() == 0,
{
    let names = var_names(attr);
    let ok = absence(names, env);
    lemma_failures(names, ok);
    reveal_strlit("because variable ");
    reveal_strlit("because following variables were found:\n");
    if all_ok(names, ok) {
        assert forall|i: int| 0 <= i < names.len() implies !env.contains(#[trigger] names[i]) by {
            assert(succeeded(ok, i));
        }
    }
    if no_env_verdict(attr, env).0 {
        assert forall|i: int| 0 <= i < names.len() implies #[trigger] succeeded(ok, i) by {
            assert(!env.contains(names[i]));
        }
    }
}

/// Whether `name` can stand as one entry that names itself: it holds no
/// comma and no white space at its ends.
pub open spec fn plain_name(name: Seq<char>) -> bool {
    &&& !name.contains(',')
    &&& name.len() > 0 ==> !is_space(name[0]) && !is_space(name.last())
}

/// An argument text that is one plain name lists that name.
pub proof fn lemma_one_name(name: Seq<char>)
    requires
        plain_name(name),
    ensures
        var_names(name) == seq![name],
{
    lemma_split_single(name, ',');
    lemma_strip_clean(name, None);
    assert(var_names(name) =~= seq![name]);
}

/// An argument text of two plain names with a comma between them lists the
/// two.
pub proof fn lemma_two_names(a: Seq<char>, b: Seq<char>)
    requires
        plain_name(a),
        plain_name(b),
    ensures
        var_names(a + seq![','] + b) == seq![a, b],
{
    lemma_split_first(a, ',', b);
    lemma_split_single(b, ',');
    lemma_strip_clean(a, None);
    lemma_strip_clean(b, None);
    assert(entries(a + seq![','] + b) =~= seq![a, b]);
    assert(var_names(a + seq![','] + b) =~= seq![a, b]);
}

/// A variable that is set satisfies the presence condition on its name, and
/// no reason is given.
pub proof fn law_set_variable_is_present(name: Seq<char>, env: Seq<Seq<char>>)
    requires
        plain_name(name),
        env.contains(name),
    ensures
        env_verdict(name, env) == (true, Seq::<char>::empty()),
{
    lemma_one_name(name);
    lemma_env_reason(name, env);
    assert(env_verdict(name, env).1 =~= Seq::<char>::empty());
}

/// A variable that is unset fails the presence condition on its name, and
/// the reason holds that name.
pub proof fn law_unset_variable_is_missing(name: Seq<char>, env: Seq<Seq<char>>)
    requires
        plain_name(name),
        !env.contains(name),
    ensures
        env_verdict(name, env) == (false, "because variable "@ + name + " not found"@),
{
    lemma_one_name(name);
    let names = seq![name];
    let ok = presence(names, env);
    assert(!env.contains(names[0]));
    assert(names.drop_last() =~= Seq::<Seq<char>>::empty());
    assert(failures(names, ok) =~= seq![name]) by {
        reveal_with_fuel(failures, 2);
    }
}

/// Two variables that are unset fail the presence condition on both names,
/// and the reason holds both, with a comma and a blank between them.
pub proof fn law_two_unset_variables_are_missing(
    a: Seq<char>,
    b: Seq<char>,
    env: Seq<Seq<char>>,
)
    requires
        plain_name(a),
        plain_name(b),
        !env.contains(a),
        !env.contains(b),
    ensures
        env_verdict(a + seq![','] + b, env) == (
            false,
            "because following variables not found:\n"@ + (a + ", "@ + b) + "\n"@,
        ),
{
    lemma_two_names(a, b);
    let names = seq![a, b];
    let ok = presence(names, env);
    assert(!env.contains(names[0]));
    assert(names.drop_last() =~= seq![a]);
    assert(seq![a].drop_last() =~= Seq::<Seq<char>>::empty());
    assert(failures(names, ok) =~= seq![a, b]) by {
        reveal_with_fuel(failures, 3);
    }
    assert(join(names, ", "@) == a + ", "@ + b) by {
        reveal_with_fuel(join, 3);
    }
}

/// The absence condition on one name is satisfied exactly where the variable
/// is unset; where it is set, the reason holds its name.
pub proof fn law_absence_of_one_variable(name: Seq<char>, env: Seq<Seq<char>>)
    requires
        plain_name(name),
    ensures
        no_env_verdict(name, env).0 == !env.contains(name),
        !env.contains(name) ==> no_env_verdict(name, env).1 == Seq::<char>::empty(),
        env.contains(name) ==> no_env_verdict(name, env).1 == "because variable "@ + name
            + " was found"@,
{
    lemma_one_name(name);
    lemma_no_env_reason(name, env);
    let names = seq![name];
    let ok = absence(names, env);
    if env.contains(name) {
        assert(env.contains(names[0]));
        assert(names.drop_last() =~= Seq::<Seq<char>>::empty());
        assert(failures(names, ok) =~= seq![name]) by {
            reveal_with_fuel(failures, 2);
        }
    } else {
        assert(no_env_verdict(name, env).1 =~= Seq::<char>::empty());
    }
}

/// Absence is no negation of presence: with one variable set and one unset,
/// neither the presence condition nor the absence condition on the two names
/// is satisfied.
pub proof fn law_absence_is_not_negated_presence(a: Seq<char>, b: Seq<char>, env: Seq<Seq<char>>)
    requires
        plain_name(a),
        plain_name(b),
        env.contains(a),
        !env.contains(b),
    ensures
        !env_verdict(a + seq![','] + b, env).0,
        !no_env_verdict(a + seq![','] + b, env).0,
{
    lemma_two_names(a, b);
    let names = seq![a, b];
    assert(names[0] == a);
    assert(names[1] == b);
}

} // verus!
