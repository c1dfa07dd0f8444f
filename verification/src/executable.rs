//! The condition on executables of the search path: that all of a list are
//! found, or, with `||` between them, that one is.

use vstd::prelude::*;
use crate::error::ConfigError;
use crate::reason::{
    all_ok, failures, is_outcome, parse_targets, reason_text, succeeded, targets, Wording,
};
use crate::split::{comma, contains_text, has_text, split_by, split_chars};
use crate::text::{append_str, chars_of, string_of, string_views, views};
use crate::trim::{trim_chars, trimmed, trimmed_entries, unquote_chars, unquoted};

verus! {

/// Whether the argument text uses both `,` and `||`.
pub open spec fn is_mixed(attr: Seq<char>) -> bool {
    contains_text(attr, comma()) && contains_text(attr, "||"@)
}

/// Whether the argument text lists alternatives: whether it holds `||`.
pub open spec fn is_choice(attr: Seq<char>) -> bool {
    contains_text(attr, "||"@)
}

/// The executables of which one is asked for: the pieces between the `||`,
/// each without the white space and then without the double quotes around
/// it.
pub open spec fn alternatives(attr: Seq<char>) -> Seq<Seq<char>> {
    Seq::new(split_by(attr, "||"@).len(), |i: int| unquoted(trimmed(split_by(attr, "||"@)[i])))
}

/// The names that are looked up on the search path for the condition
/// `attr`.
pub open spec fn executable_names(attr: Seq<char>) -> Seq<Seq<char>> {
    if is_choice(attr) {
        alternatives(attr)
    } else {
        targets(attr)
    }
}

/// Whether one of the first `n` lookups is recorded as a success.
pub open spec fn any_found(found: Seq<bool>, n: int) -> bool {
    exists|i: int| 0 <= i < n && #[trigger] succeeded(found, i)
}

/// The reason given for the executables `missing` of a list of which all
/// are asked for.
pub open spec fn missing_executables_reason(missing: Seq<Seq<char>>) -> Seq<char> {
    reason_text(
        missing,
        "because executable not found: "@,
        ""@,
        "because following executables not found: \n"@,
        "\n"@,
        "\n"@,
    )
}

/// The verdict of the executable condition `attr`, where `found` says of
/// each name whether it was found on the search path. Using both `,` and
/// `||` is a fault.
pub open spec fn executable_verdict(attr: Seq<char>, found: Seq<bool>) -> Result<
    (bool, Seq<char>),
    ConfigError,
> {
    if is_mixed(attr) {
        Err(ConfigError::MixedCombinators)
    } else if is_choice(attr) {
        if any_found(found, alternatives(attr).len() as int) {
            Ok((true, Seq::empty()))
        } else {
            Ok((false, "because none of executables can be found: "@ + attr))
        }
    } else {
        Ok(
            (
                all_ok(trimmed_entries(attr), found),
                missing_executables_reason(failures(trimmed_entries(attr), found)),
            ),
        )
    }
}

/// `which::which`: whether an executable of this name is found, on the
/// search path or at the path that the name spells. The answer depends on
/// the environment and the file system, so nothing is claimed of it.
#[verifier::external_body]
fn executable_found(name: &str) -> bool {
    which::which(name).is_ok()
}

fn reads_mixed(attr: &Vec<char>) -> (r: (bool, bool))
    ensures
        r.0 == contains_text(attr@, comma()),
        r.1 == is_choice(attr@),
{
    let mut pat: Vec<char> = Vec::new();
    pat.push(',');
    assert(pat@ == comma());
    let bars = chars_of("||");
    (has_text(attr, &pat), has_text(attr, &bars))
}

/// The names that are looked up on the search path for the condition
/// `attr_str`; a fault where the text uses both `,` and `||`.
pub fn parse_executables(attr_str: &str) -> (r: Result<Vec<String>, ConfigError>)
    ensures
        match r {
            Err(fault) => is_mixed(attr_str@) && fault == ConfigError::MixedCombinators,
            Ok(names) => !is_mixed(attr_str@) && string_views(names@) == executable_names(
                attr_str@,
            ),
        },
{
    let attr = chars_of(attr_str);
    let kind = reads_mixed(&attr);
    if kind.0 && kind.1 {
        return Err(ConfigError::MixedCombinators);
    }
    if !kind.1 {
        return Ok(parse_targets(attr_str));
    }
    let bars = chars_of("||");
    let pieces = split_chars(&attr, &bars);
    let mut names: Vec<String> = Vec::new();
    let mut i: usize = 0;
    while i < pieces.len()
        invariant
            i <= pieces.len(),
            views(pieces@) == split_by(attr_str@, "||"@),
            string_views(names@) == alternatives(attr_str@).take(i as int),
        decreases pieces.len() - i,
    {
        let bare = unquote_chars(&trim_chars(&pieces[i]));
        let name = string_of(&bare);
        proof {
            assert(views(pieces@)[i as int] == pieces@[i as int]@);
            assert(string_views(names@.push(name)) == string_views(names@).push(name@));
            assert(alternatives(attr_str@).take(i + 1) == alternatives(attr_str@).take(
                i as int,
            ).push(alternatives(attr_str@)[i as int]));
        }
        names.push(name);
        i += 1;
    }
    assert(alternatives(attr_str@).take(pieces.len() as int) == alternatives(attr_str@));
    Ok(names)
}

fn any_success(found: &Vec<bool>, n: usize) -> (r: bool)
    ensures
        r == any_found(found@, n as int),
{
    let mut i: usize = 0;
    while i < n && i < found.len()
        invariant
            forall|j: int| 0 <= j < i ==> !#[trigger] succeeded(found@, j),
        decreases n - i,
    {
        if found[i] {
            assert(succeeded(found@, i as int));
            return true;
        }
        i += 1;
    }
    false
}

/// The verdict of the executable condition `attr_str`, where `found` says
/// of each name, in the order of `parse_executables`, whether it was found.
/// A list with commas is satisfied where every name was found, and the
/// reason names each that was not. A list with `||` is satisfied where one
/// name was found, and the reason holds the whole argument text. A name
/// without a recorded lookup counts as not found.
pub fn judge_executables(attr_str: &str, found: &Vec<bool>) -> (r: Result<
    (bool, String),
    ConfigError,
>)
    ensures
        is_outcome(r, executable_verdict(attr_str@, found@)),
        r matches Ok(v) ==> (v.0 <==> v.1@.len() == 0),
{
    let names = match parse_executables(attr_str) {
        Err(fault) => {
            return Err(fault);
        },
        Ok(names) => names,
    };
    let attr = chars_of(attr_str);
    let kind = reads_mixed(&attr);
    if kind.1 {
        if any_success(found, names.len()) {
            Ok((true, String::new()))
        } else {
            let mut reason: Vec<char> = Vec::new();
            append_str(&mut reason, "because none of executables can be found: ");
            append_str(&mut reason, attr_str);
            proof {
                reveal_strlit("because none of executables can be found: ");
            }
            Ok((false, string_of(&reason)))
        }
    } else {
        let wording = Wording {
            one_before: "because executable not found: ",
            one_after: "",
            many_before: "because following executables not found: \n",
            between: "\n",
            many_after: "\n",
        };
        proof {
            reveal_strlit("because executable not found: ");
            reveal_strlit("because following executables not found: \n");
        }
        Ok(wording.judge_listed(attr_str, found))
    }
}

/// For each name that is looked up for the condition `attr_str`, whether an
/// executable of that name is found now; nothing is looked up where the
/// text uses both `,` and `||`.
pub(crate) fn probe_executables(attr_str: &str) -> (found: Vec<bool>)
    ensures
        is_mixed(attr_str@) ==> found.len() == 0,
        !is_mixed(attr_str@) ==> found.len() == executable_names(attr_str@).len(),
{
    let mut found: Vec<bool> = Vec::new();
    let names = match parse_executables(attr_str) {
        Err(_) => {
            return found;
        },
        Ok(names) => names,
    };
    let mut i: usize = 0;
    while i < names.len()
        invariant
            i <= names.len(),
            found.len() == i,
        decreases names.len() - i,
    {
        found.push(executable_found(names[i].as_str()));
        i += 1;
    }
    found
}

/// Whether the executables that `attr_str` asks for are found: each name
/// is looked up, and the outcome is the verdict for what the lookups gave.
/// Where the text uses both `,` and `||`, nothing is looked up.
pub fn check_executable_condition(attr_str: String) -> (r: Result<(bool, String), ConfigError>)
    ensures
        is_mixed(attr_str@) <==> r is Err,
        exists|found: Seq<bool>| is_outcome(r, #[trigger] executable_verdict(attr_str@, found)),
        r matches Ok(v) ==> (v.0 <==> v.1@.len() == 0),
{
    let found = probe_executables(attr_str.as_str());
    judge_executables(attr_str.as_str(), &found)
}

} // verus!
