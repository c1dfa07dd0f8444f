//! Conditions on the file system: that each listed path is a regular file,
//! or that each exists at all.

use vstd::prelude::*;
use crate::reason::{all_ok, failures, parse_targets, reason_text, targets, Wording};
use crate::trim::trimmed_entries;

verus! {

/// The reason given for the entries `missing` that are no regular files.
pub open spec fn file_reason(missing: Seq<Seq<char>>) -> Seq<char> {
    reason_text(
        missing,
        "because file not found: "@,
        ""@,
        "because following files not found: \n"@,
        "\n"@,
        "\n"@,
    )
}

/// The reason given for the entries `missing` that do not exist.
pub open spec fn path_reason(missing: Seq<Seq<char>>) -> Seq<char> {
    reason_text(
        missing,
        "because path not found: "@,
        ""@,
        "because following paths not found: \n"@,
        "\n"@,
        "\n"@,
    )
}

/// The verdict of the file condition `attr`, where `ok` says of each entry
/// whether it is a regular file.
pub open spec fn file_verdict(attr: Seq<char>, ok: Seq<bool>) -> (bool, Seq<char>) {
    (all_ok(trimmed_entries(attr), ok), file_reason(failures(trimmed_entries(attr), ok)))
}

/// The verdict of the path condition `attr`, where `ok` says of each entry
/// whether it exists.
pub open spec fn path_verdict(attr: Seq<char>, ok: Seq<bool>) -> (bool, Seq<char>) {
    (all_ok(trimmed_entries(attr), ok), path_reason(failures(trimmed_entries(attr), ok)))
}

/// `std::path::Path::is_file` on the path that `path` spells: whether it
/// leads to a regular file. The answer depends on the file system, so
/// nothing is claimed of it.
#[verifier::external_body]
fn path_is_file(path: &str) -> bool {
    std::path::Path::new(path).is_file()
}

/// `std::path::Path::exists` on the path that `path` spells: whether it
/// leads to anything. The answer depends on the file system, so nothing is
/// claimed of it.
#[verifier::external_body]
fn path_exists(path: &str) -> bool {
    std::path::Path::new(path).exists()
}

/// The verdict of the file condition `attr_str`, where `is_file` says of
/// each entry whether its path is a regular file.
pub fn judge_files(attr_str: &str, is_file: &Vec<bool>) -> (r: (bool, String))
    ensures
        (r.0, r.1@) == file_verdict(attr_str@, is_file@),
        r.0 <==> r.1@.len() == 0,
{
    let wording = Wording {
        one_before: "because file not found: ",
        one_after: "",
        many_before: "because following files not found: \n",
        between: "\n",
        many_after: "\n",
    };
    proof {
        reveal_strlit("because file not found: ");
        reveal_strlit("because following files not found: \n");
    }
    wording.judge_listed(attr_str, is_file)
}

/// The verdict of the path condition `attr_str`, where `exists` says of each
/// entry whether its path exists.
pub fn judge_paths(attr_str: &str, exists: &Vec<bool>) -> (r: (bool, String))
    ensures
        (r.0, r.1@) == path_verdict(attr_str@, exists@),
        r.0 <==> r.1@.len() == 0,
{
    let wording = Wording {
        one_before: "because path not found: ",
        one_after: "",
        many_before: "because following paths not found: \n",
        between: "\n",
        many_after: "\n",
    };
    proof {
        reveal_strlit("because path not found: ");
        reveal_strlit("because following paths not found: \n");
    }
    wording.judge_listed(attr_str, exists)
}

/// For each path that `attr_str` lists, whether it is a regular file now.
pub(crate) fn probe_files(attr_str: &str) -> (ok: Vec<bool>)
    ensures
        ok.len() == targets(attr_str@).len(),
{
    let paths = parse_targets(attr_str);
    let mut ok: Vec<bool> = Vec::new();
    let mut i: usize = 0;
    while i < paths.len()
        invariant
            i <= paths.len(),
            ok.len() == i,
        decreases paths.len() - i,
    {
        ok.push(path_is_file(paths[i].as_str()));
        i += 1;
    }
    ok
}

/// For each path that `attr_str` lists, whether it exists now.
pub(crate) fn probe_paths(attr_str: &str) -> (ok: Vec<bool>)
    ensures
        ok.len() == targets(attr_str@).len(),
{
    let paths = parse_targets(attr_str);
    let mut ok: Vec<bool> = Vec::new();
    let mut i: usize = 0;
    while i < paths.len()
        invariant
            i <= paths.len(),
            ok.len() == i,
        decreases paths.len() - i,
    {
        ok.push(path_exists(paths[i].as_str()));
        i += 1;
    }
    ok
}

/// Whether every path that `attr_str` lists is a regular file; if not, the
/// reason names each entry that is none. A directory is no file.
pub fn check_file_condition(attr_str: String) -> (r: (bool, String))
    ensures
        exists|ok: Seq<bool>|
            ok.len() == targets(attr_str@).len() && (r.0, r.1@) == #[trigger] file_verdict(
                attr_str@,
                ok,
            ),
        r.0 <==> r.1@.len() == 0,
{
    let ok = probe_files(attr_str.as_str());
    judge_files(attr_str.as_str(), &ok)
}

/// Whether every path that `attr_str` lists exists, as a file or as a
/// directory; if not, the reason names each entry that does not.
pub fn check_path_condition(attr_str: String) -> (r: (bool, String))
    ensures
        exists|ok: Seq<bool>|
            ok.len() == targets(attr_str@).len() && (r.0, r.1@) == #[trigger] path_verdict(
                attr_str@,
                ok,
            ),
        r.0 <==> r.1@.len() == 0,
{
    let ok = probe_paths(attr_str.as_str());
    judge_paths(attr_str.as_str(), &ok)
}

} // verus!
