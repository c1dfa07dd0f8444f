//! Conditions on who runs the tests: the superuser, a user by name, or a
//! member of a group.

use vstd::prelude::*;
use crate::text::{append_str, chars_of, is_text, string_of, string_views};

verus! {

/// `uzers::get_current_uid`: the number of the user who runs the process.
/// It depends on the process, so nothing is claimed of it.
pub assume_specification[ uzers::get_current_uid ]() -> uzers::uid_t;

/// What the host knows of the groups of a user.
#[derive(Debug, Clone, PartialEq, Eq)]
pub enum Membership {
    /// The host does not know the user.
    UnknownUser,
    /// The host knows the user, but not the groups of the user.
    UnknownGroups,
    /// The names of the groups that the user is a member of.
    Groups(Vec<String>),
}

impl Membership {
    /// The names of the groups that count as those of the user: the names
    /// that the host gives, and none where it gives none.
    pub open spec fn names(self) -> Seq<Seq<char>> {
        match self {
            Membership::Groups(list) => string_views(list@),
            _ => Seq::empty(),
        }
    }
}

/// `uzers::get_user_by_uid` for the user with the number `uid`,
/// `User::groups` of that user and `Group::name` of each group, with what is
/// no text in a name replaced as `to_string_lossy` does: what the user and
/// group databases of the host hold. Nothing is claimed of it.
#[verifier::external_body]
fn look_up_groups(uid: u32) -> Membership {
    match uzers::get_user_by_uid(uid) {
        None => Membership::UnknownUser,
        Some(user) => match user.groups() {
            None => Membership::UnknownGroups,
            Some(groups) => Membership::Groups(
                groups.iter().map(|group| group.name().to_string_lossy().into_owned()).collect(),
            ),
        },
    }
}

/// `uzers::get_current_username`: the name of the user who runs the
/// process, with what is no text in it replaced as `to_string_lossy` does;
/// nothing where the user is unknown to the host. It comes from the user
/// database of the host, so nothing is claimed of it.
#[verifier::external_body]
pub(crate) fn current_username() -> Option<String> {
    uzers::get_current_username().map(|name| name.to_string_lossy().into_owned())
}

/// The verdict of the condition to run as the superuser, for the user with
/// the number `uid`.
pub open spec fn root_verdict(uid: u32) -> (bool, Seq<char>) {
    if uid == 0 {
        (true, Seq::empty())
    } else {
        (false, "because this case should run with root"@)
    }
}

/// The verdict of the condition to run as a member of the group `name`,
/// for a user in the groups `groups`.
pub open spec fn group_verdict(name: Seq<char>, groups: Seq<Seq<char>>) -> (bool, Seq<char>) {
    if groups.contains(name) {
        (true, Seq::empty())
    } else {
        (false, "because this case should run user in group "@ + name)
    }
}

/// The verdict of the condition to run as the user `name`, for the user
/// with the name `current`, if the host knows one.
pub open spec fn user_verdict(name: Seq<char>, current: Option<Seq<char>>) -> (bool, Seq<char>) {
    if current == Some(name) {
        (true, Seq::empty())
    } else {
        (false, "because this case should run with user "@ + name)
    }
}

/// The characters of a name, where there is one.
pub open spec fn option_view(name: Option<String>) -> Option<Seq<char>> {
    match name {
        Some(text) => Some(text@),
        None => None,
    }
}

/// The verdict of the condition to run as the superuser, for the user with
/// the number `uid`: satisfied where the number is 0.
pub fn judge_root(uid: u32) -> (r: (bool, String))
    ensures
        (r.0, r.1@) == root_verdict(uid),
        r.0 <==> r.1@.len() == 0,
{
    if uid == 0 {
        (true, String::new())
    } else {
        proof {
            reveal_strlit("because this case should run with root");
        }
        (false, "because this case should run with root".to_owned())
    }
}

/// The verdict of the condition to run as a member of the group
/// `group_name`, for a user in the groups `groups`: satisfied where the name
/// is among them.
pub fn judge_group(group_name: &str, groups: &Vec<String>) -> (r: (bool, String))
    ensures
        (r.0, r.1@) == group_verdict(group_name@, string_views(groups@)),
        r.0 <==> r.1@.len() == 0,
{
    let mut i: usize = 0;
    while i < groups.len()
        invariant
            i <= groups.len(),
            forall|j: int| 0 <= j < i ==> string_views(groups@)[j] != group_name@,
        decreases groups.len() - i,
    {
        let candidate = chars_of(groups[i].as_str());
        if is_text(&candidate, group_name) {
            assert(string_views(groups@)[i as int] == group_name@);
            return (true, String::new());
        }
        i += 1;
    }
    let mut reason: Vec<char> = Vec::new();
    append_str(&mut reason, "because this case should run user in group ");
    append_str(&mut reason, group_name);
    proof {
        reveal_strlit("because this case should run user in group ");
    }
    (false, string_of(&reason))
}

/// The verdict of the condition to run as the user `user_name`, for the
/// user with the name `current`, if the host knows one: satisfied where the
/// two names are the same.
pub fn judge_user(user_name: &str, current: &Option<String>) -> (r: (bool, String))
    ensures
        (r.0, r.1@) == user_verdict(user_name@, option_view(*current)),
        r.0 <==> r.1@.len() == 0,
{
    let same = match current {
        Some(name) => {
            let chars = chars_of(name.as_str());
            is_text(&chars, user_name)
        },
        None => false,
    };
    if same {
        return (true, String::new());
    }
    let mut reason: Vec<char> = Vec::new();
    append_str(&mut reason, "because this case should run with user ");
    append_str(&mut reason, user_name);
    proof {
        reveal_strlit("because this case should run with user ");
    }
    (false, string_of(&reason))
}

/// The names of the groups that count as those of the user who runs the
/// process, where `known` is what the host knows of them: the names that
/// the host gives, in its order, and none where the host does not know the
/// user or the groups.
pub fn current_groups(known: Membership) -> (names: Vec<String>)
    ensures
        string_views(names@) == known.names(),
{
    match known {
        Membership::Groups(list) => list,
        _ => {
            let names: Vec<String> = Vec::new();
            assert(string_views(names@) == Seq::<Seq<char>>::empty());
            names
        },
    }
}

/// The names of the groups that count as those of the user who runs the
/// process, as the host knows them now.
pub(crate) fn host_groups() -> Vec<String> {
    current_groups(look_up_groups(uzers::get_current_uid()))
}

/// Whether the superuser runs the process. The argument text is not read.
pub fn check_root_condition(_attr_str: String) -> (r: (bool, String))
    ensures
        exists|uid: u32| (r.0, r.1@) == #[trigger] root_verdict(uid),
        r.0 <==> r.1@.len() == 0,
{
    judge_root(uzers::get_current_uid())
}

/// Whether the user who runs the process is in the group `group_name`.
pub fn check_group_condition(group_name: String) -> (r: (bool, String))
    ensures
        exists|groups: Seq<Seq<char>>| (r.0, r.1@) == #[trigger] group_verdict(group_name@, groups),
        r.0 <==> r.1@.len() == 0,
{
    let groups = host_groups();
    judge_group(group_name.as_str(), &groups)
}

/// Whether the user who runs the process has the name `user_name`.
pub fn check_user_condition(user_name: String) -> (r: (bool, String))
    ensures
        exists|current: Option<Seq<char>>|
            (r.0, r.1@) == #[trigger] user_verdict(user_name@, current),
        r.0 <==> r.1@.len() == 0,
{
    let current = current_username();
    judge_user(user_name.as_str(), &current)
}

} // verus!
