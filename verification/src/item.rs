//! What the rewrites read of an annotated item: its decorations, its name
//! and, of a module, the items that stand in it.

use vstd::prelude::*;
use crate::split::{matches_at, occurs_at};
use crate::text::{chars_of, is_text};

verus! {

/// A decoration of an item: the segments of its path, and the tokens of its
/// argument list where it has one.
#[derive(Debug, Clone, PartialEq, Eq)]
pub struct Attribute {
    pub path: Vec<String>,
    pub args: Vec<String>,
}

/// A function: its decorations, its name, whether it is asynchronous and
/// whether it names a return type.
#[derive(Debug, Clone, PartialEq, Eq)]
pub struct FnDecl {
    pub attrs: Vec<Attribute>,
    pub name: String,
    pub is_async: bool,
    pub has_output: bool,
}

/// An item that stands in a module.
#[derive(Debug, Clone, PartialEq, Eq)]
pub enum Item {
    /// A function.
    Fn(FnDecl),
    /// A structure or a type alias, with its name and whether it is public.
    Type { name: String, is_pub: bool },
    /// Anything else.
    Other,
}

impl Attribute {
    /// Whether the last segment of the path is `word`.
    pub open spec fn ends_in(&self, word: Seq<char>) -> bool {
        self.path.len() > 0 && self.path[self.path.len() - 1]@ == word
    }

    /// Whether the first segment of the path is `word`.
    pub open spec fn begins_with(&self, word: Seq<char>) -> bool {
        self.path.len() > 0 && self.path[0]@ == word
    }

    /// Whether the last segment of the path begins with `runtime_`.
    pub open spec fn is_runtime_form(&self) -> bool {
        self.path.len() > 0 && occurs_at(self.path[self.path.len() - 1]@, "runtime_"@, 0)
    }

    /// Whether `test` is among the tokens of the argument list.
    pub open spec fn names_test(&self) -> bool {
        exists|i: int| 0 <= i < self.args.len() && #[trigger] self.args[i]@ == "test"@
    }

    /// Whether the last segment of the path is `word`.
    pub fn path_ends_in(&self, word: &str) -> (r: bool)
        ensures
            r == self.ends_in(word@),
    {
        if self.path.len() == 0 {
            return false;
        }
        let last = chars_of(self.path[self.path.len() - 1].as_str());
        is_text(&last, word)
    }

    /// Whether the first segment of the path is `word`.
    pub fn path_begins_with(&self, word: &str) -> (r: bool)
        ensures
            r == self.begins_with(word@),
    {
        if self.path.len() == 0 {
            return false;
        }
        let first = chars_of(self.path[0].as_str());
        is_text(&first, word)
    }

    /// Whether the last segment of the path begins with `runtime_`.
    pub fn has_runtime_form(&self) -> (r: bool)
        ensures
            r == self.is_runtime_form(),
    {
        if self.path.len() == 0 {
            return false;
        }
        let last = chars_of(self.path[self.path.len() - 1].as_str());
        let mark = chars_of("runtime_");
        matches_at(&last, &mark, 0)
    }

    /// Whether `test` is among the tokens of the argument list.
    pub fn args_name_test(&self) -> (r: bool)
        ensures
            r == self.names_test(),
    {
        let mut i: usize = 0;
        while i < self.args.len()
            invariant
                i <= self.args.len(),
                forall|j: int| 0 <= j < i ==> #[trigger] self.args[j]@ != "test"@,
            decreases self.args.len() - i,
        {
            let token = chars_of(self.args[i].as_str());
            if is_text(&token, "test") {
                return true;
            }
            i += 1;
        }
        false
    }
}

/// Whether one of the decorations is the test marker: a path that ends in
/// `test`.
pub open spec fn marked_test(attrs: Seq<Attribute>) -> bool {
    exists|i: int| 0 <= i < attrs.len() && (#[trigger] attrs[i]).ends_in("test"@)
}

/// Whether one of the decorations is `serial`.
pub open spec fn marked_serial(attrs: Seq<Attribute>) -> bool {
    exists|i: int| 0 <= i < attrs.len() && (#[trigger] attrs[i]).ends_in("serial"@)
}

/// Whether one of the decorations comes from `test_with`.
pub open spec fn marked_test_with(attrs: Seq<Attribute>) -> bool {
    exists|i: int| 0 <= i < attrs.len() && (#[trigger] attrs[i]).begins_with("test_with"@)
}

/// Whether one of the decorations has the runtime form.
pub open spec fn marked_runtime(attrs: Seq<Attribute>) -> bool {
    exists|i: int| 0 <= i < attrs.len() && (#[trigger] attrs[i]).is_runtime_form()
}

/// Whether one of the decorations marks the item to build for tests only:
/// an argument list that holds the token `test`.
pub open spec fn marked_test_cfg(attrs: Seq<Attribute>) -> bool {
    exists|i: int| 0 <= i < attrs.len() && (#[trigger] attrs[i]).names_test()
}

/// Whether the decorations hold the test marker.
pub fn has_test_attr(attrs: &Vec<Attribute>) -> (r: bool)
    ensures
        r == marked_test(attrs@),
{
    let mut i: usize = 0;
    while i < attrs.len()
        invariant
            i <= attrs.len(),
            forall|j: int| 0 <= j < i ==> !(#[trigger] attrs[j]).ends_in("test"@),
        decreases attrs.len() - i,
    {
        if attrs[i].path_ends_in("test") {
            return true;
        }
        i += 1;
    }
    false
}

/// Three facts on the decorations of a function: whether they hold the test
/// marker, whether one comes from `test_with`, and whether one has the
/// runtime form.
pub fn test_with_attrs(attrs: &Vec<Attribute>) -> (r: (bool, bool, bool))
    ensures
        r.0 == marked_test(attrs@),
        r.1 == marked_test_with(attrs@),
        r.2 == marked_runtime(attrs@),
{
    let mut has_test = false;
    let mut has_test_with = false;
    let mut has_runtime = false;
    let mut i: usize = 0;
    while i < attrs.len()
        invariant
            i <= attrs.len(),
            has_test == marked_test(attrs@.take(i as int)),
            has_test_with == marked_test_with(attrs@.take(i as int)),
            has_runtime == marked_runtime(attrs@.take(i as int)),
        decreases attrs.len() - i,
    {
        let ghost before = attrs@.take(i as int);
        let ghost after = attrs@.take(i + 1);
        let a = attrs[i].path_ends_in("test");
        let b = attrs[i].path_begins_with("test_with");
        let c = attrs[i].has_runtime_form();
        proof {
            assert(after[i as int] == attrs@[i as int]);
            assert forall|j: int| 0 <= j < before.len() implies before[j] == after[j] by {}
            if marked_test(before) {
                let j = choose|j: int| 0 <= j < before.len() && (#[trigger] before[j]).ends_in(
                    "test"@,
                );
                assert(after[j].ends_in("test"@));
            }
            if marked_test(after) && !a {
                let j = choose|j: int| 0 <= j < after.len() && (#[trigger] after[j]).ends_in(
                    "test"@,
                );
                assert(before[j].ends_in("test"@));
            }
            if marked_test_with(before) {
                let j = choose|j: int|
                    0 <= j < before.len() && (#[trigger] before[j]).begins_with("test_with"@);
                assert(after[j].begins_with("test_with"@));
            }
            if marked_test_with(after) && !b {
                let j = choose|j: int|
                    0 <= j < after.len() && (#[trigger] after[j]).begins_with("test_with"@);
                assert(before[j].begins_with("test_with"@));
            }
            if marked_runtime(before) {
                let j = choose|j: int|
                    0 <= j < before.len() && (#[trigger] before[j]).is_runtime_form();
                assert(after[j].is_runtime_form());
            }
            if marked_runtime(after) && !c {
                let j = choose|j: int|
                    0 <= j < after.len() && (#[trigger] after[j]).is_runtime_form();
                assert(before[j].is_runtime_form());
            }
        }
        has_test = has_test || a;
        has_test_with = has_test_with || b;
        has_runtime = has_runtime || c;
        i += 1;
    }
    assert(attrs@.take(attrs.len() as int) == attrs@);
    (has_test, has_test_with, has_runtime)
}

/// Whether the annotation stands where it may: not before `serial`.
pub fn check_before_attrs(attrs: &Vec<Attribute>) -> (r: Result<(), crate::error::ConfigError>)
    ensures
        r is Err <==> marked_serial(attrs@),
        r is Err ==> r == Err::<(), crate::error::ConfigError>(
            crate::error::ConfigError::BeforeSerial,
        ),
{
    let mut i: usize = 0;
    while i < attrs.len()
        invariant
            i <= attrs.len(),
            forall|j: int| 0 <= j < i ==> !(#[trigger] attrs[j]).ends_in("serial"@),
        decreases attrs.len() - i,
    {
        if attrs[i].path_ends_in("serial") {
            return Err(crate::error::ConfigError::BeforeSerial);
        }
        i += 1;
    }
    Ok(())
}

/// Whether the decorations mark the item to build for tests only.
pub fn has_test_cfg(attrs: &Vec<Attribute>) -> (r: bool)
    ensures
        r == marked_test_cfg(attrs@),
{
    let mut i: usize = 0;
    while i < attrs.len()
        invariant
            i <= attrs.len(),
            forall|j: int| 0 <= j < i ==> !(#[trigger] attrs[j]).names_test(),
        decreases attrs.len() - i,
    {
        if attrs[i].args_name_test() {
            return true;
        }
        i += 1;
    }
    false
}

} // verus!
