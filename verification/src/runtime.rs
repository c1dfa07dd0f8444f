//! Tests that are checked when they run: what a module of such tests holds,
//! and the order in which a runner takes the modules' tests.

use vstd::prelude::*;
use crate::check::{body_runs, check_result, is_handed_back, Condition, Probed};
use crate::error::ConfigError;
use crate::schedule::ModuleTests;
use crate::item::{
    has_test_cfg, marked_runtime, marked_test, marked_test_cfg, marked_test_with, test_with_attrs,
    FnDecl, Item,
};
use crate::text::{append_str, chars_of, is_text, string_of, string_views};
use crate::trim::trimmed_entries;

verus! {

/// How the check of a test runs the body of the test.
#[derive(Debug, Clone, Copy, PartialEq, Eq, Structural)]
pub enum CheckShape {
    /// The body is called.
    Sync,
    /// The body is awaited, and what it hands back is dropped.
    AsyncUnit,
    /// The body is awaited, and an error that it hands back fails the test.
    AsyncResult,
}

/// How the check of a function runs it.
pub fn check_shape(is_async: bool, has_output: bool) -> (shape: CheckShape)
    ensures
        shape == if !is_async {
            CheckShape::Sync
        } else if has_output {
            CheckShape::AsyncResult
        } else {
            CheckShape::AsyncUnit
        },
{
    if !is_async {
        CheckShape::Sync
    } else if has_output {
        CheckShape::AsyncResult
    } else {
        CheckShape::AsyncUnit
    }
}

/// The name of the check of the function `ident`.
pub open spec fn check_name_of(ident: Seq<char>) -> Seq<char> {
    "_check_"@ + ident
}

/// The name of the check of the function `ident`.
pub fn check_name(ident: &str) -> (out: String)
    ensures
        out@ == check_name_of(ident@),
{
    let mut name: Vec<char> = Vec::new();
    append_str(&mut name, "_check_");
    append_str(&mut name, ident);
    string_of(&name)
}

/// What is wrong with an item of a module of runtime tests, if anything: a
/// function that carries the test marker beside a condition, a function
/// whose condition has not the runtime form, or a fixture type that is not
/// public.
pub open spec fn item_fault(item: Item) -> Option<ConfigError> {
    match item {
        Item::Fn(decl) => if marked_test(decl.attrs@) && marked_test_with(decl.attrs@) {
            Some(ConfigError::TestMarkerInRuntimeModule)
        } else if marked_test_with(decl.attrs@) && !marked_runtime(decl.attrs@) {
            Some(ConfigError::BuildTimeConditionInRuntimeModule)
        } else {
            None
        },
        Item::Type { name, is_pub } => if name@ == "TestEnv"@ && !is_pub {
            Some(ConfigError::PrivateTestEnv)
        } else {
            None
        },
        Item::Other => None,
    }
}

/// The fault of the first faulty item, if there is one.
pub open spec fn first_fault(items: Seq<Item>) -> Option<ConfigError>
    decreases items.len(),
{
    if items.len() == 0 {
        None
    } else {
        match first_fault(items.drop_last()) {
            Some(fault) => Some(fault),
            None => item_fault(items.last()),
        }
    }
}

/// Whether the item is a runtime test: a function that carries a condition
/// in the runtime form.
pub open spec fn is_runtime_test(item: Item) -> bool {
    item matches Item::Fn(decl) && marked_test_with(decl.attrs@) && marked_runtime(decl.attrs@)
}

/// The names of the runtime tests among `items` that are asynchronous, or,
/// with `want_async` false, of those that are not, in the order of the items.
pub open spec fn test_names(items: Seq<Item>, want_async: bool) -> Seq<Seq<char>>
    decreases items.len(),
{
    if items.len() == 0 {
        Seq::empty()
    } else {
        let front = test_names(items.drop_last(), want_async);
        match items.last() {
            Item::Fn(decl) => if is_runtime_test(items.last()) && decl.is_async == want_async {
                front.push(decl.name@)
            } else {
                front
            },
            _ => front,
        }
    }
}

/// Whether the item is the fixture type: a public type named `TestEnv`.
pub open spec fn is_fixture(item: Item) -> bool {
    item matches Item::Type { name, is_pub } && name@ == "TestEnv"@ && is_pub
}

/// Whether the item is an asynchronous function.
pub open spec fn is_async_fn(item: Item) -> bool {
    item matches Item::Fn(decl) && decl.is_async
}

/// Whether the fixture type is among the items.
pub open spec fn declares_fixture(items: Seq<Item>) -> bool {
    exists|i: int| 0 <= i < items.len() && is_fixture(#[trigger] items[i])
}

/// What a module of runtime tests holds.
#[derive(Debug, Clone, PartialEq, Eq)]
pub struct RuntimeModule {
    /// Whether the module declares a fixture: a public type `TestEnv`.
    pub has_fixture: bool,
    /// The names of its asynchronous tests, in order.
    pub async_tests: Vec<String>,
    /// The names of its other tests, in order.
    pub sync_tests: Vec<String>,
}

impl RuntimeModule {
    /// Whether the module reports for itself: it holds an asynchronous
    /// test, which the delegate harness cannot run. Such a module is
    /// awaited by the runner of asynchronous tests; where it has a fixture,
    /// the fixture lives while its tests run.
    pub open spec fn reports_itself_spec(&self) -> bool {
        self.async_tests.len() > 0
    }

    /// Whether the module reports for itself.
    #[verifier::when_used_as_spec(reports_itself_spec)]
    pub fn reports_itself(&self) -> (r: bool)
        ensures
            r == self.reports_itself_spec(),
    {
        self.async_tests.len() > 0
    }
}

fn scan_item(item: &Item) -> (r: Result<(bool, bool, bool), ConfigError>)
    ensures
        match r {
            Err(fault) => item_fault(*item) == Some(fault),
            Ok(found) => {
                &&& item_fault(*item) is None
                &&& found.0 == is_runtime_test(*item)
                &&& found.1 == is_async_fn(*item)
                &&& found.2 == is_fixture(*item)
            },
        },
{
    match item {
        Item::Fn(decl) => {
            let marks = test_with_attrs(&decl.attrs);
            if marks.0 && marks.1 {
                Err(ConfigError::TestMarkerInRuntimeModule)
            } else if marks.1 && !marks.2 {
                Err(ConfigError::BuildTimeConditionInRuntimeModule)
            } else {
                Ok((marks.1 && marks.2, decl.is_async, false))
            }
        },
        Item::Type { name, is_pub } => {
            let n = chars_of(name.as_str());
            if is_text(&n, "TestEnv") {
                if *is_pub {
                    Ok((false, false, true))
                } else {
                    Err(ConfigError::PrivateTestEnv)
                }
            } else {
                Ok((false, false, false))
            }
        },
        Item::Other => Ok((false, false, false)),
    }
}

proof fn lemma_first_fault_stays(items: Seq<Item>, k: int)
    requires
        0 <= k <= items.len(),
        first_fault(items.take(k)) is Some,
    ensures
        first_fault(items) == first_fault(items.take(k)),
    decreases items.len() - k,
{
    if k < items.len() {
        assert(items.take(k + 1).drop_last() == items.take(k));
        lemma_first_fault_stays(items, k + 1);
    } else {
        assert(items.take(k) == items);
    }
}

/// What the module with the decorations `attrs` and the items `items`
/// holds, as a module of runtime tests. It is a fault where the module has
/// no body, where it is marked to build for tests only, and where an item
/// is faulty: the first such fault is handed back.
pub fn module(attrs: &Vec<crate::item::Attribute>, items: Option<&Vec<Item>>) -> (r: Result<
    RuntimeModule,
    ConfigError,
>)
    ensures
        match r {
            Err(fault) => fault == (if items is None {
                ConfigError::ModuleWithoutBody
            } else if marked_test_cfg(attrs@) {
                ConfigError::TestCfgOnRuntimeModule
            } else {
                first_fault(items->0@)->0
            }) && (items is None || marked_test_cfg(attrs@) || first_fault(items->0@) is Some),
            Ok(found) => {
                &&& items is Some
                &&& !marked_test_cfg(attrs@)
                &&& first_fault(items->0@) is None
                &&& found.has_fixture == declares_fixture(items->0@)
                &&& string_views(found.async_tests@) == test_names(items->0@, true)
                &&& string_views(found.sync_tests@) == test_names(items->0@, false)
            },
        },
{
    let list = match items {
        None => {
            return Err(ConfigError::ModuleWithoutBody);
        },
        Some(list) => list,
    };
    if has_test_cfg(attrs) {
        return Err(ConfigError::TestCfgOnRuntimeModule);
    }
    let mut has_fixture = false;
    let mut async_tests: Vec<String> = Vec::new();
    let mut sync_tests: Vec<String> = Vec::new();
    let mut i: usize = 0;
    while i < list.len()
        invariant
            i <= list.len(),
            items == Some(list),
            !marked_test_cfg(attrs@),
            first_fault(list@.take(i as int)) is None,
            has_fixture == declares_fixture(list@.take(i as int)),
            string_views(async_tests@) == test_names(list@.take(i as int), true),
            string_views(sync_tests@) == test_names(list@.take(i as int), false),
        decreases list.len() - i,
    {
        let ghost before = list@.take(i as int);
        let ghost after = list@.take(i + 1);
        proof {
            assert(after.drop_last() == before);
            assert(after.last() == list@[i as int]);
        }
        match scan_item(&list[i]) {
            Err(fault) => {
                proof {
                    assert(first_fault(after) == Some(fault));
                    lemma_first_fault_stays(list@, i + 1);
                }
                return Err(fault);
            },
            Ok(found) => {
                proof {
                    if has_fixture {
                        let j = choose|j: int|
                            0 <= j < before.len() && is_fixture(#[trigger] before[j]);
                        assert(after[j] == before[j]);
                    }
                    if found.2 {
                        assert(after[i as int] == list@[i as int]);
                    }
                    if declares_fixture(after) && !found.2 {
                        let j = choose|j: int|
                            0 <= j < after.len() && is_fixture(#[trigger] after[j]);
                        assert(before[j] == after[j]);
                    }
                }
                has_fixture = has_fixture || found.2;
                if found.0 {
                    match &list[i] {
                        Item::Fn(decl) => {
                            let name = decl.name.clone();
                            if found.1 {
                                assert(string_views(async_tests@.push(name)) == string_views(
                                    async_tests@,
                                ).push(name@));
                                async_tests.push(name);
                            } else {
                                assert(string_views(sync_tests@.push(name)) == string_views(
                                    sync_tests@,
                                ).push(name@));
                                sync_tests.push(name);
                            }
                        },
                        _ => {},
                    }
                }
            },
        }
        i += 1;
    }
    assert(list@.take(list.len() as int) == list@);
    Ok(RuntimeModule { has_fixture, async_tests, sync_tests })
}

/// The names of the modules that the argument text of a runner lists.
pub fn runner(input: &str) -> (names: Vec<String>)
    ensures
        string_views(names@) == trimmed_entries(input@),
{
    crate::utils::sanitize_env_vars_attr(input)
}

/// The names of the modules that the argument text of a runner of
/// asynchronous tests lists. The runner takes the modules in that order, one
/// after another.
pub fn tokio_runner(input: &str) -> (names: Vec<String>)
    ensures
        string_views(names@) == trimmed_entries(input@),
{
    crate::utils::sanitize_env_vars_attr(input)
}

/// What is made for a function that is checked when it runs: the name of
/// its check, how the check runs the body, the kind of the condition that
/// the check judges by, and the argument text that it judges.
#[derive(Debug, Clone, PartialEq, Eq)]
pub struct RuntimeCheck {
    pub name: String,
    pub shape: CheckShape,
    pub kind: Condition,
    pub attr: String,
}

/// Whether `check` is the check of the function `decl` for a condition of
/// the kind `kind` with the argument text `attr`: named after the function,
/// shaped after its signature, of that kind, and with the argument text
/// without its blanks.
pub open spec fn is_check_of(
    check: RuntimeCheck,
    kind: Condition,
    attr: Seq<char>,
    decl: FnDecl,
) -> bool {
    &&& check.name@ == check_name_of(decl.name@)
    &&& check.shape == if !decl.is_async {
        CheckShape::Sync
    } else if decl.has_output {
        CheckShape::AsyncResult
    } else {
        CheckShape::AsyncUnit
    }
    &&& check.kind == kind
    &&& check.attr@ == crate::trim::without(attr, ' ')
}

/// The check of the function `decl` for a condition of the kind `kind` with
/// the argument text `attr`.
pub fn runtime_check(kind: Condition, attr: &str, decl: &FnDecl) -> (check: RuntimeCheck)
    ensures
        is_check_of(check, kind, attr@, *decl),
{
    RuntimeCheck {
        name: check_name(decl.name.as_str()),
        shape: check_shape(decl.is_async, decl.has_output),
        kind,
        attr: crate::utils::strip_blanks(attr),
    }
}

impl RuntimeCheck {
    /// Whether the check lets the body of the test run, where `probed`
    /// holds what was probed: whether the condition of its kind is
    /// satisfied for its argument text.
    pub fn lets_body_run(&self, probed: &Probed) -> (r: bool)
        ensures
            r == body_runs(self.kind, self.attr@, *probed),
    {
        crate::check::lets_body_run(self.kind, self.attr.as_str(), probed)
    }

    /// What the check hands back, where `probed` holds what was probed and
    /// `body_error` is the error of the body of the test, if it ran and
    /// handed one back: the skip mark and the reason where the condition
    /// of its kind is not satisfied for its argument text, else the error
    /// of the body as a failure, or nothing.
    pub fn hand_back(&self, probed: &Probed, body_error: Option<String>) -> (r: Result<
        (),
        String,
    >)
        ensures
            is_handed_back(
                r,
                check_result(
                    self.kind,
                    self.attr@,
                    *probed,
                    crate::user::option_view(body_error),
                ),
            ),
    {
        crate::check::hand_back(self.kind, self.attr.as_str(), probed, body_error)
    }
}

/// A test as it is handed to a harness: the name under which it is
/// reported, and the name of its check.
#[derive(Debug, Clone, PartialEq, Eq)]
pub struct Registration {
    pub name: String,
    pub check: String,
}

impl Registration {
    /// The name of the test and the name of its check.
    pub open spec fn view(&self) -> (Seq<char>, Seq<char>) {
        (self.name@, self.check@)
    }
}

/// The registrations of the tests named `names`, in order.
pub open spec fn registered(names: Seq<Seq<char>>) -> Seq<(Seq<char>, Seq<char>)> {
    Seq::new(names.len(), |i: int| (names[i], check_name_of(names[i])))
}

/// The views of a list of registrations.
pub open spec fn registration_views(list: Seq<Registration>) -> Seq<(Seq<char>, Seq<char>)> {
    Seq::new(list.len(), |i: int| list[i]@)
}

fn register(names: &Vec<String>, out: &mut Vec<Registration>)
    ensures
        registration_views(final(out)@) == registration_views(old(out)@) + registered(
            string_views(names@),
        ),
{
    let ghost before = registration_views(out@);
    let ghost all = registered(string_views(names@));
    let mut i: usize = 0;
    while i < names.len()
        invariant
            i <= names.len(),
            all == registered(string_views(names@)),
            registration_views(out@) == before + all.take(i as int),
        decreases names.len() - i,
    {
        let entry = Registration { name: names[i].clone(), check: check_name(names[i].as_str()) };
        proof {
            assert(string_views(names@)[i as int] == names@[i as int]@);
            assert(registration_views(out@.push(entry)) == registration_views(out@).push(entry@));
            assert(all.take(i + 1) == all.take(i as int).push(all[i as int]));
            assert(before + all.take(i + 1) == (before + all.take(i as int)).push(all[i as int]));
        }
        out.push(entry);
        i += 1;
    }
    assert(all.take(names.len() as int) == all);
}

impl RuntimeModule {
    /// What a runner knows of the module: whether it has a fixture, and how
    /// many tests it hands to the delegate harness.
    pub fn for_runner(&self) -> (known: ModuleTests)
        ensures
            known.has_fixture == self.has_fixture,
            known.tests == self.sync_tests.len(),
    {
        ModuleTests { has_fixture: self.has_fixture, tests: self.sync_tests.len() }
    }

    /// The tests of the module as they are handed to a harness: the
    /// asynchronous ones first, then the others, each kind in its order.
    pub fn registrations(&self) -> (out: Vec<Registration>)
        ensures
            registration_views(out@) == registered(string_views(self.async_tests@)) + registered(
                string_views(self.sync_tests@),
            ),
    {
        let mut out: Vec<Registration> = Vec::new();
        register(&self.async_tests, &mut out);
        register(&self.sync_tests, &mut out);
        assert(registration_views(Seq::<Registration>::empty()) == Seq::<
            (Seq<char>, Seq<char>),
        >::empty());
        out
    }
}

} // verus!
