use test_with::check::Condition;
use test_with::error::ConfigError;
use test_with::item::{Attribute, FnDecl, Item};
use test_with::runtime::{
    check_name, check_shape, module, runner, runtime_check, tokio_runner, CheckShape,
    Registration, RuntimeCheck, RuntimeModule,
};

fn attr(path: &[&str], args: &[&str]) -> Attribute {
    Attribute {
        path: path.iter().map(|s| s.to_string()).collect(),
        args: args.iter().map(|s| s.to_string()).collect(),
    }
}

fn runtime_test(name: &str, is_async: bool) -> Item {
    Item::Fn(FnDecl {
        attrs: vec![attr(&["test_with", "runtime_env"], &["PWD"])],
        name: name.to_string(),
        is_async,
        has_output: false,
    })
}

fn plain(name: &str, attrs: Vec<Attribute>) -> Item {
    Item::Fn(FnDecl { attrs, name: name.to_string(), is_async: false, has_output: false })
}

fn fixture(is_pub: bool) -> Item {
    Item::Type { name: "TestEnv".to_string(), is_pub }
}

#[test]
fn the_check_is_shaped_after_the_signature() {
    assert_eq!(check_shape(false, false), CheckShape::Sync);
    assert_eq!(check_shape(false, true), CheckShape::Sync);
    assert_eq!(check_shape(true, false), CheckShape::AsyncUnit);
    assert_eq!(check_shape(true, true), CheckShape::AsyncResult);
}

#[test]
fn the_check_is_named_after_the_function() {
    assert_eq!(check_name("test_works"), "_check_test_works");
    assert_eq!(check_name(""), "_check_");
}

#[test]
fn the_check_of_a_function() {
    let decl = FnDecl {
        attrs: vec![],
        name: "test_works".to_string(),
        is_async: true,
        has_output: true,
    };
    assert_eq!(
        runtime_check(Condition::Env, "PWD, HOME", &decl),
        RuntimeCheck {
            name: "_check_test_works".to_string(),
            shape: CheckShape::AsyncResult,
            kind: Condition::Env,
            attr: "PWD,HOME".to_string(),
        }
    );
}

#[test]
fn module_of_plain_runtime_tests() {
    let items = vec![
        runtime_test("test_a", false),
        plain("helper", vec![]),
        Item::Other,
        runtime_test("test_b", false),
    ];
    assert_eq!(
        module(&vec![], Some(&items)),
        Ok(RuntimeModule {
            has_fixture: false,
            async_tests: vec![],
            sync_tests: vec!["test_a".to_string(), "test_b".to_string()],
        })
    );
}

#[test]
fn module_with_fixture_and_asynchronous_tests() {
    let items = vec![
        fixture(true),
        runtime_test("test_a", true),
        runtime_test("test_b", false),
        runtime_test("test_c", true),
    ];
    let found = module(&vec![attr(&["doc"], &["hidden"])], Some(&items)).unwrap();
    assert_eq!(
        found,
        RuntimeModule {
            has_fixture: true,
            async_tests: vec!["test_a".to_string(), "test_c".to_string()],
            sync_tests: vec!["test_b".to_string()],
        }
    );
    assert!(found.reports_itself());
}

#[test]
fn a_module_with_an_asynchronous_test_reports_for_itself() {
    let with_fixture = module(&vec![], Some(&vec![fixture(true), runtime_test("t", false)])).unwrap();
    assert!(!with_fixture.reports_itself());
    let with_async = module(&vec![], Some(&vec![runtime_test("t", true)])).unwrap();
    assert!(with_async.reports_itself());
    let with_both =
        module(&vec![], Some(&vec![fixture(true), runtime_test("t", true)])).unwrap();
    assert!(with_both.reports_itself());
}

#[test]
fn what_a_runner_knows_of_a_module() {
    let found = module(
        &vec![],
        Some(&vec![fixture(true), runtime_test("a", false), runtime_test("b", false)]),
    )
    .unwrap();
    let known = found.for_runner();
    assert!(known.has_fixture);
    assert_eq!(known.tests, 2);
}

#[test]
fn a_type_of_another_name_is_no_fixture() {
    let items = vec![Item::Type { name: "TestEnvironment".to_string(), is_pub: false }];
    assert_eq!(
        module(&vec![], Some(&items)),
        Ok(RuntimeModule { has_fixture: false, async_tests: vec![], sync_tests: vec![] })
    );
}

#[test]
fn faults_of_a_runtime_module() {
    assert_eq!(module(&vec![], None), Err(ConfigError::ModuleWithoutBody));
    assert_eq!(
        module(&vec![attr(&["cfg"], &["test"])], Some(&vec![])),
        Err(ConfigError::TestCfgOnRuntimeModule)
    );
    assert_eq!(
        module(&vec![attr(&["cfg"], &["test"])], None),
        Err(ConfigError::ModuleWithoutBody)
    );
    assert_eq!(
        module(&vec![], Some(&vec![fixture(false)])),
        Err(ConfigError::PrivateTestEnv)
    );
    let marked = plain(
        "t",
        vec![attr(&["test"], &[]), attr(&["test_with", "runtime_env"], &["PWD"])],
    );
    assert_eq!(
        module(&vec![], Some(&vec![marked])),
        Err(ConfigError::TestMarkerInRuntimeModule)
    );
    let build_time = plain("t", vec![attr(&["test_with", "env"], &["PWD"])]);
    assert_eq!(
        module(&vec![], Some(&vec![build_time.clone()])),
        Err(ConfigError::BuildTimeConditionInRuntimeModule)
    );
    assert_eq!(
        module(&vec![], Some(&vec![runtime_test("a", false), build_time, fixture(false)])),
        Err(ConfigError::BuildTimeConditionInRuntimeModule)
    );
}

#[test]
fn a_test_without_condition_is_left_alone() {
    let items = vec![plain("t", vec![attr(&["test"], &[])])];
    assert_eq!(
        module(&vec![], Some(&items)),
        Ok(RuntimeModule { has_fixture: false, async_tests: vec![], sync_tests: vec![] })
    );
}

#[test]
fn modules_of_a_runner() {
    assert_eq!(runner("net, tests ,fs"), vec!["net", "tests", "fs"]);
    assert_eq!(runner("net"), vec!["net"]);
    assert_eq!(tokio_runner("a,b"), vec!["a", "b"]);
}

#[test]
fn tests_are_registered_with_their_checks() {
    let found = RuntimeModule {
        has_fixture: true,
        async_tests: vec!["test_a".to_string(), "test_c".to_string()],
        sync_tests: vec!["test_b".to_string()],
    };
    let entry = |name: &str, check: &str| Registration {
        name: name.to_string(),
        check: check.to_string(),
    };
    assert_eq!(
        found.registrations(),
        vec![
            entry("test_a", "_check_test_a"),
            entry("test_c", "_check_test_c"),
            entry("test_b", "_check_test_b"),
        ]
    );
    let none = RuntimeModule { has_fixture: false, async_tests: vec![], sync_tests: vec![] };
    assert_eq!(none.registrations(), vec![]);
}
