use test_with::error::ConfigError;
use test_with::item::{
    check_before_attrs, has_test_attr, has_test_cfg, test_with_attrs, Attribute, FnDecl, Item,
};
use test_with::utils::{
    fn_macro, is_module, join_name_and_reason, mod_macro, rewrite, rewrite_fn_ident_with_msg,
    rewrite_for, strip_blanks, Annotated, FnRewrite, ModRewrite, Rewrite,
};

fn attr(path: &[&str], args: &[&str]) -> Attribute {
    Attribute {
        path: path.iter().map(|s| s.to_string()).collect(),
        args: args.iter().map(|s| s.to_string()).collect(),
    }
}

fn function(name: &str, attrs: Vec<Attribute>) -> FnDecl {
    FnDecl { attrs, name: name.to_string(), is_async: false, has_output: false }
}

#[test]
fn test_marker_is_found_by_its_last_segment() {
    assert!(has_test_attr(&vec![attr(&["test"], &[])]));
    assert!(has_test_attr(&vec![attr(&["doc"], &[]), attr(&["tokio", "test"], &[])]));
    assert!(has_test_attr(&vec![attr(&["async_std", "test"], &[])]));
    assert!(!has_test_attr(&vec![attr(&["test", "case"], &[])]));
    assert!(!has_test_attr(&vec![attr(&["tests"], &[])]));
    assert!(!has_test_attr(&vec![attr(&[], &[])]));
    assert!(!has_test_attr(&vec![]));
}

#[test]
fn three_facts_on_the_decorations() {
    assert_eq!(test_with_attrs(&vec![]), (false, false, false));
    assert_eq!(test_with_attrs(&vec![attr(&["test"], &[])]), (true, false, false));
    assert_eq!(
        test_with_attrs(&vec![attr(&["test_with", "env"], &["PWD"])]),
        (false, true, false)
    );
    assert_eq!(
        test_with_attrs(&vec![attr(&["test_with", "runtime_env"], &["PWD"])]),
        (false, true, true)
    );
    assert_eq!(
        test_with_attrs(&vec![attr(&["test"], &[]), attr(&["test_with", "runtime_env"], &["PWD"])]),
        (true, true, true)
    );
    assert_eq!(
        test_with_attrs(&vec![attr(&["runtime_x"], &[])]),
        (false, false, true)
    );
    assert_eq!(
        test_with_attrs(&vec![attr(&["test_with", "xruntime_env"], &[])]),
        (false, true, false)
    );
}

#[test]
fn serial_below_the_annotation_is_a_fault() {
    assert_eq!(check_before_attrs(&vec![attr(&["test"], &[])]), Ok(()));
    assert_eq!(
        check_before_attrs(&vec![attr(&["test"], &[]), attr(&["serial"], &[])]),
        Err(ConfigError::BeforeSerial)
    );
    assert_eq!(
        check_before_attrs(&vec![attr(&["serial_test", "serial"], &[])]),
        Err(ConfigError::BeforeSerial)
    );
}

#[test]
fn marker_to_build_for_tests_only() {
    assert!(has_test_cfg(&vec![attr(&["cfg"], &["test"])]));
    assert!(has_test_cfg(&vec![attr(&["cfg"], &["all", "test", "unix"])]));
    assert!(!has_test_cfg(&vec![attr(&["cfg"], &["unix"])]));
    assert!(!has_test_cfg(&vec![attr(&["test"], &[])]));
    assert!(!has_test_cfg(&vec![]));
}

#[test]
fn blanks_are_taken_out_of_the_argument_text() {
    assert_eq!(strip_blanks("PWD, NOT_SAYING"), "PWD,NOT_SAYING");
    assert_eq!(strip_blanks(" a || b "), "a||b");
    assert_eq!(strip_blanks(""), "");
}

#[test]
fn a_module_is_known_by_its_opening_word() {
    assert!(is_module("mod tests { }"));
    assert!(is_module("# [cfg (test)] pub mod tests { fn a () { } }"));
    assert!(is_module("pub(crate) mod tests { }"));
    assert!(!is_module("# [test] fn test_works () { assert ! (true) ; }"));
    assert!(!is_module("fn model () { }"));
    assert!(!is_module(""));
}

#[test]
fn a_name_that_tells_the_reason() {
    assert_eq!(
        rewrite_fn_ident_with_msg("test_ignored", "because variable NOTHING not found"),
        Some("test_ignored__because_variable_NOTHING_not_found".to_string())
    );
    assert_eq!(
        rewrite_fn_ident_with_msg("t", "because file not found: /a-b.c"),
        Some("t__because_file_not_found___a_b_c".to_string())
    );
    assert_eq!(
        rewrite_fn_ident_with_msg("t", "two\nlines"),
        Some("t__two_lines".to_string())
    );
    assert_eq!(rewrite_fn_ident_with_msg("t", ""), Some("t__".to_string()));
    assert_eq!(join_name_and_reason("t", "why"), "t__why");
}

#[test]
fn satisfied_and_marked_stays_as_it_is() {
    assert_eq!(
        fn_macro(&vec![attr(&["test"], &[])], "test_works", true, "", false),
        Ok(FnRewrite { add_test: false, ignore: None, name: "test_works".to_string() })
    );
}

#[test]
fn satisfied_and_unmarked_gets_the_test_marker() {
    assert_eq!(
        fn_macro(&vec![], "test_works", true, "", true),
        Ok(FnRewrite { add_test: true, ignore: None, name: "test_works".to_string() })
    );
}

#[test]
fn unsatisfied_and_marked_gets_the_skip_marker() {
    assert_eq!(
        fn_macro(&vec![attr(&["test"], &[])], "test_ignored", false, "because of rain", false),
        Ok(FnRewrite {
            add_test: false,
            ignore: Some("because of rain".to_string()),
            name: "test_ignored".to_string()
        })
    );
}

#[test]
fn unsatisfied_and_unmarked_gets_both_markers() {
    assert_eq!(
        fn_macro(&vec![], "test_ignored", false, "because of rain", false),
        Ok(FnRewrite {
            add_test: true,
            ignore: Some("because of rain".to_string()),
            name: "test_ignored".to_string()
        })
    );
}

#[test]
fn the_name_tells_the_reason_where_asked() {
    assert_eq!(
        fn_macro(&vec![], "test_ignored", false, "because of rain", true),
        Ok(FnRewrite {
            add_test: true,
            ignore: Some("because of rain".to_string()),
            name: "test_ignored__because_of_rain".to_string()
        })
    );
}

#[test]
fn function_before_serial_is_a_fault() {
    assert_eq!(
        fn_macro(&vec![attr(&["serial"], &[])], "t", true, "", false),
        Err(ConfigError::BeforeSerial)
    );
}

fn items() -> Vec<Item> {
    vec![
        Item::Other,
        Item::Fn(function("test_a", vec![attr(&["test"], &[])])),
        Item::Type { name: "Helper".to_string(), is_pub: false },
        Item::Fn(function("helper", vec![])),
        Item::Fn(function("test_b", vec![attr(&["test"], &[])])),
    ]
}

#[test]
fn satisfied_module_passes_through() {
    assert_eq!(
        mod_macro(&vec![attr(&["cfg"], &["test"])], Some(&items()), true, "", false),
        Ok(ModRewrite::Keep { add_test_cfg: true })
    );
    assert_eq!(
        mod_macro(&vec![], Some(&items()), true, "", false),
        Ok(ModRewrite::Keep { add_test_cfg: false })
    );
}

#[test]
fn unsatisfied_module_gets_a_stub_for_each_function() {
    assert_eq!(
        mod_macro(&vec![attr(&["cfg"], &["test"])], Some(&items()), false, "because of rain", false),
        Ok(ModRewrite::Stubs {
            add_test_cfg: false,
            reason: "because of rain".to_string(),
            names: vec!["test_a".to_string(), "helper".to_string(), "test_b".to_string()],
        })
    );
    assert_eq!(
        mod_macro(&vec![], Some(&vec![]), false, "because of rain", false),
        Ok(ModRewrite::Stubs {
            add_test_cfg: true,
            reason: "because of rain".to_string(),
            names: vec![],
        })
    );
}

#[test]
fn stubs_tell_the_reason_where_asked() {
    assert_eq!(
        mod_macro(&vec![], Some(&items()), false, "no net", true),
        Ok(ModRewrite::Stubs {
            add_test_cfg: true,
            reason: "no net".to_string(),
            names: vec![
                "test_a__no_net".to_string(),
                "helper__no_net".to_string(),
                "test_b__no_net".to_string()
            ],
        })
    );
}

#[test]
fn module_without_body_is_a_fault() {
    assert_eq!(mod_macro(&vec![], None, true, "", false), Err(ConfigError::ModuleWithoutBody));
    assert_eq!(mod_macro(&vec![], None, false, "x", false), Err(ConfigError::ModuleWithoutBody));
}

#[test]
fn the_rewrite_follows_the_kind_of_item() {
    let f = Annotated::Fn(function("t", vec![]));
    assert_eq!(
        rewrite(&f, true, "", false),
        Ok(Rewrite::Fn(FnRewrite { add_test: true, ignore: None, name: "t".to_string() }))
    );
    let m = Annotated::Mod { attrs: vec![], items: Some(items()) };
    assert_eq!(
        rewrite(&m, true, "", false),
        Ok(Rewrite::Mod(ModRewrite::Keep { add_test_cfg: false }))
    );
}

#[test]
fn a_fault_of_the_condition_stops_the_rewrite() {
    let f = Annotated::Fn(function("t", vec![]));
    assert_eq!(
        rewrite_for(&f, Err(ConfigError::MixedCombinators), false),
        Err(ConfigError::MixedCombinators)
    );
    assert_eq!(
        rewrite_for(&f, Ok((false, "why".to_string())), false),
        Ok(Rewrite::Fn(FnRewrite {
            add_test: true,
            ignore: Some("why".to_string()),
            name: "t".to_string()
        }))
    );
}

#[test]
fn every_fault_has_its_message() {
    assert_eq!(
        ConfigError::MixedCombinators.message(),
        "',' and '||' can not be used at the same time"
    );
    assert_eq!(ConfigError::BadCoreCount.message(), "core limitation is incorrect");
    assert_eq!(
        ConfigError::BadPhysicalCoreCount.message(),
        "physical core limitation is incorrect"
    );
    assert_eq!(ConfigError::BadMemorySize.message(), "memory size description is not correct");
    assert_eq!(ConfigError::BadSwapSize.message(), "swap size description is not correct");
    assert_eq!(ConfigError::BadIpAddress.message(), "ip address malformat");
    assert_eq!(
        ConfigError::AmbiguousPst.message(),
        "PST can be GMT+8 or GMT-8, please use +8 or -8 instead"
    );
    assert_eq!(
        ConfigError::AmbiguousCst.message(),
        "CST can be GMT+8 or GMT-6, please use +8 or -6 instead"
    );
    assert_eq!(
        ConfigError::AmbiguousIst.message(),
        "IST can be GMT+5.5, GMT+2 or GMT+1, please use +5.5, 2 or 1 instead"
    );
    assert_eq!(ConfigError::ModuleWithoutBody.message(), "should use on mod with context");
    assert_eq!(ConfigError::LockOnModule.message(), "#[test_with::lock] only works with fn");
    assert_eq!(
        ConfigError::BadLockWait.message(),
        "`The second parameter of #[test_with::lock]` should be a number for waiting time"
    );
    assert_eq!(
        ConfigError::BeforeSerial.message(),
        "`#[test_with::*]` should place after `#[serial]`"
    );
    assert_eq!(
        ConfigError::TestCfgOnRuntimeModule.message(),
        "should not use `#[cfg(test)]` on the mod with `#[test_with::module]`"
    );
    assert_eq!(
        ConfigError::TestMarkerInRuntimeModule.message(),
        "should not use #[test] for method in `#[test_with::module]`"
    );
    assert_eq!(
        ConfigError::BuildTimeConditionInRuntimeModule.message(),
        "use `#[test_with::runtime_*]` for method in `#[test_with::module]`"
    );
    assert_eq!(ConfigError::PrivateTestEnv.message(), "TestEnv should be pub for testing");
}
