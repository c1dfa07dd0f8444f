use test_with::error::ConfigError;
use test_with::executable::{check_executable_condition, judge_executables, parse_executables};

#[test]
fn both_combinators_are_a_fault() {
    assert_eq!(
        parse_executables("pwd,ls||cat"),
        Err(ConfigError::MixedCombinators)
    );
    assert_eq!(
        judge_executables("pwd,ls||cat", &vec![true, true, true]),
        Err(ConfigError::MixedCombinators)
    );
    assert_eq!(
        check_executable_condition("sh,ls||cat".to_string()),
        Err(ConfigError::MixedCombinators)
    );
}

#[test]
fn names_to_look_up() {
    assert_eq!(parse_executables("pwd, \"ls\""), Ok(vec!["pwd".to_string(), "ls".to_string()]));
    assert_eq!(parse_executables("a || b||c"), Ok(vec!["a".to_string(), "b".to_string(), "c".to_string()]));
    assert_eq!(parse_executables(""), Ok(vec!["".to_string()]));
}

#[test]
fn all_of_a_list_are_asked_for() {
    assert_eq!(judge_executables("pwd,ls", &vec![true, true]), Ok((true, String::new())));
    assert_eq!(
        judge_executables("pwd,non", &vec![true, false]),
        Ok((false, "because executable not found: non".to_string()))
    );
    assert_eq!(
        judge_executables("non,pwd,such", &vec![false, true, false]),
        Ok((
            false,
            "because following executables not found: \nnon\nsuch\n".to_string()
        ))
    );
}

#[test]
fn one_of_the_alternatives_is_asked_for() {
    assert_eq!(judge_executables("non||pwd", &vec![false, true]), Ok((true, String::new())));
    assert_eq!(judge_executables("pwd||non", &vec![true, false]), Ok((true, String::new())));
    assert_eq!(
        judge_executables("non||such", &vec![false, false]),
        Ok((
            false,
            "because none of executables can be found: non||such".to_string()
        ))
    );
    assert_eq!(
        judge_executables("non||such", &vec![]),
        Ok((
            false,
            "because none of executables can be found: non||such".to_string()
        ))
    );
    assert_eq!(
        judge_executables("non||such", &vec![false, false, true]),
        Ok((
            false,
            "because none of executables can be found: non||such".to_string()
        ))
    );
}

#[test]
fn executables_of_the_host_are_looked_up() {
    assert_eq!(check_executable_condition("sh".to_string()), Ok((true, String::new())));
    assert_eq!(
        check_executable_condition("a_ridiculous_executable_that_should_not_exist".to_string()),
        Ok((
            false,
            "because executable not found: a_ridiculous_executable_that_should_not_exist".to_string()
        ))
    );
    assert_eq!(
        check_executable_condition("sh||a_ridiculous_executable_that_should_not_exist".to_string()),
        Ok((true, String::new()))
    );
    assert_eq!(
        check_executable_condition("a_ridiculous_executable||another_ridiculous_executable".to_string()),
        Ok((
            false,
            "because none of executables can be found: a_ridiculous_executable||another_ridiculous_executable".to_string()
        ))
    );
}
