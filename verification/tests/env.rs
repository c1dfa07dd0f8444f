use test_with::env::{check_env_condition, check_no_env_condition};

/// The names of the variables that are set where these tests run.
fn set_vars() -> Vec<String> {
    vec!["PATH".to_string(), "HOME".to_string()]
}

#[test]
fn single_env_var_should_be_not_set() {
    //* Given
    let env_var = "A_RIDICULOUS_ENV_VAR_NAME_THAT_SHOULD_NOT_BE_SET";

    // The argument text of the condition
    let attr_str = env_var.to_string();

    //* When
    let (is_ok, ignore_msg) = check_env_condition(attr_str, &set_vars());

    //* Then
    // Assert if the test should be ignored
    assert!(!is_ok);
    // Assert the ignore message should contain only the missing env var names
    assert!(ignore_msg.contains(env_var));
}

#[test]
fn multiple_env_vars_should_not_be_set() {
    //* Given
    let env_var1 = "A_RIDICULOUS_ENV_VAR_NAME_THAT_SHOULD_NOT_BE_SET";
    let env_var2 = "ANOTHER_RIDICULOUS_ENV_VAR_NAME_THAT_SHOULD_NOT_BE_SET";

    // The argument text of the condition
    let attr_str = format!("{}, {}", env_var1, env_var2);

    //* When
    let (is_ok, ignore_msg) = check_env_condition(attr_str, &set_vars());

    //* Then
    // Assert if the test should be ignored
    assert!(!is_ok);
    // Assert the ignore message should contain only the missing env var names
    assert!(ignore_msg.contains(env_var1));
    assert!(ignore_msg.contains(env_var2));
}

#[test]
fn single_env_var_should_be_set() {
    //* Given
    let env_var = "PATH";

    // The argument text of the condition
    let attr_str = env_var.to_string();

    //* When
    let (is_ok, ignore_msg) = check_env_condition(attr_str, &set_vars());

    //* Then
    // Assert if the test should be ignored
    assert!(is_ok);
    // Assert the ignore message should contain only the missing env var names
    assert!(!ignore_msg.contains(env_var));
}

#[test]
fn multiple_env_vars_should_be_set() {
    //* Given
    let env_var1 = "PATH";
    let env_var2 = "HOME";

    // The argument text of the condition
    let attr_str = format!("\t{},\n\t{}\n", env_var1, env_var2);

    //* When
    let (is_ok, ignore_msg) = check_env_condition(attr_str, &set_vars());

    //* Then
    // Assert if the test should be ignored
    assert!(is_ok);
    // Assert the ignore message should contain only the missing env var names
    assert!(!ignore_msg.contains(env_var1));
    assert!(!ignore_msg.contains(env_var2));
}

#[test]
fn multiple_env_vars_but_one_is_not_set() {
    //* Given
    let env_var1 = "PATH";
    let env_var2 = "HOME";
    let env_var3 = "A_RIDICULOUS_ENV_VAR_NAME_THAT_SHOULD_NOT_BE_SET";

    // The argument text of the condition
    let attr_str = format!("{}, {}, {}", env_var1, env_var2, env_var3);

    //* When
    let (is_ok, ignore_msg) = check_env_condition(attr_str, &set_vars());

    //* Then
    // Assert if the test should be ignored
    assert!(!is_ok);
    // Assert the ignore message should contain only the missing env var names
    assert!(!ignore_msg.contains(env_var1));
    assert!(!ignore_msg.contains(env_var2));
    assert!(ignore_msg.contains(env_var3));
}

#[test]
fn multiple_env_vars_and_various_not_set() {
    //* Given
    let env_var1 = "PATH";
    let env_var2 = "A_RIDICULOUS_ENV_VAR_NAME_THAT_SHOULD_NOT_BE_SET";
    let env_var3 = "ANOTHER_RIDICULOUS_ENV_VAR_NAME_THAT_SHOULD_NOT_BE_SET";

    // The argument text of the condition
    let attr_str = format!("{}, {}, {}", env_var1, env_var2, env_var3);

    //* When
    let (is_ok, ignore_msg) = check_env_condition(attr_str, &set_vars());

    //* Then
    // Assert if the test should be ignored
    assert!(!is_ok);
    // Assert the ignore message should contain only the missing env var names
    assert!(!ignore_msg.contains(env_var1));
    assert!(ignore_msg.contains(env_var2));
    assert!(ignore_msg.contains(env_var3));
}

#[test]
fn single_env_var_not_set() {
    //* Given
    let env_var = "A_RIDICULOUS_ENV_VAR_NAME_THAT_SHOULD_NOT_BE_SET";

    // The argument text of the condition
    let attr_str = env_var.to_string();

    //* When
    let (is_ok, ignore_msg) = check_no_env_condition(attr_str, &set_vars());

    //* Then
    // Assert if the test should be ignored
    assert!(is_ok);
    // Assert the ignore message should contain only the found env var names
    assert!(!ignore_msg.contains(env_var));
}

#[test]
fn multiple_env_vars_not_set() {
    //* Given
    let env_var1 = "A_RIDICULOUS_ENV_VAR_NAME_THAT_SHOULD_NOT_BE_SET";
    let env_var2 = "ANOTHER_RIDICULOUS_ENV_VAR_NAME_THAT_SHOULD_NOT_BE_SET";

    // The argument text of the condition
    let attr_str = format!("{}, {}", env_var1, env_var2);

    //* When
    let (is_ok, ignore_msg) = check_no_env_condition(attr_str, &set_vars());

    //* Then
    // Assert if the test should be ignored
    assert!(is_ok);
    // Assert the ignore message should contain only the found env var names
    assert!(!ignore_msg.contains(env_var1));
    assert!(!ignore_msg.contains(env_var2));
}

#[test]
fn single_env_var_set() {
    //* Given
    let env_var = "PATH";

    // The argument text of the condition
    let attr_str = env_var.to_string();

    //* When
    let (is_ok, ignore_msg) = check_no_env_condition(attr_str, &set_vars());

    //* Then
    // Assert if the test should be ignored
    assert!(!is_ok);
    // Assert the ignore message should contain only the found env var names
    assert!(ignore_msg.contains(env_var));
}

#[test]
fn multiple_env_vars_set() {
    //* Given
    let env_var1 = "PATH";
    let env_var2 = "HOME";

    // The argument text of the condition
    let attr_str = format!("\t{},\n\t{}\n", env_var1, env_var2);

    //* When
    let (is_ok, ignore_msg) = check_no_env_condition(attr_str, &set_vars());

    //* Then
    // Assert if the test should be ignored
    assert!(!is_ok);
    // Assert the ignore message should contain only the found env var names
    assert!(ignore_msg.contains(env_var1));
    assert!(ignore_msg.contains(env_var2));
}

#[test]
fn multiple_env_vars_but_one_is_set() {
    //* Given
    let env_var1 = "PATH";
    let env_var2 = "A_RIDICULOUS_ENV_VAR_NAME_THAT_SHOULD_NOT_BE_SET";
    let env_var3 = "ANOTHER_RIDICULOUS_ENV_VAR_NAME_THAT_SHOULD_NOT_BE_SET";

    // The argument text of the condition
    let attr_str = format!("{}, {}, {}", env_var1, env_var2, env_var3);

    //* When
    let (is_ok, ignore_msg) = check_no_env_condition(attr_str, &set_vars());

    //* Then
    // Assert if the test should be ignored
    assert!(!is_ok);
    // Assert the ignore message should contain only the found env var names
    assert!(ignore_msg.contains(env_var1));
    assert!(!ignore_msg.contains(env_var2));
    assert!(!ignore_msg.contains(env_var3));
}

#[test]
fn multiple_env_vars_and_various_are_set() {
    //* Given
    let env_var1 = "PATH";
    let env_var2 = "HOME";
    let env_var3 = "A_RIDICULOUS_ENV_VAR_NAME_THAT_SHOULD_NOT_BE_SET";

    // The argument text of the condition
    let attr_str = format!("{}, {}, {}", env_var1, env_var2, env_var3);

    //* When
    let (is_ok, ignore_msg) = check_no_env_condition(attr_str, &set_vars());

    //* Then
    // Assert if the test should be ignored
    assert!(!is_ok);
    // Assert the ignore message should contain only the found env var names
    assert!(ignore_msg.contains(env_var1));
    assert!(ignore_msg.contains(env_var2));
    assert!(!ignore_msg.contains(env_var3));
}
