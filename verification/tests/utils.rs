use test_with::utils::sanitize_env_vars_attr;

#[test]
fn sanitize_single_env_var() {
    //* Given
    let env_var = "FOO";

    let attr_str = env_var.to_string();

    //* When
    let result = sanitize_env_vars_attr(&attr_str);

    //* Then
    assert_eq!(result, vec!["FOO"]);
}

#[test]
fn sanitize_multiple_env_vars() {
    //* Given
    let env_var1 = "FOO";
    let env_var2 = "BAR";
    let env_var3 = "BAZ";

    let attr_str = format!("\t{},\n\t{},\n\t{}", env_var1, env_var2, env_var3);

    //* When
    let result = sanitize_env_vars_attr(&attr_str);

    //* Then
    assert_eq!(result, vec!["FOO", "BAR", "BAZ"]);
}

#[test]
fn sanitize_env_vars_with_whitespace() {
    //* Given
    let env_var = "FOO BAR";

    let attr_str = env_var.to_string();

    //* When
    let result = sanitize_env_vars_attr(&attr_str);

    //* Then
    assert_eq!(result, vec!["FOO BAR"]);
}
