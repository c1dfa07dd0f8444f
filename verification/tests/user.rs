use test_with::user::{
    check_group_condition, check_root_condition, check_user_condition, current_groups,
    judge_group, judge_root, judge_user, Membership,
};

#[test]
fn only_the_superuser_is_root() {
    assert_eq!(judge_root(0), (true, String::new()));
    assert_eq!(
        judge_root(1000),
        (false, "because this case should run with root".to_string())
    );
    assert_eq!(
        judge_root(u32::MAX),
        (false, "because this case should run with root".to_string())
    );
}

#[test]
fn membership_in_a_group() {
    let groups = vec!["wheel".to_string(), "avengers".to_string()];
    assert_eq!(judge_group("avengers", &groups), (true, String::new()));
    assert_eq!(
        judge_group("nobody", &groups),
        (
            false,
            "because this case should run user in group nobody".to_string()
        )
    );
    assert_eq!(
        judge_group("wheel", &vec![]),
        (
            false,
            "because this case should run user in group wheel".to_string()
        )
    );
    assert_eq!(
        judge_group("whee", &groups),
        (
            false,
            "because this case should run user in group whee".to_string()
        )
    );
}

#[test]
fn the_name_of_the_user() {
    assert_eq!(judge_user("spider", &Some("spider".to_string())), (true, String::new()));
    assert_eq!(
        judge_user("spider", &Some("Spider".to_string())),
        (
            false,
            "because this case should run with user spider".to_string()
        )
    );
    assert_eq!(
        judge_user("spider", &None),
        (
            false,
            "because this case should run with user spider".to_string()
        )
    );
}

#[test]
fn the_user_of_this_process() {
    let (is_root, root_msg) = check_root_condition(String::new());
    if is_root {
        assert_eq!(root_msg, "");
    } else {
        assert_eq!(root_msg, "because this case should run with root");
    }
    assert_eq!(
        check_user_condition("a_ridiculous_user_that_should_not_exist".to_string()),
        (
            false,
            "because this case should run with user a_ridiculous_user_that_should_not_exist"
                .to_string()
        )
    );
    assert_eq!(
        check_group_condition("a_ridiculous_group_that_should_not_exist".to_string()),
        (
            false,
            "because this case should run user in group a_ridiculous_group_that_should_not_exist"
                .to_string()
        )
    );
}

#[test]
fn unknown_membership_is_no_membership() {
    assert_eq!(current_groups(Membership::UnknownUser), Vec::<String>::new());
    assert_eq!(current_groups(Membership::UnknownGroups), Vec::<String>::new());
    assert_eq!(
        judge_group("wheel", &current_groups(Membership::UnknownGroups)),
        (
            false,
            "because this case should run user in group wheel".to_string()
        )
    );
}

#[test]
fn known_groups_are_kept_in_their_order() {
    let groups = vec!["wheel".to_string(), "avengers".to_string(), "wheel".to_string()];
    assert_eq!(current_groups(Membership::Groups(groups.clone())), groups);
    assert_eq!(current_groups(Membership::Groups(vec![])), Vec::<String>::new());
    assert_eq!(
        judge_group("avengers", &current_groups(Membership::Groups(groups))),
        (true, String::new())
    );
}
