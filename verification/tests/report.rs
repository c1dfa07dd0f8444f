use test_with::report::{
    after_body, classify, exit_status, gate, heading_line, report_line, summary_line, tally,
    Outcome, Tally,
};

#[test]
fn satisfied_condition_lets_the_body_run() {
    assert_eq!(gate(true, ""), Ok(()));
    assert_eq!(gate(true, "because of nothing"), Ok(()));
}

#[test]
fn unsatisfied_condition_is_marked_as_a_skip() {
    assert_eq!(
        gate(false, "because variable NOTHING not found"),
        Err("rt-ignored: because variable NOTHING not found".to_string())
    );
    assert_eq!(gate(false, ""), Err("rt-ignored: ".to_string()));
}

#[test]
fn results_are_told_apart() {
    assert_eq!(classify(&Ok(())), Outcome::Passed);
    assert_eq!(classify(&Err(None)), Outcome::Failed(None));
    assert_eq!(
        classify(&Err(Some("boom".to_string()))),
        Outcome::Failed(Some("boom".to_string()))
    );
    assert_eq!(
        classify(&Err(Some("rt-ignored: because of rain".to_string()))),
        Outcome::Ignored("because of rain".to_string())
    );
    assert_eq!(
        classify(&Err(Some("rt-ignored:".to_string()))),
        Outcome::Failed(Some("rt-ignored:".to_string()))
    );
    assert_eq!(
        classify(&Err(Some(" rt-ignored: x".to_string()))),
        Outcome::Failed(Some(" rt-ignored: x".to_string()))
    );
    assert_eq!(
        classify(&Err(Some("rt-ignored: ".to_string()))),
        Outcome::Ignored(String::new())
    );
}

#[test]
fn a_skip_comes_back_as_ignored() {
    let reason = "because the cpu core less than 32";
    let result = gate(false, reason).map_err(Some);
    assert_eq!(classify(&result), Outcome::Ignored(reason.to_string()));
}

#[test]
fn lines_of_a_report() {
    assert_eq!(
        report_line("net", "test_works", &Outcome::Passed),
        "test net::test_works ... ok"
    );
    assert_eq!(
        report_line("net", "test_down", &Outcome::Failed(Some("no route".to_string()))),
        "test net::test_down ... FAILED, no route"
    );
    assert_eq!(
        report_line("net", "test_down", &Outcome::Failed(None)),
        "test net::test_down ... FAILED"
    );
    assert_eq!(
        report_line(
            "net",
            "test_ignored",
            &Outcome::Ignored("because ip 193.194.195.196 not response".to_string())
        ),
        "test net::test_ignored ... ignored, because ip 193.194.195.196 not response"
    );
}

#[test]
fn outcomes_are_counted() {
    let outcomes = vec![
        Outcome::Passed,
        Outcome::Ignored("x".to_string()),
        Outcome::Passed,
        Outcome::Failed(None),
        Outcome::Passed,
        Outcome::Ignored("y".to_string()),
    ];
    assert_eq!(tally(&outcomes), Tally { passed: 3, failed: 1, ignored: 2 });
    assert_eq!(tally(&vec![]), Tally { passed: 0, failed: 0, ignored: 0 });
}

#[test]
fn summary_of_a_report() {
    assert_eq!(
        summary_line(&Tally { passed: 3, failed: 0, ignored: 2 }),
        "test result: ok. 3 passed; 0 failed; 2 ignored;"
    );
    assert_eq!(
        summary_line(&Tally { passed: 10, failed: 1, ignored: 0 }),
        "test result: failed. 10 passed; 1 failed; 0 ignored;"
    );
}

#[test]
fn a_failing_test_fails_the_run() {
    assert_eq!(exit_status(&vec![Outcome::Passed, Outcome::Failed(None)]), 1);
    assert_eq!(
        exit_status(&vec![Outcome::Failed(Some("x".to_string())), Outcome::Passed]),
        1
    );
}

#[test]
fn passed_and_ignored_tests_do_not_fail_the_run() {
    assert_eq!(exit_status(&vec![]), 0);
    assert_eq!(
        exit_status(&vec![Outcome::Passed, Outcome::Ignored("x".to_string())]),
        0
    );
    assert_eq!(exit_status(&vec![Outcome::Ignored("x".to_string())]), 0);
}

#[test]
fn an_error_of_the_body_fails_the_test() {
    assert_eq!(after_body(None), Ok(()));
    assert_eq!(after_body(Some("Custom(\"boom\")".to_string())), Err("Custom(\"boom\")".to_string()));
    let result = after_body(Some("boom".to_string())).map_err(Some);
    assert_eq!(classify(&result), Outcome::Failed(Some("boom".to_string())));
}

#[test]
fn heading_of_a_report() {
    assert_eq!(heading_line(3, "net"), "running 3 tests of net");
    assert_eq!(heading_line(0, "empty"), "running 0 tests of empty");
    assert_eq!(heading_line(12, "m"), "running 12 tests of m");
}
