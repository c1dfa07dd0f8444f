use test_with::schedule::{
    next_step, plan_actions, plan_batches, Batch, ModuleTests, RunnerAction,
};

fn module(has_fixture: bool, tests: usize) -> ModuleTests {
    ModuleTests { has_fixture, tests }
}

#[test]
fn fixture_module_runs_alone_and_first() {
    let plan = plan_batches(&vec![module(false, 2), module(true, 3)]);
    assert_eq!(
        plan,
        vec![
            Batch { fixture_of: Some(1), tests: vec![(1, 0), (1, 1), (1, 2)] },
            Batch { fixture_of: None, tests: vec![(0, 0), (0, 1)] },
        ]
    );
}

#[test]
fn the_order_of_the_list_does_not_let_others_in_before() {
    let plan = plan_batches(&vec![module(true, 3), module(false, 2)]);
    assert_eq!(
        plan,
        vec![
            Batch { fixture_of: Some(0), tests: vec![(0, 0), (0, 1), (0, 2)] },
            Batch { fixture_of: None, tests: vec![(1, 0), (1, 1)] },
        ]
    );
}

#[test]
fn modules_without_fixture_are_pooled() {
    let plan = plan_batches(&vec![
        module(false, 1),
        module(true, 1),
        module(false, 2),
        module(true, 0),
        module(false, 0),
    ]);
    assert_eq!(
        plan,
        vec![
            Batch { fixture_of: Some(1), tests: vec![(1, 0)] },
            Batch { fixture_of: Some(3), tests: vec![] },
            Batch { fixture_of: None, tests: vec![(0, 0), (2, 0), (2, 1)] },
        ]
    );
}

#[test]
fn no_module_still_gives_the_last_batch() {
    assert_eq!(
        plan_batches(&vec![]),
        vec![Batch { fixture_of: None, tests: vec![] }]
    );
}

#[test]
fn a_fixture_lives_for_one_batch() {
    for mods in [
        vec![module(false, 2), module(true, 3)],
        vec![module(true, 3), module(false, 2)],
    ] {
        let fixture = if mods[0].has_fixture { 0 } else { 1 };
        let plan = plan_batches(&mods);
        assert_eq!(
            plan_actions(&plan),
            vec![
                RunnerAction::Construct(fixture),
                RunnerAction::Run(0),
                RunnerAction::Release(fixture),
                RunnerAction::Run(1),
            ]
        );
    }
}

#[test]
fn each_fixture_is_released_before_the_next_is_built() {
    let mods = vec![module(true, 1), module(false, 1), module(true, 2)];
    let plan = plan_batches(&mods);
    assert_eq!(
        plan_actions(&plan),
        vec![
            RunnerAction::Construct(0),
            RunnerAction::Run(0),
            RunnerAction::Release(0),
            RunnerAction::Construct(2),
            RunnerAction::Run(1),
            RunnerAction::Release(2),
            RunnerAction::Run(2),
        ]
    );
    assert_eq!(plan_actions(&plan_batches(&vec![])), vec![RunnerAction::Run(0)]);
}

#[test]
fn a_failing_batch_ends_the_run() {
    let actions = vec![
        RunnerAction::Construct(0),
        RunnerAction::Run(0),
        RunnerAction::Release(0),
        RunnerAction::Run(1),
    ];
    assert_eq!(next_step(&actions, 0, false), RunnerAction::Construct(0));
    assert_eq!(next_step(&actions, 1, false), RunnerAction::Run(0));
    assert_eq!(next_step(&actions, 2, false), RunnerAction::Release(0));
    assert_eq!(next_step(&actions, 2, true), RunnerAction::Exit(101));
    assert_eq!(next_step(&actions, 3, false), RunnerAction::Run(1));
    assert_eq!(next_step(&actions, 4, true), RunnerAction::Exit(101));
    assert_eq!(next_step(&actions, 4, false), RunnerAction::Exit(0));
    assert_eq!(next_step(&actions, 9, false), RunnerAction::Exit(0));
}
