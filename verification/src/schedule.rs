//! The order in which a runner takes the tests of its modules: each module
//! with a fixture alone, in the order of the list, then the tests of all
//! other modules together.

use vstd::prelude::*;

verus! {

/// What a runner knows of a module: whether it has a fixture, and how many
/// tests it holds.
#[derive(Debug, Clone, Copy, PartialEq, Eq, Structural)]
pub struct ModuleTests {
    pub has_fixture: bool,
    pub tests: usize,
}

/// A batch of tests that run together. A test is named by the position of
/// its module in the list and its own position in the module.
#[derive(Debug, Clone, PartialEq, Eq)]
pub struct Batch {
    /// The module whose fixture lives while the batch runs, if it is the
    /// batch of one module with a fixture.
    pub fixture_of: Option<usize>,
    pub tests: Vec<(usize, usize)>,
}

/// What the runner does next.
#[derive(Debug, Clone, Copy, PartialEq, Eq, Structural)]
pub enum RunnerAction {
    /// It builds the fixture of the module at this position of the list.
    Construct(usize),
    /// It runs the batch at this position of the plan.
    Run(usize),
    /// It releases the fixture of the module at this position of the list.
    Release(usize),
    /// It ends with this exit status.
    Exit(i32),
}

impl Batch {
    /// The fixture module and the tests of the batch.
    pub open spec fn view(&self) -> (Option<usize>, Seq<(usize, usize)>) {
        (self.fixture_of, self.tests@)
    }
}

/// The views of a list of batches.
pub open spec fn batch_views(batches: Seq<Batch>) -> Seq<(Option<usize>, Seq<(usize, usize)>)> {
    Seq::new(batches.len(), |i: int| batches[i]@)
}

/// The test at position `t` of the module at position `m`.
pub open spec fn test_at(m: int, t: int) -> (usize, usize) {
    (m as usize, t as usize)
}

/// The tests of the module at position `m`, which holds `count` tests.
pub open spec fn tests_of(m: int, count: int) -> Seq<(usize, usize)> {
    Seq::new(count as nat, |t: int| test_at(m, t))
}

/// The batches of the modules with a fixture, one for each, in the order of
/// the list.
pub open spec fn isolated(mods: Seq<ModuleTests>) -> Seq<(Option<usize>, Seq<(usize, usize)>)>
    decreases mods.len(),
{
    if mods.len() == 0 {
        Seq::empty()
    } else {
        let front = isolated(mods.drop_last());
        let m = mods.len() - 1;
        if mods.last().has_fixture {
            front.push((Some(m as usize), tests_of(m, mods.last().tests as int)))
        } else {
            front
        }
    }
}

/// The tests of the modules without a fixture, in the order of the list.
pub open spec fn pooled(mods: Seq<ModuleTests>) -> Seq<(usize, usize)>
    decreases mods.len(),
{
    if mods.len() == 0 {
        Seq::empty()
    } else {
        let front = pooled(mods.drop_last());
        if mods.last().has_fixture {
            front
        } else {
            front + tests_of(mods.len() - 1, mods.last().tests as int)
        }
    }
}

/// The plan of a runner: the batches of the modules with a fixture, then
/// one batch of all other tests.
pub open spec fn schedule(mods: Seq<ModuleTests>) -> Seq<(Option<usize>, Seq<(usize, usize)>)> {
    isolated(mods).push((None, pooled(mods)))
}

/// The tests of the batches, one batch after another.
pub open spec fn in_order(batches: Seq<(Option<usize>, Seq<(usize, usize)>)>) -> Seq<
    (usize, usize),
>
    decreases batches.len(),
{
    if batches.len() == 0 {
        Seq::empty()
    } else {
        in_order(batches.drop_last()) + batches.last().1
    }
}

/// The order in which the tests run.
pub open spec fn run_order(mods: Seq<ModuleTests>) -> Seq<(usize, usize)> {
    in_order(schedule(mods))
}

/// Every test of the batches of modules with a fixture belongs to such a
/// module, and every test of such a module is among them.
proof fn lemma_isolated(mods: Seq<ModuleTests>)
    requires
        mods.len() <= usize::MAX,
    ensures
        forall|k: int|
            0 <= k < in_order(isolated(mods)).len() ==> {
                let test = #[trigger] in_order(isolated(mods))[k];
                0 <= test.0 < mods.len() && mods[test.0 as int].has_fixture && test.1
                    < mods[test.0 as int].tests
            },
        forall|m: int, t: int|
            0 <= m < mods.len() && mods[m].has_fixture && 0 <= t < mods[m].tests ==> in_order(
                isolated(mods),
            ).contains(#[trigger] test_at(m, t)),
    decreases mods.len(),
{
    if mods.len() > 0 {
        let front = mods.drop_last();
        lemma_isolated(front);
        let last = mods.len() - 1;
        let before = in_order(isolated(front));
        let now = in_order(isolated(mods));
        if mods.last().has_fixture {
            let added = tests_of(last, mods.last().tests as int);
            assert(isolated(mods).drop_last() == isolated(front));
            assert(now == before + added);
            assert forall|m: int, t: int|
                0 <= m < mods.len() && mods[m].has_fixture && 0 <= t < mods[m].tests implies now.contains(
                #[trigger] test_at(m, t),
            ) by {
                if m < last {
                    assert(front[m] == mods[m]);
                    assert(before.contains(test_at(m, t)));
                    let k = choose|k: int|
                        0 <= k < before.len() && before[k] == test_at(m, t);
                    assert(now[k] == test_at(m, t));
                } else {
                    assert(added[t] == test_at(m, t));
                    assert(now[before.len() + t] == test_at(m, t));
                }
            }
            assert forall|k: int| 0 <= k < now.len() implies ({
                let test = #[trigger] now[k];
                0 <= test.0 < mods.len() && mods[test.0 as int].has_fixture && test.1
                    < mods[test.0 as int].tests
            }) by {
                if k < before.len() {
                    let test = before[k];
                    assert(front[test.0 as int] == mods[test.0 as int]);
                } else {
                    assert(now[k] == added[k - before.len()]);
                }
            }
        } else {
            assert(now == before);
            assert forall|m: int, t: int|
                0 <= m < mods.len() && mods[m].has_fixture && 0 <= t < mods[m].tests implies now.contains(
                #[trigger] test_at(m, t),
            ) by {
                assert(front[m] == mods[m]);
            }
            assert forall|k: int| 0 <= k < now.len() implies ({
                let test = #[trigger] now[k];
                0 <= test.0 < mods.len() && mods[test.0 as int].has_fixture && test.1
                    < mods[test.0 as int].tests
            }) by {
                let test = before[k];
                assert(front[test.0 as int] == mods[test.0 as int]);
            }
        }
    }
}

/// Every test of the last batch belongs to a module without a fixture, and
/// every test of such a module is in it.
proof fn lemma_pooled(mods: Seq<ModuleTests>)
    requires
        mods.len() <= usize::MAX,
    ensures
        forall|k: int|
            0 <= k < pooled(mods).len() ==> {
                let test = #[trigger] pooled(mods)[k];
                0 <= test.0 < mods.len() && !mods[test.0 as int].has_fixture && test.1
                    < mods[test.0 as int].tests
            },
        forall|m: int, t: int|
            0 <= m < mods.len() && !mods[m].has_fixture && 0 <= t < mods[m].tests ==> pooled(
                mods,
            ).contains(#[trigger] test_at(m, t)),
    decreases mods.len(),
{
    if mods.len() > 0 {
        let front = mods.drop_last();
        lemma_pooled(front);
        let last = mods.len() - 1;
        let before = pooled(front);
        let now = pooled(mods);
        if !mods.last().has_fixture {
            let added = tests_of(last, mods.last().tests as int);
            assert(now == before + added);
            assert forall|m: int, t: int|
                0 <= m < mods.len() && !mods[m].has_fixture && 0 <= t < mods[m].tests implies now.contains(
                #[trigger] test_at(m, t),
            ) by {
                if m < last {
                    assert(front[m] == mods[m]);
                    assert(before.contains(test_at(m, t)));
                    let k = choose|k: int|
                        0 <= k < before.len() && before[k] == test_at(m, t);
                    assert(now[k] == test_at(m, t));
                } else {
                    assert(added[t] == test_at(m, t));
                    assert(now[before.len() + t] == test_at(m, t));
                }
            }
            assert forall|k: int| 0 <= k < now.len() implies ({
                let test = #[trigger] now[k];
                0 <= test.0 < mods.len() && !mods[test.0 as int].has_fixture && test.1
                    < mods[test.0 as int].tests
            }) by {
                if k < before.len() {
                    let test = before[k];
                    assert(front[test.0 as int] == mods[test.0 as int]);
                } else {
                    assert(now[k] == added[k - before.len()]);
                }
            }
        } else {
            assert(now == before);
            assert forall|m: int, t: int|
                0 <= m < mods.len() && !mods[m].has_fixture && 0 <= t < mods[m].tests implies now.contains(
                #[trigger] test_at(m, t),
            ) by {
                assert(front[m] == mods[m]);
            }
            assert forall|k: int| 0 <= k < now.len() implies ({
                let test = #[trigger] now[k];
                0 <= test.0 < mods.len() && !mods[test.0 as int].has_fixture && test.1
                    < mods[test.0 as int].tests
            }) by {
                let test = before[k];
                assert(front[test.0 as int] == mods[test.0 as int]);
            }
        }
    }
}

/// Whatever the order of the list of modules: every test of every module
/// runs, and each test of a module with a fixture runs before each test of
/// a module without one.
pub proof fn law_fixture_modules_run_first(mods: Seq<ModuleTests>)
    requires
        mods.len() <= usize::MAX,
    ensures
        forall|m: int, t: int|
            0 <= m < mods.len() && 0 <= t < mods[m].tests ==> run_order(mods).contains(
                #[trigger] test_at(m, t),
            ),
        forall|a: int, b: int|
            0 <= a < run_order(mods).len() && 0 <= b < run_order(mods).len() && mods[(
            #[trigger] run_order(mods)[a]).0 as int].has_fixture && !mods[(
            #[trigger] run_order(mods)[b]).0 as int].has_fixture ==> a < b,
{
    lemma_isolated(mods);
    lemma_pooled(mods);
    let first = in_order(isolated(mods));
    let second = pooled(mods);
    let all = run_order(mods);
    assert(schedule(mods).drop_last() == isolated(mods));
    assert(all == first + second);
    assert forall|m: int, t: int| 0 <= m < mods.len() && 0 <= t < mods[m].tests implies all.contains(
        #[trigger] test_at(m, t),
    ) by {
        if mods[m].has_fixture {
            assert(first.contains(test_at(m, t)));
            let k = choose|k: int| 0 <= k < first.len() && first[k] == test_at(m, t);
            assert(all[k] == test_at(m, t));
        } else {
            assert(second.contains(test_at(m, t)));
            let k = choose|k: int| 0 <= k < second.len() && second[k] == test_at(m, t);
            assert(all[first.len() + k] == test_at(m, t));
        }
    }
    assert forall|a: int, b: int|
        0 <= a < all.len() && 0 <= b < all.len() && mods[(#[trigger] all[a]).0 as int].has_fixture
            && !mods[(#[trigger] all[b]).0 as int].has_fixture implies a < b by {
        if a >= first.len() {
            assert(all[a] == second[a - first.len()]);
        }
        if b < first.len() {
            assert(all[b] == first[b]);
        }
    }
}

fn list_tests(m: usize, count: usize) -> (out: Vec<(usize, usize)>)
    ensures
        out@ == tests_of(m as int, count as int),
{
    let mut out: Vec<(usize, usize)> = Vec::new();
    let mut t: usize = 0;
    while t < count
        invariant
            t <= count,
            out@ == tests_of(m as int, t as int),
        decreases count - t,
    {
        out.push((m, t));
        assert(out@ == tests_of(m as int, t + 1));
        t += 1;
    }
    out
}

/// The plan of a runner for the modules `mods`: one batch for each module
/// with a fixture, in the order of the list, then one batch of the tests of
/// all other modules.
pub fn plan_batches(mods: &Vec<ModuleTests>) -> (plan: Vec<Batch>)
    ensures
        batch_views(plan@) == schedule(mods@),
{
    let mut plan: Vec<Batch> = Vec::new();
    let mut rest: Vec<(usize, usize)> = Vec::new();
    let mut m: usize = 0;
    while m < mods.len()
        invariant
            m <= mods.len(),
            batch_views(plan@) == isolated(mods@.take(m as int)),
            rest@ == pooled(mods@.take(m as int)),
        decreases mods.len() - m,
    {
        proof {
            assert(mods@.take(m + 1).drop_last() == mods@.take(m as int));
            assert(mods@.take(m + 1).last() == mods@[m as int]);
        }
        let mut tests = list_tests(m, mods[m].tests);
        if mods[m].has_fixture {
            let batch = Batch { fixture_of: Some(m), tests };
            assert(batch_views(plan@.push(batch)) == batch_views(plan@).push(batch@));
            plan.push(batch);
        } else {
            rest.append(&mut tests);
        }
        m += 1;
    }
    assert(mods@.take(mods.len() as int) == mods@);
    let last = Batch { fixture_of: None, tests: rest };
    assert(batch_views(plan@.push(last)) == batch_views(plan@).push(last@));
    plan.push(last);
    plan
}

/// What a runner does for the batches `batches`, one after another, as
/// long as no test fails: the fixture of a batch is built before the batch
/// runs and released after it.
pub open spec fn actions_of(batches: Seq<(Option<usize>, Seq<(usize, usize)>)>) -> Seq<
    RunnerAction,
>
    decreases batches.len(),
{
    if batches.len() == 0 {
        Seq::empty()
    } else {
        let front = actions_of(batches.drop_last());
        let k = (batches.len() - 1) as usize;
        match batches.last().0 {
            Some(m) => front + seq![
                RunnerAction::Construct(m),
                RunnerAction::Run(k),
                RunnerAction::Release(m),
            ],
            None => front.push(RunnerAction::Run(k)),
        }
    }
}

/// What a runner does for the modules `mods`, as long as no test fails.
pub open spec fn run_of(mods: Seq<ModuleTests>) -> Seq<RunnerAction> {
    actions_of(schedule(mods))
}

/// What a runner of the plan `plan` does, one action after another, as long
/// as no test fails.
pub fn plan_actions(plan: &Vec<Batch>) -> (out: Vec<RunnerAction>)
    ensures
        out@ == actions_of(batch_views(plan@)),
{
    let mut out: Vec<RunnerAction> = Vec::new();
    let mut k: usize = 0;
    while k < plan.len()
        invariant
            k <= plan.len(),
            out@ == actions_of(batch_views(plan@).take(k as int)),
        decreases plan.len() - k,
    {
        proof {
            let next = batch_views(plan@).take(k + 1);
            assert(next.drop_last() == batch_views(plan@).take(k as int));
            assert(next.last() == plan@[k as int]@);
        }
        let ghost before = out@;
        match plan[k].fixture_of {
            Some(m) => {
                out.push(RunnerAction::Construct(m));
                out.push(RunnerAction::Run(k));
                out.push(RunnerAction::Release(m));
                assert(out@ == before + seq![
                    RunnerAction::Construct(m),
                    RunnerAction::Run(k),
                    RunnerAction::Release(m),
                ]);
            },
            None => {
                out.push(RunnerAction::Run(k));
            },
        }
        k += 1;
    }
    assert(batch_views(plan@).take(plan.len() as int) == batch_views(plan@));
    out
}

/// What a runner does next, where `actions` is what it does as long as no
/// test fails, `done` of them are done, and `failed` tells whether the batch
/// that ran last had a failing test: a failure ends the run at once with the
/// status 101, before anything is released; else the next action follows,
/// and after the last one the run ends with the status 0.
pub fn next_step(actions: &Vec<RunnerAction>, done: usize, failed: bool) -> (step: RunnerAction)
    ensures
        step == if failed {
            RunnerAction::Exit(101)
        } else if done < actions.len() {
            actions@[done as int]
        } else {
            RunnerAction::Exit(0)
        },
{
    if failed {
        RunnerAction::Exit(101)
    } else if done < actions.len() {
        actions[done]
    } else {
        RunnerAction::Exit(0)
    }
}

/// What holds of the actions for the batches of the modules with a fixture:
/// every fixture that is built or released is that of such a module, each
/// such module has its fixture built, its batch run and its fixture
/// released in three actions that follow one another, and no fixture is
/// released twice.
proof fn lemma_isolated_actions(mods: Seq<ModuleTests>)
    requires
        mods.len() <= usize::MAX,
    ensures
        isolated(mods).len() <= mods.len(),
        actions_of(isolated(mods)).len() == 3 * isolated(mods).len(),
        forall|i: int|
            0 <= i < actions_of(isolated(mods)).len() ==> match #[trigger] actions_of(
                isolated(mods),
            )[i] {
                RunnerAction::Release(m) => m < mods.len() && mods[m as int].has_fixture,
                RunnerAction::Construct(m) => m < mods.len() && mods[m as int].has_fixture,
                RunnerAction::Run(k) => k < isolated(mods).len(),
                RunnerAction::Exit(_) => false,
            },
        forall|m: int|
            0 <= m < mods.len() && (#[trigger] mods[m]).has_fixture ==> released_after_batch(
                actions_of(isolated(mods)),
                isolated(mods),
                m as usize,
            ),
        forall|i: int, j: int|
            0 <= i < actions_of(isolated(mods)).len() && 0 <= j < actions_of(isolated(mods)).len()
                && (#[trigger] actions_of(isolated(mods))[i]) is Release && actions_of(
                isolated(mods),
            )[i] == #[trigger] actions_of(isolated(mods))[j] ==> i == j,
    decreases mods.len(),
{
    if mods.len() > 0 {
        let front = mods.drop_last();
        lemma_isolated_actions(front);
        let last = (mods.len() - 1) as usize;
        let before = actions_of(isolated(front));
        let now = actions_of(isolated(mods));
        assert forall|m: int| 0 <= m < front.len() implies front[m] == mods[m] by {}
        if mods.last().has_fixture {
            let k = isolated(front).len() as usize;
            let batch = (Some(last), tests_of(last as int, mods.last().tests as int));
            assert(isolated(mods) == isolated(front).push(batch));
            assert(isolated(mods).drop_last() == isolated(front));
            assert(now == before + seq![
                RunnerAction::Construct(last),
                RunnerAction::Run(k),
                RunnerAction::Release(last),
            ]);
            let n = before.len() as int;
            assert(now[n] == RunnerAction::Construct(last));
            assert(now[n + 1] == RunnerAction::Run(k));
            assert(now[n + 2] == RunnerAction::Release(last));
            assert forall|i: int| 0 <= i < n implies now[i] == before[i] by {}
            assert forall|m: int|
                0 <= m < mods.len() && (#[trigger] mods[m]).has_fixture implies released_after_batch(
                now,
                isolated(mods),
                m as usize,
            ) by {
                let mu = m as usize;
                if m < last {
                    assert(front[m].has_fixture);
                    assert(released_after_batch(before, isolated(front), mu));
                    let r = choose|r: int| released_at(before, isolated(front), mu, r);
                    assert(released_at(before, isolated(front), mu, r));
                    assert(now[r] == before[r]);
                    assert(now[r - 1] == before[r - 1]);
                    assert(now[r - 2] == before[r - 2]);
                    let b = before[r - 1]->Run_0;
                    assert(isolated(mods)[b as int] == isolated(front)[b as int]);
                    assert(released_at(now, isolated(mods), mu, r));
                } else {
                    assert(isolated(mods)[k as int] == batch);
                    assert(released_at(now, isolated(mods), mu, n + 2));
                }
            }
            assert forall|i: int, j: int|
                0 <= i < now.len() && 0 <= j < now.len() && (#[trigger] now[i]) is Release && now[i]
                    == #[trigger] now[j] implies i == j by {
                if i < n && j < n {
                    assert(before[i] == before[j]);
                } else if i < n {
                    assert(before[i] is Release);
                } else if j < n {
                    assert(before[j] is Release);
                }
            }
        } else {
            assert(isolated(mods) == isolated(front));
        }
    }
}

/// Whether the action at position `r` releases the fixture of the module
/// `m`, right after the batch of that module has run, which is right after
/// the fixture was built.
pub open spec fn released_at(
    actions: Seq<RunnerAction>,
    batches: Seq<(Option<usize>, Seq<(usize, usize)>)>,
    m: usize,
    r: int,
) -> bool {
    &&& 2 <= r < actions.len()
    &&& actions[r] == RunnerAction::Release(m)
    &&& actions[r - 1] matches RunnerAction::Run(k) && k < batches.len() && batches[k as int].0
        == Some(m)
    &&& actions[r - 2] == RunnerAction::Construct(m)
}

/// Whether the fixture of the module `m` is released right after the batch
/// of that module has run.
pub open spec fn released_after_batch(
    actions: Seq<RunnerAction>,
    batches: Seq<(Option<usize>, Seq<(usize, usize)>)>,
    m: usize,
) -> bool {
    exists|r: int| released_at(actions, batches, m, r)
}

/// Whatever the order of the list of modules, and as long as no test
/// fails: the fixture of each module that has one is built, the batch of
/// that module runs, and the fixture is released, in three actions that
/// follow one another; it is released once and no more; and every release
/// comes before the batch of the modules without a fixture, which is the
/// last action of the run.
pub proof fn law_fixture_released_once(mods: Seq<ModuleTests>)
    requires
        mods.len() < usize::MAX,
    ensures
        run_of(mods).len() > 0,
        run_of(mods).last() == RunnerAction::Run((schedule(mods).len() - 1) as usize),
        schedule(mods).last().0 is None,
        forall|m: int|
            0 <= m < mods.len() && (#[trigger] mods[m]).has_fixture ==> released_after_batch(
                run_of(mods),
                schedule(mods),
                m as usize,
            ),
        forall|i: int, j: int|
            0 <= i < run_of(mods).len() && 0 <= j < run_of(mods).len() && (
            #[trigger] run_of(mods)[i]) is Release && run_of(mods)[i] == #[trigger] run_of(mods)[j]
                ==> i == j,
        forall|i: int|
            0 <= i < run_of(mods).len() && (#[trigger] run_of(mods)[i]) is Release ==> i
                < run_of(mods).len() - 1,
{
    lemma_isolated_actions(mods);
    let iso = isolated(mods);
    let before = actions_of(iso);
    let all = run_of(mods);
    let k = iso.len() as usize;
    assert(schedule(mods).drop_last() == iso);
    assert(all == before.push(RunnerAction::Run(k)));
    assert forall|i: int| 0 <= i < before.len() implies all[i] == before[i] by {}
    assert forall|m: int|
        0 <= m < mods.len() && (#[trigger] mods[m]).has_fixture implies released_after_batch(
        all,
        schedule(mods),
        m as usize,
    ) by {
        let mu = m as usize;
        assert(released_after_batch(before, iso, mu));
        let r = choose|r: int| released_at(before, iso, mu, r);
        assert(released_at(before, iso, mu, r));
        let b = before[r - 1]->Run_0;
        assert(schedule(mods)[b as int] == iso[b as int]);
        assert(released_at(all, schedule(mods), mu, r));
    }
    assert forall|i: int, j: int|
        0 <= i < all.len() && 0 <= j < all.len() && (#[trigger] all[i]) is Release && all[i]
            == #[trigger] all[j] implies i == j by {
        if i < before.len() && j < before.len() {
            assert(before[i] == before[j]);
        }
    }
}

} // verus!
