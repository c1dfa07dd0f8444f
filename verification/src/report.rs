//! What a test that is checked when it runs hands back, how that is told
//! apart into passed, ignored and failed, and the report of a module that
//! reports for itself.

use vstd::prelude::*;
use crate::number::{count_text, write_count};
use crate::split::{matches_at, occurs_at, slice_chars};
use crate::text::{append_chars, append_str, chars_of, string_of};

verus! {

/// How a test ended.
#[derive(Debug, Clone, PartialEq, Eq)]
pub enum Outcome {
    /// The condition held and the body ran without an error.
    Passed,
    /// The condition did not hold; the reason is kept.
    Ignored(String),
    /// The body ended in an error, with its message if it had one.
    Failed(Option<String>),
}

/// `libtest_with::RUNTIME_IGNORE_PREFIX`: the text with which the message of
/// a check begins when the test was skipped and did not fail. Its value is
/// the one that the crate's source gives.
#[verifier::external_body]
pub(crate) fn ignore_prefix() -> (prefix: &'static str)
    ensures
        prefix@ == "rt-ignored: "@,
{
    libtest_with::RUNTIME_IGNORE_PREFIX
}

/// What a check hands back for a condition with the verdict
/// `(satisfied, reason)`: nothing where it is satisfied, else the reason
/// behind the mark of a skipped test.
pub open spec fn gate_result(satisfied: bool, reason: Seq<char>) -> Result<(), Seq<char>> {
    if satisfied {
        Ok(())
    } else {
        Err("rt-ignored: "@ + reason)
    }
}

/// How a test ended that handed back `result`: `Ok` is passed; a message
/// that begins with the mark of a skipped test is ignored, with the rest of
/// the message as the reason; any other error is a failure.
pub open spec fn outcome_of(result: Result<(), Option<Seq<char>>>) -> (int, Option<Seq<char>>) {
    match result {
        Ok(_) => (0, None),
        Err(Some(msg)) => if occurs_at(msg, "rt-ignored: "@, 0) {
            (1, Some(msg.skip("rt-ignored: "@.len() as int)))
        } else {
            (2, Some(msg))
        },
        Err(None) => (2, None),
    }
}

impl Outcome {
    /// The kind of this outcome as a number, 0 for passed, 1 for ignored and
    /// 2 for failed, and the text that it carries.
    pub open spec fn parts(&self) -> (int, Option<Seq<char>>) {
        match self {
            Outcome::Passed => (0, None),
            Outcome::Ignored(reason) => (1, Some(reason@)),
            Outcome::Failed(Some(msg)) => (2, Some(msg@)),
            Outcome::Failed(None) => (2, None),
        }
    }
}

/// The view of what a check handed back.
pub open spec fn result_view(result: Result<(), Option<String>>) -> Result<
    (),
    Option<Seq<char>>,
> {
    match result {
        Ok(_) => Ok(()),
        Err(Some(msg)) => Err(Some(msg@)),
        Err(None) => Err(None),
    }
}

/// What the check of a condition hands back before the body runs: `Ok`
/// where the condition is satisfied, else the reason marked as a skip.
pub fn gate(satisfied: bool, reason: &str) -> (r: Result<(), String>)
    ensures
        match r {
            Ok(_) => gate_result(satisfied, reason@) is Ok,
            Err(msg) => gate_result(satisfied, reason@) == Err::<(), Seq<char>>(msg@),
        },
{
    if satisfied {
        Ok(())
    } else {
        let mut msg: Vec<char> = Vec::new();
        append_str(&mut msg, ignore_prefix());
        append_str(&mut msg, reason);
        Err(string_of(&msg))
    }
}

/// Tells how a test ended from what its check handed back.
pub fn classify(result: &Result<(), Option<String>>) -> (out: Outcome)
    ensures
        out.parts() == outcome_of(result_view(*result)),
{
    match result {
        Ok(_) => Outcome::Passed,
        Err(None) => Outcome::Failed(None),
        Err(Some(msg)) => {
            let text = chars_of(msg.as_str());
            let prefix = chars_of(ignore_prefix());
            if matches_at(&text, &prefix, 0) {
                let reason = slice_chars(&text, prefix.len(), text.len());
                Outcome::Ignored(string_of(&reason))
            } else {
                Outcome::Failed(Some(string_of(&text)))
            }
        },
    }
}

/// A test that was skipped for a reason is told apart as ignored, with that
/// same reason.
pub proof fn law_skip_is_ignored(reason: Seq<char>)
    ensures
        gate_result(false, reason) matches Err(msg) && outcome_of(Err(Some(msg))) == (
            1int,
            Some(reason),
        ),
{
    let prefix = "rt-ignored: "@;
    let msg = prefix + reason;
    assert(msg.subrange(0, prefix.len() as int) == prefix);
    assert(msg.skip(prefix.len() as int) == reason);
}

/// The counts of a report.
#[derive(Debug, Clone, Copy, PartialEq, Eq, Structural)]
pub struct Tally {
    pub passed: usize,
    pub failed: usize,
    pub ignored: usize,
}

/// How many of the first `n` outcomes are of the kind `kind`.
pub open spec fn count_kind(kinds: Seq<int>, kind: int) -> nat
    decreases kinds.len(),
{
    if kinds.len() == 0 {
        0
    } else {
        count_kind(kinds.drop_last(), kind) + if kinds.last() == kind {
            1nat
        } else {
            0nat
        }
    }
}

/// The kinds of the outcomes.
pub open spec fn kinds_of(outcomes: Seq<Outcome>) -> Seq<int> {
    Seq::new(outcomes.len(), |i: int| outcomes[i].parts().0)
}

/// The line that reports one test of the module `module`.
pub open spec fn line_text(module: Seq<char>, name: Seq<char>, outcome: Outcome) -> Seq<char> {
    "test "@ + module + "::"@ + name + " ... "@ + match outcome {
        Outcome::Passed => "ok"@,
        Outcome::Ignored(reason) => "ignored, "@ + reason@,
        Outcome::Failed(Some(msg)) => "FAILED, "@ + msg@,
        Outcome::Failed(None) => "FAILED"@,
    }
}

/// The line that closes a report with the counts `tally`.
pub open spec fn summary_text(tally: Tally) -> Seq<char> {
    "test result: "@ + (if tally.failed > 0 {
        "failed"@
    } else {
        "ok"@
    }) + ". "@ + count_text(tally.passed as nat) + " passed; "@ + count_text(tally.failed as nat)
        + " failed; "@ + count_text(tally.ignored as nat) + " ignored;"@
}

/// The line that reports one test of the module `module`.
pub fn report_line(module: &str, name: &str, outcome: &Outcome) -> (out: String)
    ensures
        out@ == line_text(module@, name@, *outcome),
{
    let mut line: Vec<char> = Vec::new();
    append_str(&mut line, "test ");
    append_str(&mut line, module);
    append_str(&mut line, "::");
    append_str(&mut line, name);
    append_str(&mut line, " ... ");
    let ghost head = line@;
    match outcome {
        Outcome::Passed => {
            append_str(&mut line, "ok");
        },
        Outcome::Ignored(reason) => {
            append_str(&mut line, "ignored, ");
            append_str(&mut line, reason.as_str());
            assert(line@ == head + ("ignored, "@ + reason@));
        },
        Outcome::Failed(Some(msg)) => {
            append_str(&mut line, "FAILED, ");
            append_str(&mut line, msg.as_str());
            assert(line@ == head + ("FAILED, "@ + msg@));
        },
        Outcome::Failed(None) => {
            append_str(&mut line, "FAILED");
        },
    }
    string_of(&line)
}

/// The counts of the outcomes: how many passed, failed and were ignored.
pub fn tally(outcomes: &Vec<Outcome>) -> (t: Tally)
    ensures
        t.passed == count_kind(kinds_of(outcomes@), 0),
        t.ignored == count_kind(kinds_of(outcomes@), 1),
        t.failed == count_kind(kinds_of(outcomes@), 2),
        t.passed + t.ignored + t.failed == outcomes.len(),
{
    let mut t = Tally { passed: 0, failed: 0, ignored: 0 };
    let mut i: usize = 0;
    while i < outcomes.len()
        invariant
            i <= outcomes.len(),
            t.passed == count_kind(kinds_of(outcomes@).take(i as int), 0),
            t.ignored == count_kind(kinds_of(outcomes@).take(i as int), 1),
            t.failed == count_kind(kinds_of(outcomes@).take(i as int), 2),
            t.passed + t.ignored + t.failed == i,
        decreases outcomes.len() - i,
    {
        proof {
            let next = kinds_of(outcomes@).take(i + 1);
            assert(next.drop_last() == kinds_of(outcomes@).take(i as int));
            assert(next.last() == outcomes@[i as int].parts().0);
        }
        match &outcomes[i] {
            Outcome::Passed => {
                t.passed = t.passed + 1;
            },
            Outcome::Ignored(_) => {
                t.ignored = t.ignored + 1;
            },
            Outcome::Failed(_) => {
                t.failed = t.failed + 1;
            },
        }
        i += 1;
    }
    assert(kinds_of(outcomes@).take(outcomes.len() as int) == kinds_of(outcomes@));
    t
}

/// The line that closes a report with the counts `tally`.
pub fn summary_line(tally: &Tally) -> (out: String)
    ensures
        out@ == summary_text(*tally),
{
    let mut line: Vec<char> = Vec::new();
    append_str(&mut line, "test result: ");
    if tally.failed > 0 {
        append_str(&mut line, "failed");
    } else {
        append_str(&mut line, "ok");
    }
    append_str(&mut line, ". ");
    append_chars(&mut line, &write_count(tally.passed));
    append_str(&mut line, " passed; ");
    append_chars(&mut line, &write_count(tally.failed));
    append_str(&mut line, " failed; ");
    append_chars(&mut line, &write_count(tally.ignored));
    append_str(&mut line, " ignored;");
    string_of(&line)
}

/// The exit status of a module that reports for itself: 1 where a test
/// failed, else 0.
pub fn exit_status(outcomes: &Vec<Outcome>) -> (status: i32)
    ensures
        status == 1 <==> exists|i: int|
            0 <= i < outcomes.len() && #[trigger] outcomes[i].parts().0 == 2,
        status == 0 || status == 1,
{
    let t = tally(outcomes);
    proof {
        lemma_count_kind(kinds_of(outcomes@), 2);
        if t.failed > 0 {
            let i = choose|i: int|
                0 <= i < kinds_of(outcomes@).len() && #[trigger] kinds_of(outcomes@)[i] == 2;
            assert(outcomes[i].parts().0 == 2);
        } else {
            assert forall|i: int| 0 <= i < outcomes.len() implies #[trigger] outcomes[i].parts().0
                != 2 by {
                assert(kinds_of(outcomes@)[i] == outcomes[i].parts().0);
            }
        }
    }
    if t.failed > 0 {
        1
    } else {
        0
    }
}

/// A kind is counted exactly where an outcome is of that kind.
pub proof fn lemma_count_kind(kinds: Seq<int>, kind: int)
    ensures
        count_kind(kinds, kind) > 0 <==> exists|i: int|
            0 <= i < kinds.len() && #[trigger] kinds[i] == kind,
    decreases kinds.len(),
{
    if kinds.len() > 0 {
        let front = kinds.drop_last();
        lemma_count_kind(front, kind);
        if count_kind(kinds, kind) > 0 {
            if kinds.last() == kind {
                assert(kinds[kinds.len() - 1] == kind);
            } else {
                let i = choose|i: int| 0 <= i < front.len() && #[trigger] front[i] == kind;
                assert(kinds[i] == kind);
            }
        }
        if exists|i: int| 0 <= i < kinds.len() && #[trigger] kinds[i] == kind {
            let i = choose|i: int| 0 <= i < kinds.len() && #[trigger] kinds[i] == kind;
            if i < front.len() {
                assert(front[i] == kind);
            }
        }
    }
}

/// What a check hands back after the body of the test has run: the error of
/// the body as a failure, where it handed one back, else nothing.
pub fn after_body(error: Option<String>) -> (r: Result<(), String>)
    ensures
        match error {
            Some(text) => r == Err::<(), String>(text),
            None => r is Ok,
        },
{
    match error {
        Some(text) => Err(text),
        None => Ok(()),
    }
}

/// The line that opens the report of the module `module` with `total`
/// tests.
pub open spec fn heading_text(total: usize, module: Seq<char>) -> Seq<char> {
    "running "@ + count_text(total as nat) + " tests of "@ + module
}

/// The line that opens the report of the module `module` with `total`
/// tests.
pub fn heading_line(total: usize, module: &str) -> (out: String)
    ensures
        out@ == heading_text(total, module@),
{
    let mut line: Vec<char> = Vec::new();
    append_str(&mut line, "running ");
    append_chars(&mut line, &write_count(total));
    append_str(&mut line, " tests of ");
    append_str(&mut line, module);
    string_of(&line)
}

} // verus!
