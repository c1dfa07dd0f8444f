//! The lock that keeps tests apart which cannot run at the same time: an
//! empty marker file, named after the lock. Who creates the file holds the
//! lock; who finds the file there waits a second and tries again.
//!
//! The steps are decided here. Creating and removing the file, sleeping and
//! running the body is left to the caller, who tells what came of it.

use vstd::prelude::*;
use crate::error::ConfigError;
use crate::item::{check_before_attrs, has_test_attr, marked_serial, marked_test, Attribute};
use crate::number::{count_value, parse_count};
use crate::split::{entries, split_entries};
use crate::text::{chars_of, string_of, views};
use crate::trim::{remove_char, without};

verus! {

/// The waiting time of a lock that names none, in seconds.
pub const DEFAULT_WAIT_SECONDS: usize = 60;

/// How a function that carries a lock is rewritten.
#[derive(Debug, Clone, PartialEq, Eq)]
pub struct LockPlan {
    /// The name of the lock, which is the name of the marker file.
    pub name: String,
    /// How often the lock is tried, a second apart.
    pub wait_seconds: usize,
    /// Whether the test marker is added.
    pub add_test: bool,
}

/// The entries of the argument text of a lock: the pieces between the
/// commas of the text without its blanks.
pub open spec fn lock_entries(attr: Seq<char>) -> Seq<Seq<char>> {
    entries(without(attr, ' '))
}

/// The waiting time that the argument text of a lock asks for, if it is
/// well formed: 60 where it names none.
pub open spec fn lock_wait(attr: Seq<char>) -> Option<usize> {
    if lock_entries(attr).len() < 2 {
        Some(DEFAULT_WAIT_SECONDS)
    } else {
        count_value(lock_entries(attr)[1])
    }
}

/// The rewrite of a function with the decorations `attrs` that carries a
/// lock with the argument text `attr`: the name of the lock, then, if
/// given, the seconds to wait for it. A waiting time that is no count is a
/// fault, and so is a function that carries `serial` below the lock.
pub fn lock_macro(attrs: &Vec<Attribute>, attr: &str) -> (r: Result<LockPlan, ConfigError>)
    ensures
        match r {
            Err(fault) => fault == (if lock_wait(attr@) is None {
                ConfigError::BadLockWait
            } else {
                ConfigError::BeforeSerial
            }) && (lock_wait(attr@) is None || marked_serial(attrs@)),
            Ok(plan) => {
                &&& !marked_serial(attrs@)
                &&& plan.name@ == lock_entries(attr@)[0]
                &&& lock_wait(attr@) == Some(plan.wait_seconds)
                &&& plan.add_test == !marked_test(attrs@)
            },
        },
{
    let text = chars_of(attr);
    let bare = remove_char(&text, ' ');
    let parts = split_entries(&bare);
    assert(views(parts@)[0] == parts@[0]@);
    let wait_seconds = if parts.len() < 2 {
        DEFAULT_WAIT_SECONDS
    } else {
        assert(views(parts@)[1] == parts@[1]@);
        match parse_count(&parts[1]) {
            Some(n) => n,
            None => {
                return Err(ConfigError::BadLockWait);
            },
        }
    };
    match check_before_attrs(attrs) {
        Err(fault) => {
            return Err(fault);
        },
        Ok(_) => {},
    }
    Ok(LockPlan { name: string_of(&parts[0]), wait_seconds, add_test: !has_test_attr(attrs) })
}

/// Where a guarded test stands.
#[derive(Debug, Clone, Copy, PartialEq, Eq, Structural)]
pub enum LockState {
    /// It is about to try to create the marker file, and may try `left`
    /// times in all.
    Trying { left: usize },
    /// It found the marker file there and sleeps; `left` tries remain.
    Sleeping { left: usize },
    /// It created the marker file, and its body runs.
    Holding,
    /// Its body has ended, and it is about to remove the marker file.
    Releasing,
    /// It has removed the marker file and is done.
    Done,
    /// It gave up, or could not remove the marker file.
    Failed,
}

/// What came of the last action of a guarded test.
#[derive(Debug, Clone, Copy, PartialEq, Eq, Structural)]
pub enum LockEvent {
    /// The marker file was created.
    Created,
    /// The marker file was there already.
    Taken,
    /// A second has passed.
    Slept,
    /// The body has ended.
    BodyEnded,
    /// The marker file was removed.
    Removed,
    /// The marker file could not be removed.
    NotRemoved,
}

/// What a guarded test does next.
#[derive(Debug, Clone, Copy, PartialEq, Eq, Structural)]
pub enum LockAction {
    /// Create the marker file, if it is not there.
    Create,
    /// Sleep for a second.
    Sleep,
    /// Run the body of the test.
    RunBody,
    /// Remove the marker file.
    Remove,
    /// End the test as its body ended.
    Finish,
    /// Fail the test: the lock was not acquired.
    FailToAcquire,
    /// Fail the test: the lock was not released.
    FailToRelease,
}

impl LockAction {
    /// The message with which the test fails, where the action fails it.
    pub fn failure(&self) -> (msg: Option<&'static str>)
        ensures
            match *self {
                LockAction::FailToAcquire => msg matches Some(text) && text@
                    == "Fail to acquire the lock for the testcase"@,
                LockAction::FailToRelease => msg matches Some(text) && text@
                    == "Fail to unlock the testcase"@,
                _ => msg is None,
            },
    {
        match self {
            LockAction::FailToAcquire => Some("Fail to acquire the lock for the testcase"),
            LockAction::FailToRelease => Some("Fail to unlock the testcase"),
            _ => None,
        }
    }
}

/// The first state and action of a guarded test that may try `wait_seconds`
/// times.
pub open spec fn lock_begin(wait_seconds: usize) -> (LockState, LockAction) {
    if wait_seconds == 0 {
        (LockState::Failed, LockAction::FailToAcquire)
    } else {
        (LockState::Trying { left: wait_seconds }, LockAction::Create)
    }
}

/// The next state and action of a guarded test in the state `state` after
/// `event`; nothing where the event cannot follow the state.
pub open spec fn lock_next(state: LockState, event: LockEvent) -> Option<(LockState, LockAction)> {
    match (state, event) {
        (LockState::Trying { left }, LockEvent::Created) => Some(
            (LockState::Holding, LockAction::RunBody),
        ),
        (LockState::Trying { left }, LockEvent::Taken) => if left > 0 {
            Some((LockState::Sleeping { left: (left - 1) as usize }, LockAction::Sleep))
        } else {
            Some((LockState::Failed, LockAction::FailToAcquire))
        },
        (LockState::Sleeping { left }, LockEvent::Slept) => if left > 0 {
            Some((LockState::Trying { left }, LockAction::Create))
        } else {
            Some((LockState::Failed, LockAction::FailToAcquire))
        },
        (LockState::Holding, LockEvent::BodyEnded) => Some(
            (LockState::Releasing, LockAction::Remove),
        ),
        (LockState::Releasing, LockEvent::Removed) => Some((LockState::Done, LockAction::Finish)),
        (LockState::Releasing, LockEvent::NotRemoved) => Some(
            (LockState::Failed, LockAction::FailToRelease),
        ),
        _ => None,
    }
}

/// The first state and action of a guarded test that may try `wait_seconds`
/// times: it tries to create the marker file, or fails at once where it may
/// not try at all.
pub fn begin(wait_seconds: usize) -> (r: (LockState, LockAction))
    ensures
        r == lock_begin(wait_seconds),
{
    if wait_seconds == 0 {
        (LockState::Failed, LockAction::FailToAcquire)
    } else {
        (LockState::Trying { left: wait_seconds }, LockAction::Create)
    }
}

/// The next state and action of a guarded test in the state `state` after
/// `event`; nothing where the event cannot follow the state.
pub fn step(state: LockState, event: LockEvent) -> (r: Option<(LockState, LockAction)>)
    ensures
        r == lock_next(state, event),
{
    match (state, event) {
        (LockState::Trying { left }, LockEvent::Created) => Some(
            (LockState::Holding, LockAction::RunBody),
        ),
        (LockState::Trying { left }, LockEvent::Taken) => if left > 0 {
            Some((LockState::Sleeping { left: left - 1 }, LockAction::Sleep))
        } else {
            Some((LockState::Failed, LockAction::FailToAcquire))
        },
        (LockState::Sleeping { left }, LockEvent::Slept) => if left > 0 {
            Some((LockState::Trying { left }, LockAction::Create))
        } else {
            Some((LockState::Failed, LockAction::FailToAcquire))
        },
        (LockState::Holding, LockEvent::BodyEnded) => Some(
            (LockState::Releasing, LockAction::Remove),
        ),
        (LockState::Releasing, LockEvent::Removed) => Some((LockState::Done, LockAction::Finish)),
        (LockState::Releasing, LockEvent::NotRemoved) => Some(
            (LockState::Failed, LockAction::FailToRelease),
        ),
        _ => None,
    }
}

/// Whether a test in this state holds the lock: from the creation of the
/// marker file until its removal.
pub open spec fn holds(state: LockState) -> bool {
    state is Holding || state is Releasing
}

/// How many tries a test in this state has left.
pub open spec fn tries_left(state: LockState) -> nat {
    match state {
        LockState::Trying { left } => left as nat,
        LockState::Sleeping { left } => left as nat,
        _ => 0,
    }
}

/// Two guarded tests that share a lock, and whether the marker file of the
/// lock is there.
pub struct Shared {
    pub marker: bool,
    pub first: LockState,
    pub second: LockState,
}

/// What comes of the action of a test in the state `state` where the marker
/// file is there or not, as `marker` tells, and whether the file is there
/// afterwards. Creating succeeds exactly where the file is not there.
pub open spec fn act(state: LockState, marker: bool) -> Option<(LockEvent, bool)> {
    match state {
        LockState::Trying { left } => if marker {
            Some((LockEvent::Taken, true))
        } else {
            Some((LockEvent::Created, true))
        },
        LockState::Sleeping { left } => Some((LockEvent::Slept, marker)),
        LockState::Holding => Some((LockEvent::BodyEnded, marker)),
        LockState::Releasing => if marker {
            Some((LockEvent::Removed, false))
        } else {
            Some((LockEvent::NotRemoved, false))
        },
        _ => None,
    }
}

/// The two tests after one of them, the first where `first_moves` holds,
/// has taken its next step; unchanged where that test has ended.
pub open spec fn shared_next(w: Shared, first_moves: bool) -> Shared {
    let state = if first_moves {
        w.first
    } else {
        w.second
    };
    match act(state, w.marker) {
        Some((event, marker)) => match lock_next(state, event) {
            Some((next, _)) => if first_moves {
                Shared { marker, first: next, second: w.second }
            } else {
                Shared { marker, first: w.first, second: next }
            },
            None => w,
        },
        None => w,
    }
}

/// What holds of two tests that share a lock, whatever the order of their
/// steps: they never hold the lock both, and the marker file is there
/// exactly while one of them holds it.
pub open spec fn exclusive(w: Shared) -> bool {
    &&& !(holds(w.first) && holds(w.second))
    &&& w.marker == (holds(w.first) || holds(w.second))
}

/// Two tests that begin while the marker file is not there hold the lock
/// neither.
pub proof fn law_lock_begins_free(first_wait: usize, second_wait: usize)
    ensures
        exclusive(
            Shared {
                marker: false,
                first: lock_begin(first_wait).0,
                second: lock_begin(second_wait).0,
            },
        ),
{
}

/// Whichever of two tests that share a lock takes the next step: they still
/// never hold the lock both, and the marker file is there exactly while one
/// of them holds it. A test that has run its body removes the marker file
/// and is done, so that the next try of the other creates it.
pub proof fn law_lock_excludes(w: Shared, first_moves: bool)
    requires
        exclusive(w),
    ensures
        exclusive(shared_next(w, first_moves)),
        w.first is Releasing && first_moves ==> shared_next(w, first_moves).first is Done
            && !shared_next(w, first_moves).marker,
        w.second is Releasing && !first_moves ==> shared_next(w, first_moves).second is Done
            && !shared_next(w, first_moves).marker,
        !w.marker && w.first is Trying && first_moves ==> shared_next(w, first_moves).first
            is Holding,
        !w.marker && w.second is Trying && !first_moves ==> shared_next(w, first_moves).second
            is Holding,
{
}

/// A test gives up after the tries that it was given: each try that finds
/// the marker file there leaves one try less.
pub proof fn law_lock_tries_run_out(state: LockState, event: LockEvent)
    requires
        event is Taken,
        state is Trying,
    ensures
        lock_next(state, event) matches Some((next, _)) && (next is Failed || tries_left(next)
            < tries_left(state)),
{
}

} // verus!
