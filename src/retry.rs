//! The policy that decides when opening the device is retried.
//!
//! The coordinator is a small state machine. The program asks it what to do,
//! performs that action (an open attempt or a pause), and reports back what
//! happened. Failures are classified: a device that is not present yet is
//! worth waiting for, every other failure ends the attempts at once.

use vstd::prelude::*;
use crate::config::{max_attempts, max_attempts_spec, FAILURE_EXIT_CODE, WAIT_INTERVAL_MILLISECONDS,
    WAIT_MILLISECONDS};

verus! {

/// Why opening the device failed, as the serial layer reports it.
#[derive(Clone, Copy, Debug, PartialEq, Eq, Structural)]
pub enum OpenErrorKind {
    /// No such device is present.
    NoDevice,
    /// An I/O error saying that the path was not found.
    IoNotFound,
    /// Any other I/O error (permission denied, device busy, ...).
    Io,
    /// A parameter was rejected.
    InvalidInput,
    /// A failure of unknown cause.
    Unknown,
}

/// Whether an open failure is worth retrying.
#[derive(Clone, Copy, Debug, PartialEq, Eq, Structural)]
pub enum ErrorClass {
    /// The device is not present now and may appear later.
    DeviceAbsent,
    /// Retrying would not help.
    Fatal,
}

/// The class of an open failure: a missing device or path is absent, all
/// else is fatal.
pub open spec fn class_of(kind: OpenErrorKind) -> ErrorClass {
    match kind {
        OpenErrorKind::NoDevice | OpenErrorKind::IoNotFound => ErrorClass::DeviceAbsent,
        _ => ErrorClass::Fatal,
    }
}

/// Classifies an open failure.
pub fn classify(kind: OpenErrorKind) -> (r: ErrorClass)
    ensures
        r == class_of(kind),
{
    match kind {
        OpenErrorKind::NoDevice => ErrorClass::DeviceAbsent,
        OpenErrorKind::IoNotFound => ErrorClass::DeviceAbsent,
        _ => ErrorClass::Fatal,
    }
}

/// Where the coordinator stands.
#[derive(Clone, Copy, Debug, PartialEq, Eq, Structural)]
pub enum RetryState {
    /// Attempt number `attempt` (counted from one) is under way.
    Attempting { attempt: u64 },
    /// Attempt number `attempt` found no device; a pause is under way.
    Waiting { attempt: u64 },
    /// The device is open.
    Succeeded,
    /// An attempt failed and no more are made.
    Failed,
    /// The waiting window ended without success.
    TimedOut,
}

/// What the program reports back to the coordinator.
#[derive(Clone, Copy, Debug, PartialEq, Eq, Structural)]
pub enum RetryEvent {
    /// The open attempt gave a device handle.
    Opened,
    /// The open attempt failed with this kind of error.
    OpenFailed(OpenErrorKind),
    /// The requested pause is over.
    Slept,
}

/// What the coordinator asks the program to do next.
#[derive(Clone, Copy, Debug, PartialEq, Eq, Structural)]
pub enum RetryAction {
    /// Make one open attempt.
    Open,
    /// Pause for this many milliseconds.
    Sleep { millis: u64 },
    /// Use the device handle that the last attempt gave.
    UsePort,
    /// Report the error of the last attempt and exit with failure.
    ReportOpenError,
    /// Report that the waiting window ended and exit with failure.
    ReportTimeout,
}

/// The action that a state calls for.
pub open spec fn action_of(state: RetryState) -> RetryAction {
    match state {
        RetryState::Attempting { .. } => RetryAction::Open,
        RetryState::Waiting { .. } => RetryAction::Sleep { millis: WAIT_INTERVAL_MILLISECONDS },
        RetryState::Succeeded => RetryAction::UsePort,
        RetryState::Failed => RetryAction::ReportOpenError,
        RetryState::TimedOut => RetryAction::ReportTimeout,
    }
}

/// The state that follows `state` on `event`. With `wait` unset, any failure
/// ends the attempts; with it set, only a fatal one does, and an absent
/// device is tried again after a pause until the attempts run out. An event
/// that does not answer the pending action leaves the state as it is.
pub open spec fn next_state(wait: bool, state: RetryState, event: RetryEvent) -> RetryState {
    match (state, event) {
        (RetryState::Attempting { .. }, RetryEvent::Opened) => RetryState::Succeeded,
        (RetryState::Attempting { attempt }, RetryEvent::OpenFailed(kind)) => {
            if wait && class_of(kind) == ErrorClass::DeviceAbsent {
                RetryState::Waiting { attempt }
            } else {
                RetryState::Failed
            }
        },
        (RetryState::Waiting { attempt }, RetryEvent::Slept) => {
            if attempt < max_attempts_spec() {
                RetryState::Attempting { attempt: (attempt + 1) as u64 }
            } else {
                RetryState::TimedOut
            }
        },
        _ => state,
    }
}

/// The exit code that an action ends the process with, if it ends it.
pub open spec fn exit_code_of(action: RetryAction) -> Option<i32> {
    match action {
        RetryAction::ReportOpenError | RetryAction::ReportTimeout => Some(FAILURE_EXIT_CODE),
        _ => None,
    }
}

/// The state reached from `state` after the events, one by one.
pub open spec fn replay(wait: bool, state: RetryState, events: Seq<RetryEvent>) -> RetryState
    decreases events.len(),
{
    if events.len() == 0 {
        state
    } else {
        replay(wait, next_state(wait, state, events[0]), events.drop_first())
    }
}

/// Total time, in milliseconds, of the pauses asked for while the events
/// are taken in from `state`.
pub open spec fn paused_millis(wait: bool, state: RetryState, events: Seq<RetryEvent>) -> nat
    decreases events.len(),
{
    if events.len() == 0 {
        0
    } else {
        let next = next_state(wait, state, events[0]);
        let pause: nat = match action_of(next) {
            RetryAction::Sleep { millis } => millis as nat,
            _ => 0,
        };
        pause + paused_millis(wait, next, events.drop_first())
    }
}

/// The events of a device that is absent for `k` attempts, with the pause
/// after each, and then opens.
pub open spec fn absent_then_opened(kind: OpenErrorKind, k: nat) -> Seq<RetryEvent>
    decreases k,
{
    if k == 0 {
        seq![RetryEvent::Opened]
    } else {
        seq![RetryEvent::OpenFailed(kind), RetryEvent::Slept] + absent_then_opened(kind, (k - 1) as nat)
    }
}

/// The events of a device that stays absent for `k` attempts, with the
/// pause after each.
pub open spec fn always_absent(kind: OpenErrorKind, k: nat) -> Seq<RetryEvent>
    decreases k,
{
    if k == 0 {
        Seq::empty()
    } else {
        seq![RetryEvent::OpenFailed(kind), RetryEvent::Slept] + always_absent(kind, (k - 1) as nat)
    }
}

/// Decides how the device is opened: once, or by polling while it is absent.
pub struct RetryCoordinator {
    /// Whether an absent device is waited for.
    pub wait: bool,
    /// Where the coordinator stands.
    pub state: RetryState,
}

impl RetryCoordinator {
    /// A coordinator about to make its first attempt.
    pub fn new(wait: bool) -> (r: RetryCoordinator)
        ensures
            r.wait == wait,
            r.state == (RetryState::Attempting { attempt: 1 }),
    {
        RetryCoordinator { wait, state: RetryState::Attempting { attempt: 1 } }
    }

    /// The action that the current state calls for.
    pub fn action(&self) -> (r: RetryAction)
        ensures
            r == action_of(self.state),
    {
        match self.state {
            RetryState::Attempting { .. } => RetryAction::Open,
            RetryState::Waiting { .. } => RetryAction::Sleep { millis: WAIT_INTERVAL_MILLISECONDS },
            RetryState::Succeeded => RetryAction::UsePort,
            RetryState::Failed => RetryAction::ReportOpenError,
            RetryState::TimedOut => RetryAction::ReportTimeout,
        }
    }

    /// The exit code that the current action ends the process with, if any.
    pub fn exit_code(&self) -> (r: Option<i32>)
        ensures
            r == exit_code_of(action_of(self.state)),
    {
        match self.state {
            RetryState::Failed | RetryState::TimedOut => Some(FAILURE_EXIT_CODE),
            _ => None,
        }
    }

    /// Takes in what happened and returns the next action.
    pub fn step(&mut self, event: RetryEvent) -> (r: RetryAction)
        ensures
            final(self).wait == old(self).wait,
            final(self).state == next_state(old(self).wait, old(self).state, event),
            r == action_of(final(self).state),
    {
        let next = match (self.state, event) {
            (RetryState::Attempting { .. }, RetryEvent::Opened) => RetryState::Succeeded,
            (RetryState::Attempting { attempt }, RetryEvent::OpenFailed(kind)) => {
                if self.wait && classify(kind) == ErrorClass::DeviceAbsent {
                    RetryState::Waiting { attempt }
                } else {
                    RetryState::Failed
                }
            },
            (RetryState::Waiting { attempt }, RetryEvent::Slept) => {
                if attempt < max_attempts() {
                    RetryState::Attempting { attempt: attempt + 1 }
                } else {
                    RetryState::TimedOut
                }
            },
            _ => self.state,
        };
        self.state = next;
        self.action()
    }
}

/// Without waiting, the first failed attempt of any kind ends the attempts:
/// one error is reported, the process exits with failure, and no pause is
/// asked for.
pub proof fn lemma_no_wait_fails_at_once(kind: OpenErrorKind)
    ensures
        replay(false, RetryState::Attempting { attempt: 1 }, seq![RetryEvent::OpenFailed(kind)])
            == RetryState::Failed,
        action_of(RetryState::Failed) == RetryAction::ReportOpenError,
        exit_code_of(RetryAction::ReportOpenError) == Some(FAILURE_EXIT_CODE),
        paused_millis(false, RetryState::Attempting { attempt: 1 }, seq![RetryEvent::OpenFailed(kind)])
            == 0,
{
    let evs = seq![RetryEvent::OpenFailed(kind)];
    assert(evs.drop_first() =~= Seq::<RetryEvent>::empty());
    reveal_with_fuel(replay, 2);
    reveal_with_fuel(paused_millis, 2);
}

/// Once the attempts have failed, nothing that follows changes that.
pub proof fn lemma_failure_is_final(wait: bool, events: Seq<RetryEvent>)
    ensures
        replay(wait, RetryState::Failed, events) == RetryState::Failed,
    decreases events.len(),
{
    if events.len() > 0 {
        lemma_failure_is_final(wait, events.drop_first());
    }
}

/// A fatal failure ends the attempts at once, whether or not the device is
/// waited for.
pub proof fn lemma_fatal_aborts(wait: bool, attempt: u64, kind: OpenErrorKind)
    requires
        class_of(kind) == ErrorClass::Fatal,
    ensures
        next_state(wait, RetryState::Attempting { attempt }, RetryEvent::OpenFailed(kind))
            == RetryState::Failed,
        action_of(RetryState::Failed) == RetryAction::ReportOpenError,
{
}

proof fn lemma_absent_rounds(kind: OpenErrorKind, a: u64, k: nat)
    requires
        class_of(kind) == ErrorClass::DeviceAbsent,
        1 <= a,
        a + k <= max_attempts_spec(),
    ensures
        replay(true, RetryState::Attempting { attempt: a }, absent_then_opened(kind, k))
            == RetryState::Succeeded,
        paused_millis(true, RetryState::Attempting { attempt: a }, absent_then_opened(kind, k))
            == k * WAIT_INTERVAL_MILLISECONDS,
    decreases k,
{
    let s = RetryState::Attempting { attempt: a };
    let evs = absent_then_opened(kind, k);
    if k == 0 {
        assert(evs.drop_first() =~= Seq::<RetryEvent>::empty());
        reveal_with_fuel(replay, 2);
        reveal_with_fuel(paused_millis, 2);
    } else {
        let rest = absent_then_opened(kind, (k - 1) as nat);
        let w = RetryState::Waiting { attempt: a };
        let s2 = RetryState::Attempting { attempt: (a + 1) as u64 };
        assert(evs[0] == RetryEvent::OpenFailed(kind));
        assert(evs.drop_first() =~= seq![RetryEvent::Slept] + rest);
        assert(evs.drop_first()[0] == RetryEvent::Slept);
        assert(evs.drop_first().drop_first() =~= rest);
        assert(next_state(true, s, evs[0]) == w);
        assert(next_state(true, w, RetryEvent::Slept) == s2);
        lemma_absent_rounds(kind, (a + 1) as u64, (k - 1) as nat);
        assert(replay(true, w, evs.drop_first()) == replay(true, s2, rest));
        assert(paused_millis(true, w, evs.drop_first()) == paused_millis(true, s2, rest));
        assert(k * WAIT_INTERVAL_MILLISECONDS == WAIT_INTERVAL_MILLISECONDS + (k - 1) * WAIT_INTERVAL_MILLISECONDS) by (nonlinear_arith);
    }
}

/// While waiting, a device that is absent for `k` attempts and then opens,
/// within the window, is used: the attempts succeed after pauses of `k`
/// intervals in all, not the whole window.
pub proof fn lemma_wait_succeeds_after_k_intervals(kind: OpenErrorKind, k: nat)
    requires
        class_of(kind) == ErrorClass::DeviceAbsent,
        k < max_attempts_spec(),
    ensures
        replay(true, RetryState::Attempting { attempt: 1 }, absent_then_opened(kind, k))
            == RetryState::Succeeded,
        paused_millis(true, RetryState::Attempting { attempt: 1 }, absent_then_opened(kind, k))
            == k * WAIT_INTERVAL_MILLISECONDS,
{
    lemma_absent_rounds(kind, 1, k);
}

proof fn lemma_absent_to_the_end(kind: OpenErrorKind, a: u64, k: nat)
    requires
        class_of(kind) == ErrorClass::DeviceAbsent,
        1 <= a,
        1 <= k,
        a + k == max_attempts_spec() + 1,
    ensures
        replay(true, RetryState::Attempting { attempt: a }, always_absent(kind, k))
            == RetryState::TimedOut,
        paused_millis(true, RetryState::Attempting { attempt: a }, always_absent(kind, k))
            == k * WAIT_INTERVAL_MILLISECONDS,
    decreases k,
{
    let s = RetryState::Attempting { attempt: a };
    let evs = always_absent(kind, k);
    let rest = always_absent(kind, (k - 1) as nat);
    let w = RetryState::Waiting { attempt: a };
    assert(evs[0] == RetryEvent::OpenFailed(kind));
    assert(evs.drop_first() =~= seq![RetryEvent::Slept] + rest);
    assert(evs.drop_first()[0] == RetryEvent::Slept);
    assert(evs.drop_first().drop_first() =~= rest);
    assert(next_state(true, s, evs[0]) == w);
    if k == 1 {
        assert(rest =~= Seq::<RetryEvent>::empty());
        assert(next_state(true, w, RetryEvent::Slept) == RetryState::TimedOut);
        reveal_with_fuel(replay, 3);
        reveal_with_fuel(paused_millis, 3);
    } else {
        let s2 = RetryState::Attempting { attempt: (a + 1) as u64 };
        assert(next_state(true, w, RetryEvent::Slept) == s2);
        lemma_absent_to_the_end(kind, (a + 1) as u64, (k - 1) as nat);
        assert(replay(true, w, evs.drop_first()) == replay(true, s2, rest));
        assert(paused_millis(true, w, evs.drop_first()) == paused_millis(true, s2, rest));
        assert(k * WAIT_INTERVAL_MILLISECONDS == WAIT_INTERVAL_MILLISECONDS + (k - 1) * WAIT_INTERVAL_MILLISECONDS) by (nonlinear_arith);
    }
}

/// While waiting, a device that never appears ends the attempts with a
/// timeout, after pauses that stay within the waiting window.
pub proof fn lemma_wait_is_bounded(kind: OpenErrorKind)
    requires
        class_of(kind) == ErrorClass::DeviceAbsent,
    ensures
        replay(true, RetryState::Attempting { attempt: 1 }, always_absent(kind, max_attempts_spec() as nat))
            == RetryState::TimedOut,
        paused_millis(true, RetryState::Attempting { attempt: 1 }, always_absent(kind, max_attempts_spec() as nat))
            <= WAIT_MILLISECONDS,
{
    lemma_absent_to_the_end(kind, 1, max_attempts_spec() as nat);
}

} // verus!
