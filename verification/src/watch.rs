//! The debounced re-run loop, modelled as a state machine.
//!
//! The watch session subscribes to filesystem notifications for a directory
//! tree, performs one baseline run of the target command on entry, and then
//! re-runs it after a fixed debounce delay whenever a qualifying notification
//! (create, modify or remove) arrives. A non-zero exit of the command ends the
//! session at once (fail-fast); a closed notification channel ends it without
//! an error. The driver that owns the subscription, sleeps, and spawns the
//! child process feeds every observation into [`WatchSession::step`] and
//! performs the action it returns, so the decision logic here is total and
//! verified while the I/O stays outside. The debounce is a single fixed sleep
//! per qualifying notification, not a coalescing window: a burst of events
//! triggers one delayed run per event.

use vstd::prelude::*;

verus! {

/// Fixed debounce delay in milliseconds between a qualifying notification and
/// the re-run it triggers.
pub const DEBOUNCE_MILLIS: u64 = 100;

/// The kind of a filesystem notification, as the watch loop reads it.
#[derive(Clone, Copy, Debug, PartialEq, Eq, Structural)]
pub enum FsEventKind {
    Create,
    Modify,
    Remove,
    Access,
    Other,
}

/// A qualifying notification is a create, modify or remove within the watched
/// tree; any other kind is ignored and never triggers a re-run.
pub open spec fn is_qualifying(kind: FsEventKind) -> bool {
    kind is Create || kind is Modify || kind is Remove
}

/// Executable test for [`is_qualifying`].
pub fn qualifying(kind: FsEventKind) -> (r: bool)
    ensures
        r == is_qualifying(kind),
{
    match kind {
        FsEventKind::Create => true,
        FsEventKind::Modify => true,
        FsEventKind::Remove => true,
        FsEventKind::Access => false,
        FsEventKind::Other => false,
    }
}

/// The states of a watch session.
#[derive(Clone, Copy, Debug, PartialEq, Eq, Structural)]
pub enum WatchState {
    /// Initial, and between runs: blocked awaiting the next notification.
    Idle,
    /// A qualifying notification was seen; the quiet period is being waited
    /// out.
    Debouncing,
    /// The target command is in flight.
    Running,
    /// The session is over: the notification channel failed or a run failed.
    Terminated,
}

/// One observation fed into the session by its driver.
#[derive(Clone, Copy, Debug, PartialEq, Eq, Structural)]
pub enum WatchInput {
    /// The session begins (sent exactly once, first).
    Started,
    /// A decoded filesystem notification of the given kind arrived.
    Notification(FsEventKind),
    /// The watcher delivered an error value in place of a notification.
    NotificationError,
    /// The notification channel closed or failed irrecoverably.
    ChannelClosed,
    /// The debounce sleep has been waited out.
    DebounceElapsed,
    /// The child process finished; true means it exited with status zero.
    RunFinished(bool),
}

/// What the driver must do next.
#[derive(Clone, Copy, Debug, PartialEq, Eq, Structural)]
pub enum WatchAction {
    /// Run the target command now and report the outcome as `RunFinished`.
    Run,
    /// Sleep the given number of milliseconds, then report `DebounceElapsed`.
    Sleep(u64),
    /// Block for the next notification.
    Wait,
    /// Stop watching; the session ends without an error.
    Stop,
    /// Stop watching; the session ends with the run failure propagated, so
    /// the process exits non-zero.
    Fail,
}

/// The complete transition table of the watch session. Observations that the
/// sequential driver cannot produce in the given state leave the state
/// unchanged and ask the driver to keep waiting.
pub open spec fn spec_step(state: WatchState, input: WatchInput) -> (WatchState, WatchAction) {
    match (state, input) {
        (WatchState::Idle, WatchInput::Started) => (WatchState::Running, WatchAction::Run),
        (WatchState::Idle, WatchInput::Notification(kind)) => if is_qualifying(kind) {
            (WatchState::Debouncing, WatchAction::Sleep(DEBOUNCE_MILLIS))
        } else {
            (WatchState::Idle, WatchAction::Wait)
        },
        (WatchState::Idle, WatchInput::NotificationError) => (WatchState::Idle, WatchAction::Wait),
        (WatchState::Idle, WatchInput::ChannelClosed) => (
            WatchState::Terminated,
            WatchAction::Stop,
        ),
        (WatchState::Debouncing, WatchInput::DebounceElapsed) => (
            WatchState::Running,
            WatchAction::Run,
        ),
        (WatchState::Running, WatchInput::RunFinished(success)) => if success {
            (WatchState::Idle, WatchAction::Wait)
        } else {
            (WatchState::Terminated, WatchAction::Fail)
        },
        (WatchState::Terminated, _) => (WatchState::Terminated, WatchAction::Stop),
        (s, _) => (s, WatchAction::Wait),
    }
}

/// A live watch session: the target command name, its argument list, and the
/// current state of the re-run loop. The live subscription handle stays with
/// the driver.
pub struct WatchSession {
    pub command: String,
    pub args: Vec<String>,
    pub state: WatchState,
}

impl WatchSession {
    /// A fresh session for the given command line, in the initial state.
    pub fn new(command: String, args: Vec<String>) -> (s: Self)
        ensures
            s.command == command,
            s.args == args,
            s.state == WatchState::Idle,
    {
        WatchSession { command, args, state: WatchState::Idle }
    }

    /// Feeds one observation into the session and returns the next action for
    /// the driver, exactly as [`spec_step`] pins it. The command line never
    /// changes.
    pub fn step(&mut self, input: WatchInput) -> (action: WatchAction)
        ensures
            final(self).state == spec_step(old(self).state, input).0,
            action == spec_step(old(self).state, input).1,
            final(self).command == old(self).command,
            final(self).args == old(self).args,
    {
        match (self.state, input) {
            (WatchState::Idle, WatchInput::Started) => {
                self.state = WatchState::Running;
                WatchAction::Run
            },
            (WatchState::Idle, WatchInput::Notification(kind)) => {
                if qualifying(kind) {
                    self.state = WatchState::Debouncing;
                    WatchAction::Sleep(DEBOUNCE_MILLIS)
                } else {
                    WatchAction::Wait
                }
            },
            (WatchState::Idle, WatchInput::NotificationError) => WatchAction::Wait,
            (WatchState::Idle, WatchInput::ChannelClosed) => {
                self.state = WatchState::Terminated;
                WatchAction::Stop
            },
            (WatchState::Debouncing, WatchInput::DebounceElapsed) => {
                self.state = WatchState::Running;
                WatchAction::Run
            },
            (WatchState::Running, WatchInput::RunFinished(success)) => {
                if success {
                    self.state = WatchState::Idle;
                    WatchAction::Wait
                } else {
                    self.state = WatchState::Terminated;
                    WatchAction::Fail
                }
            },
            (WatchState::Terminated, _) => WatchAction::Stop,
            (_, _) => WatchAction::Wait,
        }
    }
}

/// Law: the target command is run only at session start (the baseline run) or
/// once the debounce delay has been waited out; the debounce sleep is always
/// the fixed delay and is entered only on a qualifying notification. So a
/// re-run is observed no sooner than the debounce delay after its
/// notification.
pub proof fn lemma_run_only_at_start_or_after_debounce(state: WatchState, input: WatchInput)
    ensures
        spec_step(state, input).1 == WatchAction::Run ==> (state == WatchState::Idle && input
            == WatchInput::Started) || (state == WatchState::Debouncing && input
            == WatchInput::DebounceElapsed),
        spec_step(state, input).1 matches WatchAction::Sleep(d) ==> d == DEBOUNCE_MILLIS,
        spec_step(state, input).0 == WatchState::Debouncing && state != WatchState::Debouncing
            ==> state == WatchState::Idle && (input matches WatchInput::Notification(k)
            && is_qualifying(k)) && spec_step(state, input).1 == WatchAction::Sleep(
            DEBOUNCE_MILLIS,
        ),
{
}

/// Law: a failed run of the target command terminates the session and
/// propagates the failure; a terminated session stays terminated and never
/// triggers another run or debounce sleep.
pub proof fn lemma_fail_fast(state: WatchState, input: WatchInput)
    ensures
        state == WatchState::Running && input == WatchInput::RunFinished(false) ==> spec_step(
            state,
            input,
        ) == (WatchState::Terminated, WatchAction::Fail),
        state == WatchState::Terminated ==> spec_step(state, input).0 == WatchState::Terminated
            && spec_step(state, input).1 != WatchAction::Run && !(spec_step(state, input).1
            matches WatchAction::Sleep(_)),
{
}

} // verus!
