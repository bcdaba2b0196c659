use cargo_fastdev::watch::{
    qualifying, FsEventKind, WatchAction, WatchInput, WatchSession, WatchState, DEBOUNCE_MILLIS,
};

fn echo_hello_session() -> WatchSession {
    WatchSession::new("echo".to_string(), vec!["hello".to_string()])
}

#[test]
fn test_baseline_run_comes_first() {
    // The first observable action is exactly one run of the target command,
    // before any filesystem event is processed.
    let mut session = echo_hello_session();
    assert_eq!(session.state, WatchState::Idle);
    let action = session.step(WatchInput::Started);
    assert_eq!(action, WatchAction::Run);
    assert_eq!(session.state, WatchState::Running);
    assert_eq!(session.command, "echo");
    assert_eq!(session.args, vec!["hello".to_string()]);
}

#[test]
fn test_qualifying_event_triggers_one_debounced_run() {
    // A single qualifying event triggers exactly one run, no sooner than the
    // debounce delay after the event.
    let mut session = echo_hello_session();
    assert_eq!(session.step(WatchInput::Started), WatchAction::Run);
    assert_eq!(session.step(WatchInput::RunFinished(true)), WatchAction::Wait);

    let action = session.step(WatchInput::Notification(FsEventKind::Modify));
    assert_eq!(action, WatchAction::Sleep(DEBOUNCE_MILLIS));
    assert_eq!(session.state, WatchState::Debouncing);

    let action = session.step(WatchInput::DebounceElapsed);
    assert_eq!(action, WatchAction::Run);
    assert_eq!(session.state, WatchState::Running);

    // One run only: afterwards the session is back to waiting.
    assert_eq!(session.step(WatchInput::RunFinished(true)), WatchAction::Wait);
    assert_eq!(session.state, WatchState::Idle);
}

#[test]
fn test_debounce_delay_is_100_ms() {
    assert_eq!(DEBOUNCE_MILLIS, 100);
}

#[test]
fn test_non_qualifying_events_are_ignored() {
    let mut session = echo_hello_session();
    assert_eq!(session.step(WatchInput::Started), WatchAction::Run);
    assert_eq!(session.step(WatchInput::RunFinished(true)), WatchAction::Wait);

    assert_eq!(session.step(WatchInput::Notification(FsEventKind::Access)), WatchAction::Wait);
    assert_eq!(session.step(WatchInput::Notification(FsEventKind::Other)), WatchAction::Wait);
    assert_eq!(session.step(WatchInput::NotificationError), WatchAction::Wait);
    assert_eq!(session.state, WatchState::Idle);
}

#[test]
fn test_event_kind_qualification() {
    assert!(qualifying(FsEventKind::Create));
    assert!(qualifying(FsEventKind::Modify));
    assert!(qualifying(FsEventKind::Remove));
    assert!(!qualifying(FsEventKind::Access));
    assert!(!qualifying(FsEventKind::Other));
}

#[test]
fn test_failed_run_terminates_session() {
    // A non-zero exit of the watched command ends the session at once and the
    // failure is propagated, so the process exits non-zero.
    let mut session = echo_hello_session();
    assert_eq!(session.step(WatchInput::Started), WatchAction::Run);
    let action = session.step(WatchInput::RunFinished(false));
    assert_eq!(action, WatchAction::Fail);
    assert_eq!(session.state, WatchState::Terminated);

    // The session never watches on: no later observation triggers a run.
    assert_eq!(
        session.step(WatchInput::Notification(FsEventKind::Modify)),
        WatchAction::Stop
    );
    assert_eq!(session.step(WatchInput::DebounceElapsed), WatchAction::Stop);
    assert_eq!(session.state, WatchState::Terminated);
}

#[test]
fn test_channel_close_stops_session() {
    let mut session = echo_hello_session();
    assert_eq!(session.step(WatchInput::Started), WatchAction::Run);
    assert_eq!(session.step(WatchInput::RunFinished(true)), WatchAction::Wait);
    assert_eq!(session.step(WatchInput::ChannelClosed), WatchAction::Stop);
    assert_eq!(session.state, WatchState::Terminated);
}
