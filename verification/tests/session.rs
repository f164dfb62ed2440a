use rust_lldb_visual_debugger::debugger::session::{LldbSession, RemoteSessionManager};
use rust_lldb_visual_debugger::debugger::types::{
    SessionLifecycle, SessionStateMachine, describe_attach_target, validate_attach_request,
};
use rust_lldb_visual_debugger::types::{
    AttachErrorKind, AttachRequest, RemoteConfig, RemoteErrorKind, RemoteSessionState,
};

#[test]
fn remote_session_transitions_from_connecting_to_connected() {
    let mut manager = RemoteSessionManager::new();
    let config = RemoteConfig {
        endpoint: "mock://xdbg".to_string(),
        retry_count: 2,
        ..RemoteConfig::default()
    };

    manager.begin_connect(&config);
    assert_eq!(manager.status().state, RemoteSessionState::Connecting);
    manager.mark_connected(&config, "session-1".to_string());
    assert_eq!(manager.status().state, RemoteSessionState::Connected);
}

#[test]
fn remote_session_retry_budget_is_consumed() {
    let mut manager = RemoteSessionManager::new();
    let config = RemoteConfig { retry_count: 1, ..RemoteConfig::default() };

    manager.begin_connect(&config);
    assert!(manager.can_retry());
    assert!(!manager.can_retry());
}

#[test]
fn remote_session_failure_marks_degraded() {
    let mut manager = RemoteSessionManager::new();
    let config = RemoteConfig::default();
    manager.begin_connect(&config);
    manager.mark_failed(&config, RemoteErrorKind::Timeout, "timeout".to_string());

    let status = manager.status();
    assert_eq!(status.state, RemoteSessionState::Degraded);
    assert_eq!(status.error, Some(RemoteErrorKind::Timeout));
}

#[test]
fn session_state_machine_validates_transition_order() {
    let mut machine = SessionStateMachine::new();
    machine.begin_attach().expect("detached -> attaching should be valid");
    machine.mark_attached().expect("attaching -> attached should be valid");
    machine.mark_detached().expect("attached -> detached should be valid");
}

#[test]
fn session_state_machine_rejects_invalid_transition() {
    let mut machine = SessionStateMachine::new();
    let error = machine.mark_attached().expect_err("detached -> attached should fail");
    assert!(error.contains("Invalid lifecycle transition"));
    assert_eq!(machine.lifecycle(), SessionLifecycle::Detached);
}

#[test]
fn invalid_transition_message_names_both_phases() {
    let mut machine = SessionStateMachine::new();
    let error = machine.mark_failed().expect_err("detached -> failed should fail");
    assert_eq!(error, "Invalid lifecycle transition: Detached -> Failed");
    machine.begin_attach().expect("valid");
    machine.mark_failed().expect("attaching -> failed should be valid");
    machine.mark_failed().expect("staying failed is allowed");
    assert_eq!(machine.lifecycle(), SessionLifecycle::Failed);
    machine.mark_detached().expect("failed -> detached should be valid");
}

#[test]
fn remote_session_starts_disconnected_and_disconnects() {
    let mut manager = RemoteSessionManager::new();
    let status = manager.status();
    assert_eq!(status.state, RemoteSessionState::Disconnected);
    assert_eq!(status.message, "Remote session disconnected");
    assert_eq!(manager.retry_delay_ms(), 200);
    assert!(!manager.can_retry());
    let config = RemoteConfig { retry_count: 3, ..RemoteConfig::default() };
    manager.begin_connect(&config);
    assert_eq!(manager.status().message, "Connecting to x64dbg remote endpoint");
    assert_eq!(manager.status().endpoint, Some("127.0.0.1:27400".to_string()));
    manager.disconnect();
    assert_eq!(manager.status().state, RemoteSessionState::Disconnected);
    assert!(!manager.can_retry());
}

#[test]
fn lldb_session_loads_and_attaches() {
    let mut session = LldbSession::initialize().expect("session");
    assert_eq!(session.launch_process().unwrap_err().message, "No target binary loaded");
    session.load_target("a.bin".to_string()).expect("load");
    session.launch_process().expect("launch");
    let label = session
        .attach_to_process(&AttachRequest::by_process_name("Finder".to_string()), true)
        .expect("attach");
    assert_eq!(label, "name:Finder");
    assert_eq!(session.lifecycle(), SessionLifecycle::Attached);
    session.detach();
    assert_eq!(session.lifecycle(), SessionLifecycle::Detached);
    let denied = session
        .attach_to_process(&AttachRequest::by_pid(7), false)
        .unwrap_err();
    assert_eq!(denied.message, "Permission denied while trying to attach (task_for_pid)");
    assert_eq!(session.lifecycle(), SessionLifecycle::Failed);
}

#[test]
fn attach_requests_are_described_and_validated() {
    assert_eq!(describe_attach_target(&AttachRequest::by_pid(42)), "pid:42");
    assert_eq!(describe_attach_target(&AttachRequest::by_process_name("lldb".to_string())), "name:lldb");
    assert_eq!(validate_attach_request(&AttachRequest::by_pid(0)), Err(AttachErrorKind::TargetNotFound));
    assert_eq!(validate_attach_request(&AttachRequest::by_pid(1)), Ok(()));
    assert_eq!(
        validate_attach_request(&AttachRequest::by_process_name(" \t".to_string())),
        Err(AttachErrorKind::TargetNotFound)
    );
}

#[test]
fn transitions_follow_the_allowed_moves() {
    let mut machine = SessionStateMachine::new();
    machine.transition(SessionLifecycle::Detached).expect("staying is allowed");
    assert_eq!(
        machine.transition(SessionLifecycle::Failed),
        Err("Invalid lifecycle transition: Detached -> Failed".to_string())
    );
    assert_eq!(machine.lifecycle(), SessionLifecycle::Detached);
    machine.transition(SessionLifecycle::Attaching).expect("detached -> attaching");
    machine.transition(SessionLifecycle::Attached).expect("attaching -> attached");
    machine.transition(SessionLifecycle::Attaching).expect("attached -> attaching");
    machine.transition(SessionLifecycle::Failed).expect("attaching -> failed");
    assert!(machine.transition(SessionLifecycle::Attached).is_err());
    assert_eq!(machine.lifecycle(), SessionLifecycle::Failed);
}
