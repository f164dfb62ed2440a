use rust_lldb_visual_debugger::debugger::events::DebugEvent;
use rust_lldb_visual_debugger::types::{
    AttachErrorKind, AttachRequest, AttachResult, DebugCommand, ExecutionState, RemoteSessionState,
    RemoteSessionStatus,
};
use rust_lldb_visual_debugger::ui::app_state::DebuggerApp;
use rust_lldb_visual_debugger::ui::control_panel::ControlPanelResponse;

#[test]
fn window_starts_ready() {
    let app = DebuggerApp::new();
    assert_eq!(app.execution_state, ExecutionState::NoTarget);
    assert_eq!(app.memory_address, 0x1000);
    assert_eq!(app.memory_bytes, vec![0; 0x100]);
    assert_eq!(
        app.status_message,
        Some("Ready. Load a processed binary to start debugging.".to_string())
    );
}

#[test]
fn events_update_messages() {
    let mut app = DebuggerApp::new();
    app.apply_event(DebugEvent::BreakpointHit(0x1008));
    assert_eq!(app.status_message, Some("Breakpoint hit at 0x0000000000001008".to_string()));
    app.apply_event(DebugEvent::Error("boom".to_string()));
    assert_eq!(app.status_message, Some("Error: boom".to_string()));
    app.apply_event(DebugEvent::AttachUpdated(AttachResult::failure(
        "pid:1".to_string(),
        AttachErrorKind::PermissionDenied,
        "Permission denied".to_string(),
    )));
    assert_eq!(app.attach_error, Some(AttachErrorKind::PermissionDenied));
    assert_eq!(app.attached_target, None);
    app.apply_event(DebugEvent::AttachUpdated(AttachResult::success("pid:1".to_string())));
    assert_eq!(app.attached_target, Some("pid:1".to_string()));
    assert_eq!(app.attach_error, None);
    assert_eq!(app.status_message, Some("Attached to pid:1".to_string()));
    app.apply_event(DebugEvent::TargetLoaded("a.bin".to_string()));
    assert_eq!(app.attached_target, None);
    assert_eq!(app.loaded_binary, Some("a.bin".to_string()));
    app.core_disconnected();
    assert_eq!(app.status_message, Some("Debugger core disconnected".to_string()));
}

#[test]
fn degraded_remote_is_noted_once() {
    let mut app = DebuggerApp::new();
    let mut status = RemoteSessionStatus::disconnected();
    status.state = RemoteSessionState::Degraded;
    status.message = "Remote handshake timed out".to_string();
    app.apply_event(DebugEvent::RemoteSessionChanged(status));
    app.note_remote_degradation();
    assert_eq!(
        app.status_message,
        Some("Remote degraded: Remote handshake timed out".to_string())
    );
    app.note_remote_degradation();
    assert_eq!(
        app.status_message,
        Some("Remote degraded: Remote handshake timed out".to_string())
    );
}

#[test]
fn responses_become_commands_in_order() {
    let app = DebuggerApp::new();
    let mut response = ControlPanelResponse::default();
    response.refresh_state = true;
    response.step_in = true;
    response.read_memory = true;
    response.attach_request = Some(AttachRequest::by_pid(5));
    let cmds = app.commands_for(response);
    assert_eq!(cmds.len(), 4);
    assert!(matches!(cmds[0], DebugCommand::AttachProcess(_)));
    assert!(matches!(cmds[1], DebugCommand::StepIn));
    assert!(matches!(cmds[2], DebugCommand::ReadMemory { address: 0x1000, size: 0x100 }));
    assert!(matches!(cmds[3], DebugCommand::RefreshState));
    assert!(app.commands_for(ControlPanelResponse::default()).is_empty());
}
