use rust_lldb_visual_debugger::types::{
    AttachTarget, ExecutionState, RemoteConfig, RemoteSessionState, RemoteSessionStatus,
};
use rust_lldb_visual_debugger::ui::control_panel::{
    AttachMode, ControlPanelResponse, ControlPanelState, attach_button_label, can_connect,
    can_disconnect, controls_enabled, derive_attach_request, derive_remote_config, state_badge,
    target_summary,
};
use rust_lldb_visual_debugger::ui::style::Rgb;

#[test]
fn derives_pid_attach_request_for_numeric_input() {
    let request = derive_attach_request(AttachMode::Pid, "1234", "")
        .expect("numeric pid should produce attach request");
    assert!(matches!(request.target, AttachTarget::Pid(1234)));
}

#[test]
fn rejects_blank_process_name_for_attach_request() {
    let request = derive_attach_request(AttachMode::ProcessName, "", "   ");
    assert!(request.is_none());
}

#[test]
fn derives_remote_config_from_valid_inputs() {
    let config = derive_remote_config("127.0.0.1:27400", "", "1200", "2")
        .expect("valid remote config expected");
    assert_eq!(config.endpoint, "127.0.0.1:27400");
    assert_eq!(config.timeout_ms, 1200);
}

#[test]
fn rejects_remote_config_with_invalid_timeout() {
    let config = derive_remote_config("127.0.0.1:27400", "", "0", "2");
    assert_eq!(config, Option::<RemoteConfig>::None);
}

#[test]
fn pid_input_is_trimmed_and_bounded() {
    assert!(matches!(
        derive_attach_request(AttachMode::Pid, " +77 ", "ignored").map(|r| r.target),
        Some(AttachTarget::Pid(77))
    ));
    assert!(derive_attach_request(AttachMode::Pid, "4294967296", "").is_none());
    assert!(matches!(
        derive_attach_request(AttachMode::Pid, "4294967295", "").map(|r| r.target),
        Some(AttachTarget::Pid(4294967295))
    ));
    assert!(derive_attach_request(AttachMode::Pid, "12a", "").is_none());
    assert!(derive_attach_request(AttachMode::Pid, "", "").is_none());
    assert!(derive_attach_request(AttachMode::Pid, "-1", "").is_none());
}

#[test]
fn process_name_is_trimmed() {
    let request = derive_attach_request(AttachMode::ProcessName, "1", "  Finder \n")
        .expect("name should produce attach request");
    assert_eq!(request.target, AttachTarget::ProcessName("Finder".to_string()));
}

#[test]
fn remote_config_inputs_are_trimmed_and_checked() {
    let config = derive_remote_config("  host:1  ", "  secret ", " 5 ", " 255 ").expect("valid");
    assert_eq!(config.endpoint, "host:1");
    assert_eq!(config.token, Some("secret".to_string()));
    assert_eq!(config.timeout_ms, 5);
    assert_eq!(config.retry_count, 255);
    assert!(derive_remote_config(" ", "", "5", "1").is_none());
    assert!(derive_remote_config("h", "", "x", "1").is_none());
    assert!(derive_remote_config("h", "", "5", "256").is_none());
    assert!(derive_remote_config("h", "", "18446744073709551616", "1").is_none());
    assert_eq!(derive_remote_config("h", "   ", "5", "1").expect("valid").token, None);
}

#[test]
fn default_inputs_describe_the_default_config() {
    let state = ControlPanelState::default();
    assert_eq!(state.attach_mode, AttachMode::Pid);
    assert_eq!(state.remote_timeout_ms, "1000");
    assert_eq!(state.remote_retry_count, "1");
    let config = derive_remote_config(
        &state.remote_endpoint,
        &state.remote_token,
        &state.remote_timeout_ms,
        &state.remote_retry_count,
    )
    .expect("defaults are valid");
    assert_eq!(config, RemoteConfig::default());
}

#[test]
fn state_badges_name_the_state() {
    let (label, color) = state_badge(ExecutionState::NoTarget);
    assert_eq!(label, "State: No Target");
    assert_eq!(color, Rgb { r: 200, g: 200, b: 200 });
    let (label, color) = state_badge(ExecutionState::Paused);
    assert_eq!(label, "State: Paused");
    assert_eq!(color, Rgb { r: 250, g: 220, b: 150 });
    assert_eq!(state_badge(ExecutionState::Exited).0, "State: Exited");
}

#[test]
fn controls_follow_the_session() {
    let mut status = RemoteSessionStatus::disconnected();
    assert_eq!(attach_button_label(false), "Attach (disabled)");
    assert_eq!(attach_button_label(true), "Attach");
    assert!(can_connect(true, &status));
    assert!(!can_connect(false, &status));
    assert!(!can_disconnect(&status));
    assert!(!controls_enabled(&None, &None, &status));
    assert!(controls_enabled(&Some("a.bin".to_string()), &None, &status));
    assert_eq!(target_summary(&None, &None, &status).0, "No target attached");
    assert_eq!(target_summary(&Some("a.bin".to_string()), &None, &status).0, "a.bin");
    assert_eq!(
        target_summary(&Some("a.bin".to_string()), &Some("pid:1".to_string()), &status).0,
        "pid:1"
    );
    status.state = RemoteSessionState::Connected;
    status.endpoint = Some("mock://xdbg".to_string());
    assert!(!can_connect(true, &status));
    assert!(can_disconnect(&status));
    assert!(controls_enabled(&None, &None, &status));
    assert_eq!(target_summary(&None, &None, &status).0, "Remote mock://xdbg");
    status.endpoint = None;
    assert_eq!(target_summary(&None, &None, &status).0, "Remote unknown-endpoint");
    status.state = RemoteSessionState::Degraded;
    assert!(can_disconnect(&status));
}

#[test]
fn empty_response_asks_for_nothing() {
    let response = ControlPanelResponse::default();
    assert!(response.load_binary.is_none());
    assert!(!response.step_in && !response.refresh_state);
}
