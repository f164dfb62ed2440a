use rust_lldb_visual_debugger::debugger::remote::xdbg_adapter::{
    NetworkOutcome, RemoteProbe, XdbgRemoteAdapter, build_session_id,
};
use rust_lldb_visual_debugger::debugger::types::{classify_remote_error, validate_remote_config};
use rust_lldb_visual_debugger::types::{RemoteCommand, RemoteConfig, RemoteErrorKind};

fn probe(network: NetworkOutcome) -> RemoteProbe {
    RemoteProbe { now_millis: 42, network }
}

#[test]
fn mock_endpoint_connects_without_network() {
    let mut adapter = XdbgRemoteAdapter::new();
    let config = RemoteConfig { endpoint: "mock://xdbg".to_string(), ..RemoteConfig::default() };

    let session_id = adapter
        .connect(&config, &probe(NetworkOutcome::Unreachable("offline".to_string())))
        .expect("mock endpoint should connect");
    assert!(session_id.starts_with("xdbg-"));
    assert!(adapter.is_connected());
}

#[test]
fn invalid_endpoint_returns_protocol_error() {
    let mut adapter = XdbgRemoteAdapter::new();
    let config = RemoteConfig { endpoint: "not-a-socket".to_string(), ..RemoteConfig::default() };

    let error = adapter
        .connect(
            &config,
            &probe(NetworkOutcome::Unresolvable("invalid socket address syntax".to_string())),
        )
        .expect_err("invalid endpoint should fail");
    assert_eq!(error.kind, RemoteErrorKind::ProtocolError);
}

#[test]
fn command_dispatch_requires_connection() {
    let adapter = XdbgRemoteAdapter::new();
    let error = adapter
        .dispatch(RemoteCommand::Continue)
        .expect_err("dispatch should fail without session");
    assert_eq!(error.kind, RemoteErrorKind::ConnectionFailed);
}

#[test]
fn network_target_is_asked_only_for_real_endpoints() {
    let mock = RemoteConfig { endpoint: "mock://xdbg".to_string(), ..RemoteConfig::default() };
    assert_eq!(XdbgRemoteAdapter::network_target(&mock), None);
    let bad_token = RemoteConfig { token: Some("BAD-TOKEN".to_string()), ..RemoteConfig::default() };
    assert_eq!(XdbgRemoteAdapter::network_target(&bad_token), None);
    let fast = RemoteConfig { endpoint: " 10.1.2.3:9 ".to_string(), timeout_ms: 5, ..RemoteConfig::default() };
    assert_eq!(XdbgRemoteAdapter::network_target(&fast), Some(("10.1.2.3:9".to_string(), 20)));
    assert_eq!(
        XdbgRemoteAdapter::network_target(&RemoteConfig::default()),
        Some(("127.0.0.1:27400".to_string(), 1000))
    );
}

#[test]
fn connection_outcomes_are_classified() {
    let mut adapter = XdbgRemoteAdapter::new();
    let config = RemoteConfig::default();
    let timeout = adapter.connect(&config, &probe(NetworkOutcome::TimedOut)).unwrap_err();
    assert_eq!(timeout.kind, RemoteErrorKind::Timeout);
    assert_eq!(timeout.message, "Remote handshake timed out");
    let refused = adapter
        .connect(&config, &probe(NetworkOutcome::Unreachable("refused".to_string())))
        .unwrap_err();
    assert_eq!(refused.kind, RemoteErrorKind::ConnectionFailed);
    let auth = adapter
        .connect(&RemoteConfig { token: Some("bad-token".to_string()), ..RemoteConfig::default() }, &probe(NetworkOutcome::Reachable))
        .unwrap_err();
    assert_eq!(auth.kind, RemoteErrorKind::AuthFailed);
    assert_eq!(auth.message, "Remote authentication failed");
    let id = adapter.connect(&config, &probe(NetworkOutcome::Reachable)).expect("reachable");
    assert_eq!(id, "xdbg-42-127.0.0.1:27400");
    assert_eq!(adapter.endpoint(), Some("127.0.0.1:27400"));
    assert_eq!(adapter.session_id(), Some("xdbg-42-127.0.0.1:27400"));
}

#[test]
fn dispatch_acknowledges_commands_once_connected() {
    let mut adapter = XdbgRemoteAdapter::new();
    let config = RemoteConfig { endpoint: "mock://xdbg".to_string(), ..RemoteConfig::default() };
    adapter.connect(&config, &probe(NetworkOutcome::Reachable)).expect("connect");
    let ack = adapter.dispatch(RemoteCommand::StepIn).expect("ack");
    assert!(ack.success);
    assert_eq!(ack.message, "remote method debug.step_in acknowledged");
    let zero = adapter
        .dispatch(RemoteCommand::ReadMemory { address: 0x1000, size: 0 })
        .unwrap_err();
    assert_eq!(zero.kind, RemoteErrorKind::ProtocolError);
    adapter.set_forced_timeout(true);
    assert_eq!(adapter.dispatch(RemoteCommand::Pause).unwrap_err().kind, RemoteErrorKind::Timeout);
    adapter.disconnect();
    assert!(!adapter.is_connected());
    assert_eq!(adapter.endpoint(), None);
}

#[test]
fn remote_errors_are_classified_by_message() {
    assert_eq!(classify_remote_error("Remote command timed out"), RemoteErrorKind::Timeout);
    assert_eq!(classify_remote_error("AUTH rejected"), RemoteErrorKind::AuthFailed);
    assert_eq!(classify_remote_error("size must be positive"), RemoteErrorKind::ProtocolError);
    assert_eq!(classify_remote_error("socket closed"), RemoteErrorKind::ConnectionFailed);
    assert_eq!(validate_remote_config(&RemoteConfig::default()), Ok(()));
    assert_eq!(
        validate_remote_config(&RemoteConfig { timeout_ms: 0, ..RemoteConfig::default() }),
        Err("timeout must be greater than zero".to_string())
    );
}

#[test]
fn session_ids_carry_the_clock() {
    assert_eq!(build_session_id("mock://xdbg", 1234), "xdbg-1234-mock://xdbg");
    assert_eq!(build_session_id("h:1", 0), "xdbg-0-h:1");
}

#[test]
fn endpoint_and_session_id_come_and_go_together() {
    let mut adapter = XdbgRemoteAdapter::new();
    assert!(!adapter.is_connected());
    assert_eq!((adapter.endpoint(), adapter.session_id()), (None, None));
    let config = RemoteConfig { endpoint: "mock://xdbg".to_string(), ..RemoteConfig::default() };
    adapter.connect(&config, &probe(NetworkOutcome::Reachable)).expect("connect");
    assert!(adapter.is_connected() && adapter.endpoint().is_some() && adapter.session_id().is_some());
    let failed = RemoteConfig { token: Some("bad-token".to_string()), ..config.clone() };
    assert!(adapter.connect(&failed, &probe(NetworkOutcome::Reachable)).is_err());
    assert!(adapter.is_connected() && adapter.endpoint().is_some());
    adapter.disconnect();
    assert!(!adapter.is_connected());
    assert_eq!((adapter.endpoint(), adapter.session_id()), (None, None));
}
