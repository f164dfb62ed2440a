use rust_lldb_visual_debugger::debugger::engine::{DebugEngine, MockLldbEngine};
use rust_lldb_visual_debugger::debugger::remote::xdbg_adapter::{NetworkOutcome, RemoteProbe};
use rust_lldb_visual_debugger::types::{RemoteConfig, RemoteErrorKind, RemoteSessionState};

fn probe() -> RemoteProbe {
    RemoteProbe { now_millis: 7, network: NetworkOutcome::Reachable }
}

#[test]
fn remote_connect_success_path_reaches_connected_state() {
    let mut engine = MockLldbEngine::new().expect("engine should initialize");
    let status = engine
        .connect_remote(
            RemoteConfig { endpoint: "mock://xdbg".to_string(), ..RemoteConfig::default() },
            &vec![probe()],
        )
        .expect("remote connect should return status");

    assert_eq!(status.state, RemoteSessionState::Connected);
    let pc = engine.step_in().expect("step should work in remote mode");
    assert!(pc.is_some());
}

#[test]
fn remote_connect_timeout_is_classified() {
    let mut engine = MockLldbEngine::new().expect("engine should initialize");
    engine.set_remote_forced_timeout(true);
    let status = engine
        .connect_remote(
            RemoteConfig {
                endpoint: "127.0.0.1:27400".to_string(),
                retry_count: 0,
                ..RemoteConfig::default()
            },
            &vec![probe()],
        )
        .expect("remote connect should return degraded status");

    assert_eq!(status.state, RemoteSessionState::Degraded);
    assert_eq!(status.error, Some(RemoteErrorKind::Timeout));
}

#[test]
fn remote_connect_auth_failure_is_classified() {
    let mut engine = MockLldbEngine::new().expect("engine should initialize");
    let status = engine
        .connect_remote(
            RemoteConfig {
                endpoint: "mock://xdbg".to_string(),
                token: Some("bad-token".to_string()),
                retry_count: 0,
                ..RemoteConfig::default()
            },
            &vec![probe()],
        )
        .expect("remote connect should return degraded status");

    assert_eq!(status.state, RemoteSessionState::Degraded);
    assert_eq!(status.error, Some(RemoteErrorKind::AuthFailed));
}

#[test]
fn remote_disconnect_then_reconnect_restores_session() {
    let mut engine = MockLldbEngine::new().expect("engine should initialize");

    let _ = engine
        .connect_remote(
            RemoteConfig { endpoint: "mock://xdbg".to_string(), ..RemoteConfig::default() },
            &vec![probe()],
        )
        .expect("first connect should work");
    engine.disconnect_remote();
    assert_eq!(engine.remote_session_status().state, RemoteSessionState::Disconnected);

    let status = engine
        .connect_remote(
            RemoteConfig { endpoint: "mock://xdbg".to_string(), ..RemoteConfig::default() },
            &vec![probe()],
        )
        .expect("reconnect should work");
    assert_eq!(status.state, RemoteSessionState::Connected);
}
