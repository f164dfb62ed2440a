use rust_lldb_visual_debugger::debugger::engine::{DebugEngine, MockLldbEngine};
use rust_lldb_visual_debugger::debugger::remote::xdbg_adapter::{NetworkOutcome, RemoteProbe};
use rust_lldb_visual_debugger::debugger::types::SessionLifecycle;
use rust_lldb_visual_debugger::types::{
    AttachErrorKind, AttachProbe, AttachRequest, BinaryRead, ExecutionState, RemoteConfig,
    RemoteSessionState,
};

/// The process id that the probes report as the debugger's own.
const OWN_PID: u32 = 4321;

fn own_probe() -> AttachProbe {
    AttachProbe {
        own_pid: OWN_PID,
        process_listing: None,
        permission_override: None,
        lldb_available: None,
    }
}

fn mock_probe() -> RemoteProbe {
    RemoteProbe { now_millis: 1_700_000_000_000, network: NetworkOutcome::Reachable }
}

fn loaded_engine(bytes: Vec<u8>) -> MockLldbEngine {
    let mut engine = MockLldbEngine::new().expect("engine should initialize");
    engine
        .load_binary("sample.bin".to_string(), BinaryRead::Contents(bytes))
        .expect("binary load should succeed");
    engine
}

#[test]
fn loads_arm64_sample_and_disassembles() {
    let sample: Vec<u8> = vec![0xfd, 0x7b, 0xbf, 0xa9, 0xfd, 0x03, 0x00, 0x91, 0xc0, 0x03, 0x5f, 0xd6];
    let engine = loaded_engine(sample);
    let disassembly = engine.fetch_disassembly().expect("disassembly should be available");

    assert!(!disassembly.is_empty());
    assert_eq!(disassembly[0].address, 0x1000);
}

#[test]
fn sets_and_removes_breakpoints() {
    let mut engine = loaded_engine(vec![1, 2, 3, 4, 5, 6, 7, 8]);

    engine.toggle_breakpoint(0x1004).expect("set breakpoint should succeed");
    assert!(engine.snapshot().breakpoints.contains(&0x1004));

    engine.toggle_breakpoint(0x1004).expect("remove breakpoint should succeed");
    assert!(!engine.snapshot().breakpoints.contains(&0x1004));
}

#[test]
fn stepping_updates_program_counter_and_state_views() {
    let mut engine = loaded_engine(vec![10, 11, 12, 13, 14, 15, 16, 17]);

    let old_pc = engine.snapshot().current_pc.expect("pc should exist after load");
    engine.step_in().expect("step should succeed");
    let new_pc = engine.snapshot().current_pc.expect("pc should exist after stepping");

    assert!(new_pc > old_pc);

    let registers = engine.read_registers().expect("registers should be readable");
    assert_eq!(registers.iter().filter(|reg| reg.name == "pc").count(), 1);

    let memory = engine.read_memory(new_pc, 0x40).expect("memory should be readable");
    assert_eq!(memory.bytes.len(), 0x40);
}

#[test]
fn attach_rejects_invalid_target() {
    let mut engine = MockLldbEngine::new().expect("engine should initialize");
    let result = engine
        .attach_process(AttachRequest::by_process_name(" ".to_string()), &own_probe())
        .expect("attach command should return structured result");

    assert!(!result.attached);
    assert_eq!(result.error, Some(AttachErrorKind::TargetNotFound));
}

#[test]
fn attach_to_existing_pid_updates_lifecycle() {
    let mut engine = MockLldbEngine::new().expect("engine should initialize");
    let result = engine
        .attach_process(AttachRequest::by_pid(OWN_PID), &own_probe())
        .expect("attach should return result");

    assert!(result.attached, "expected attach success: {}", result.message);
    assert_eq!(engine.attach_lifecycle(), SessionLifecycle::Attached);
    assert_eq!(engine.snapshot().state, ExecutionState::Paused);
}

#[test]
fn attach_to_unknown_pid_returns_target_not_found() {
    let mut engine = MockLldbEngine::new().expect("engine should initialize");
    let pid = u32::MAX - 1;
    let result = engine
        .attach_process(AttachRequest::by_pid(pid), &own_probe())
        .expect("attach should return structured result");

    assert!(!result.attached);
    assert_eq!(result.error, Some(AttachErrorKind::TargetNotFound));
}

#[test]
fn attached_session_supports_step_and_continue_controls() {
    let mut engine = MockLldbEngine::new().expect("engine should initialize");
    let attach = engine
        .attach_process(AttachRequest::by_pid(OWN_PID), &own_probe())
        .expect("attach should return structured result");
    assert!(attach.attached);

    let first_pc = engine.snapshot().current_pc.expect("pc should exist");
    let step_pc = engine.step_in().expect("step should work").expect("pc should advance");
    assert!(step_pc > first_pc);

    engine.toggle_breakpoint(step_pc + 4).expect("set breakpoint should work");
    let _ = engine.continue_exec().expect("continue should work");
}

#[test]
fn remote_connect_and_disconnect_update_session_status() {
    let mut engine = MockLldbEngine::new().expect("engine should initialize");
    let config = RemoteConfig { endpoint: "mock://xdbg".to_string(), ..RemoteConfig::default() };

    let status = engine
        .connect_remote(config.clone(), &vec![mock_probe()])
        .expect("remote connect should produce status");
    assert_eq!(status.state, RemoteSessionState::Connected);

    engine.disconnect_remote();
    assert_eq!(engine.remote_session_status().state, RemoteSessionState::Disconnected);
}

#[test]
fn remote_connect_reports_degraded_status_for_bad_token() {
    let mut engine = MockLldbEngine::new().expect("engine should initialize");
    let config = RemoteConfig {
        endpoint: "mock://xdbg".to_string(),
        token: Some("bad-token".to_string()),
        retry_count: 0,
        ..RemoteConfig::default()
    };

    let status = engine
        .connect_remote(config, &vec![mock_probe()])
        .expect("remote connect should return status");
    assert_eq!(status.state, RemoteSessionState::Degraded);
}

#[test]
fn empty_binary_counts_as_sixty_four_zero_bytes() {
    let engine = loaded_engine(Vec::new());
    let disassembly = engine.fetch_disassembly().expect("disassembly should be available");
    assert_eq!(disassembly.len(), 16);
    assert_eq!(disassembly[15].address, 0x1000 + 60);
    assert_eq!(disassembly[0].mnemonic, "stp");
    assert_eq!(disassembly[0].operands, "x0, #0x0");
}

#[test]
fn disassembly_seeds_mnemonic_and_operands_from_chunk_sums() {
    // chunk sums: 1+2+3+4 = 10, 5+6+7+8 = 26, 9 = 9
    let engine = loaded_engine(vec![1, 2, 3, 4, 5, 6, 7, 8, 9]);
    let d = engine.fetch_disassembly().expect("disassembly should be available");
    assert_eq!(d.len(), 3);
    assert_eq!(d[0].mnemonic, "str");
    assert_eq!(d[0].operands, "x10, #0xa");
    assert_eq!(d[1].mnemonic, "str");
    assert_eq!(d[1].operands, "x26, #0x1a");
    assert_eq!(d[2].mnemonic, "ldr");
    assert_eq!(d[2].operands, "x9, #0x9");
    assert_eq!(d[2].address, 0x1008);
}

#[test]
fn operations_without_target_are_refused() {
    let mut engine = MockLldbEngine::new().expect("engine should initialize");
    assert_eq!(engine.step_in().unwrap_err().message, "No binary loaded");
    assert_eq!(engine.continue_exec().unwrap_err().message, "No binary loaded");
    assert_eq!(engine.pause_exec().unwrap_err().message, "No binary loaded");
    assert_eq!(engine.toggle_breakpoint(0x1000).unwrap_err().message, "No binary loaded");
    assert_eq!(engine.read_registers().unwrap_err().message, "No binary loaded");
    assert_eq!(engine.read_memory(0x1000, 4).unwrap_err().message, "No binary loaded");
    assert_eq!(engine.fetch_disassembly().unwrap_err().message, "No binary loaded");
}

#[test]
fn missing_and_unreadable_binaries_are_reported() {
    let mut engine = MockLldbEngine::new().expect("engine should initialize");
    let missing = engine.load_binary("/no/such.bin".to_string(), BinaryRead::Missing).unwrap_err();
    assert_eq!(missing.message, "Binary does not exist: /no/such.bin");
    let unreadable = engine
        .load_binary("a.bin".to_string(), BinaryRead::Unreadable("denied".to_string()))
        .unwrap_err();
    assert_eq!(unreadable.message, "Failed to read binary: denied");
    assert_eq!(engine.snapshot().state, ExecutionState::NoTarget);
}

#[test]
fn continue_stops_at_the_first_breakpoint_ahead() {
    let mut engine = loaded_engine(vec![0; 32]);
    engine.toggle_breakpoint(0x100c).expect("breakpoint");
    engine.toggle_breakpoint(0x1014).expect("breakpoint");
    assert_eq!(engine.continue_exec().expect("continue"), Some(0x100c));
    assert_eq!(engine.snapshot().current_pc, Some(0x100c));
    assert_eq!(engine.snapshot().state, ExecutionState::Paused);
    assert_eq!(engine.continue_exec().expect("continue"), Some(0x1014));
    assert_eq!(engine.continue_exec().expect("continue"), None);
    assert_eq!(engine.snapshot().state, ExecutionState::Exited);
    assert_eq!(engine.snapshot().current_pc, Some(0x101c));
}

#[test]
fn stepping_past_the_last_instruction_exits() {
    let mut engine = loaded_engine(vec![0; 8]);
    assert_eq!(engine.step_in().expect("step"), Some(0x1004));
    assert_eq!(engine.step_over().expect("step"), None);
    assert_eq!(engine.snapshot().state, ExecutionState::Exited);
    assert_eq!(engine.pause_exec().expect("pause"), Some(0x1004));
    assert_eq!(engine.snapshot().state, ExecutionState::Paused);
}

#[test]
fn toggling_twice_restores_the_breakpoints() {
    let mut engine = loaded_engine(vec![0; 16]);
    engine.toggle_breakpoint(0x1008).expect("breakpoint");
    let before = engine.snapshot().breakpoints;
    engine.toggle_breakpoint(0x2000).expect("breakpoint");
    engine.toggle_breakpoint(0x2000).expect("breakpoint");
    assert_eq!(engine.snapshot().breakpoints, before);
}

#[test]
fn registers_follow_the_program_counter() {
    let engine = loaded_engine(vec![0; 16]);
    let registers = engine.read_registers().expect("registers");
    assert_eq!(registers.len(), 33);
    assert_eq!(registers[0].name, "x0");
    assert_eq!(registers[0].value, 0x1000);
    assert_eq!(registers[28].name, "x28");
    assert_eq!(registers[28].value, 0x1000 + 28 * 0x10);
    assert_eq!(registers[29].name, "fp");
    assert_eq!(registers[30].name, "lr");
    assert_eq!(registers[31].name, "sp");
    assert_eq!(registers[32].name, "pc");
    assert_eq!(registers[32].value, 0x1000);
}

#[test]
fn memory_reads_come_from_the_image_and_zero_outside() {
    let mut engine = loaded_engine(vec![1, 2, 3, 4, 5, 6, 7, 8]);
    let memory = engine.read_memory(0x1006, 4).expect("memory");
    assert_eq!(memory.address, 0x1006);
    assert_eq!(memory.bytes, vec![7, 8, 0, 0]);
    let below = engine.read_memory(0x10, 2).expect("memory");
    assert_eq!(below.bytes, vec![1, 2]);
}

#[test]
fn attach_without_permission_fails_and_marks_lifecycle() {
    let mut engine = MockLldbEngine::new().expect("engine should initialize");
    let probe = AttachProbe { lldb_available: Some(false), ..own_probe() };
    let result = engine
        .attach_process(AttachRequest::by_pid(OWN_PID), &probe)
        .expect("structured result");
    assert!(!result.attached);
    assert_eq!(result.error, Some(AttachErrorKind::PermissionDenied));
    assert_eq!(result.message, "Permission denied while trying to attach (task_for_pid)");
    assert_eq!(result.target_label, format!("pid:{}", OWN_PID));
    assert_eq!(engine.attach_lifecycle(), SessionLifecycle::Failed);
}

#[test]
fn attach_success_message_names_the_target() {
    let mut engine = MockLldbEngine::new().expect("engine should initialize");
    let probe = AttachProbe { process_listing: Some("  4242\n".to_string()), ..own_probe() };
    let result = engine.attach_process(AttachRequest::by_pid(4242), &probe).expect("result");
    assert!(result.attached);
    assert_eq!(result.target_label, "pid:4242");
    assert_eq!(result.message, "Attached to pid:4242");
    assert_eq!(engine.snapshot().attached_target, Some("pid:4242".to_string()));
}

#[test]
fn remote_failure_with_retries_ends_degraded_on_local_backend() {
    let mut engine = MockLldbEngine::new().expect("engine should initialize");
    let probe = RemoteProbe {
        now_millis: 5,
        network: NetworkOutcome::Unreachable("connection refused".to_string()),
    };
    let config = RemoteConfig { endpoint: "10.0.0.1:1".to_string(), retry_count: 3, ..RemoteConfig::default() };
    let status = engine.connect_remote(config, &vec![probe]).expect("status");
    assert_eq!(status.state, RemoteSessionState::Degraded);
    assert_eq!(status.message, "Failed to reach remote endpoint: connection refused");
    assert_eq!(engine.snapshot().state, ExecutionState::NoTarget);
}

#[test]
fn invalid_remote_config_is_refused() {
    let mut engine = MockLldbEngine::new().expect("engine should initialize");
    let config = RemoteConfig { endpoint: "  ".to_string(), ..RemoteConfig::default() };
    let error = engine.connect_remote(config, &vec![mock_probe()]).unwrap_err();
    assert_eq!(error.message, "Invalid remote config: endpoint must not be empty");
    let config = RemoteConfig { timeout_ms: 0, ..RemoteConfig::default() };
    let error = engine.connect_remote(config, &vec![mock_probe()]).unwrap_err();
    assert_eq!(error.message, "Invalid remote config: timeout must be greater than zero");
}

#[test]
fn remote_session_id_records_clock_and_endpoint() {
    let mut engine = MockLldbEngine::new().expect("engine should initialize");
    let config = RemoteConfig { endpoint: " mock://xdbg ".to_string(), ..RemoteConfig::default() };
    let status = engine.connect_remote(config, &vec![mock_probe()]).expect("status");
    assert_eq!(status.session_id, Some("xdbg-1700000000000-mock://xdbg".to_string()));
    assert_eq!(status.endpoint, Some(" mock://xdbg ".to_string()));
    assert_eq!(engine.snapshot().attached_target, Some("xdbg-remote@ mock://xdbg ".to_string()));
}

#[test]
fn forced_timeout_breaks_remote_reads() {
    let mut engine = MockLldbEngine::new().expect("engine should initialize");
    let config = RemoteConfig { endpoint: "mock://xdbg".to_string(), ..RemoteConfig::default() };
    engine.connect_remote(config, &vec![mock_probe()]).expect("status");
    engine.set_remote_forced_timeout(true);
    let error = engine.read_registers().unwrap_err();
    assert_eq!(error.message, "Remote read-register failed (timeout): Remote command timed out");
    let step = engine.step_in().unwrap_err();
    assert_eq!(step.message, "Remote command timed out");
    assert_eq!(engine.remote_session_status().state, RemoteSessionState::Degraded);
}

#[test]
fn remote_retry_that_is_accepted_connects() {
    let mut engine = MockLldbEngine::new().expect("engine should initialize");
    let probes = vec![
        RemoteProbe { now_millis: 1, network: NetworkOutcome::Unreachable("refused".to_string()) },
        RemoteProbe { now_millis: 2, network: NetworkOutcome::Reachable },
    ];
    let config = RemoteConfig { endpoint: "10.0.0.1:1".to_string(), retry_count: 1, ..RemoteConfig::default() };
    let status = engine.connect_remote(config, &probes).expect("status");
    assert_eq!(status.state, RemoteSessionState::Connected);
    assert_eq!(status.session_id, Some("xdbg-2-10.0.0.1:1".to_string()));
}

#[test]
fn remote_retries_reuse_the_last_probe() {
    let mut engine = MockLldbEngine::new().expect("engine should initialize");
    let probes = vec![
        RemoteProbe { now_millis: 1, network: NetworkOutcome::Unreachable("first".to_string()) },
        RemoteProbe { now_millis: 2, network: NetworkOutcome::Unreachable("later".to_string()) },
    ];
    let config = RemoteConfig { endpoint: "10.0.0.1:1".to_string(), retry_count: 3, ..RemoteConfig::default() };
    let status = engine.connect_remote(config, &probes).expect("status");
    assert_eq!(status.state, RemoteSessionState::Degraded);
    assert_eq!(status.message, "Failed to reach remote endpoint: later");
}
