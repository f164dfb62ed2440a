use rust_lldb_visual_debugger::debugger::engine::MockLldbEngine;
use rust_lldb_visual_debugger::debugger::events::DebugEvent;
use rust_lldb_visual_debugger::debugger::remote::xdbg_adapter::{NetworkOutcome, RemoteProbe};
use rust_lldb_visual_debugger::debugger::types::SessionLifecycle;
use rust_lldb_visual_debugger::debugger::{CoreAction, DebuggerCore};
use rust_lldb_visual_debugger::types::{
    AttachProbe, AttachRequest, BinaryRead, DebugCommand, ExecutionState, RemoteConfig,
    RemoteSessionState,
};
use rust_lldb_visual_debugger::ui::app_state::DebuggerApp;

fn new_core() -> DebuggerCore {
    DebuggerCore::new(MockLldbEngine::new().expect("engine should initialize"))
}

fn loaded_core(bytes: Vec<u8>) -> DebuggerCore {
    let mut core = new_core();
    let action = core.handle_command(DebugCommand::LoadBinary("t.bin".to_string()));
    assert_eq!(action, CoreAction::ReadBinary("t.bin".to_string()));
    assert_eq!(core.resume_load_binary("t.bin".to_string(), BinaryRead::Contents(bytes)), CoreAction::Idle);
    core
}

#[test]
fn core_reports_initial_state() {
    let mut core = new_core();
    let events = core.take_events();
    assert_eq!(events.len(), 1);
    assert!(matches!(events[0], DebugEvent::StateChanged(ExecutionState::NoTarget)));
    assert!(core.take_events().is_empty());
}

#[test]
fn loading_reports_target_then_snapshot() {
    let mut core = loaded_core(vec![1, 2, 3, 4, 5, 6, 7, 8]);
    let events = core.take_events();
    assert_eq!(events.len(), 8);
    assert!(matches!(&events[1], DebugEvent::TargetLoaded(p) if p == "t.bin"));
    assert!(matches!(events[2], DebugEvent::StateChanged(ExecutionState::Paused)));
    assert!(matches!(events[3], DebugEvent::InstructionPointerChanged(Some(0x1000))));
    assert!(matches!(&events[4], DebugEvent::AssemblyUpdated(ins) if ins.len() == 2));
    assert!(matches!(&events[5], DebugEvent::BreakpointsChanged(b) if b.is_empty()));
    assert!(matches!(&events[6], DebugEvent::RegistersUpdated(r) if r.len() == 33));
    assert!(matches!(&events[7], DebugEvent::MemoryUpdated { address: 0x1000, bytes } if bytes.len() == 0x100));
}

#[test]
fn missing_binary_reports_an_error() {
    let mut core = new_core();
    core.take_events();
    core.resume_load_binary("gone.bin".to_string(), BinaryRead::Missing);
    let events = core.take_events();
    assert_eq!(events.len(), 1);
    assert!(matches!(&events[0], DebugEvent::Error(m) if m == "Binary does not exist: gone.bin"));
}

#[test]
fn breakpoints_are_reported_sorted() {
    let mut core = loaded_core(vec![0; 32]);
    core.handle_command(DebugCommand::ToggleBreakpoint(0x1010));
    core.handle_command(DebugCommand::ToggleBreakpoint(0x1004));
    core.handle_command(DebugCommand::ToggleBreakpoint(0x1008));
    let events = core.take_events();
    let last = events
        .iter()
        .rev()
        .find_map(|e| match e {
            DebugEvent::BreakpointsChanged(b) => Some(b.clone()),
            _ => None,
        })
        .expect("breakpoints reported");
    assert_eq!(last, vec![0x1004, 0x1008, 0x1010]);
}

#[test]
fn continue_reports_the_breakpoint_hit_first() {
    let mut core = loaded_core(vec![0; 32]);
    core.handle_command(DebugCommand::ToggleBreakpoint(0x1008));
    core.take_events();
    assert_eq!(core.handle_command(DebugCommand::Continue), CoreAction::Idle);
    let events = core.take_events();
    assert_eq!(events.len(), 7);
    assert!(matches!(events[0], DebugEvent::BreakpointHit(0x1008)));
    assert!(matches!(events[2], DebugEvent::InstructionPointerChanged(Some(0x1008))));
}

#[test]
fn stepping_without_target_reports_error_only() {
    let mut core = new_core();
    core.take_events();
    core.handle_command(DebugCommand::StepIn);
    let events = core.take_events();
    assert_eq!(events.len(), 1);
    assert!(matches!(&events[0], DebugEvent::Error(m) if m == "No binary loaded"));
}

#[test]
fn memory_reads_report_the_window() {
    let mut core = loaded_core(vec![9; 8]);
    core.take_events();
    core.handle_command(DebugCommand::ReadMemory { address: 0x1004, size: 6 });
    let events = core.take_events();
    assert_eq!(events.len(), 1);
    assert!(matches!(&events[0], DebugEvent::MemoryUpdated { address: 0x1004, bytes } if *bytes == vec![9, 9, 9, 9, 0, 0]));
}

#[test]
fn attach_reports_result_lifecycle_and_state() {
    let mut core = new_core();
    core.take_events();
    let request = AttachRequest::by_pid(77);
    assert_eq!(core.handle_command(DebugCommand::AttachProcess(request.clone())), CoreAction::ProbeAttach(request.clone()));
    let probe = AttachProbe { own_pid: 77, process_listing: None, permission_override: None, lldb_available: None };
    core.resume_attach(request, &probe);
    let events = core.take_events();
    assert_eq!(events.len(), 8);
    assert!(matches!(&events[0], DebugEvent::AttachUpdated(r) if r.attached && r.target_label == "pid:77"));
    assert!(matches!(events[1], DebugEvent::AttachLifecycleChanged(SessionLifecycle::Attached)));
}

#[test]
fn remote_connection_is_driven_by_actions() {
    let mut core = new_core();
    core.take_events();
    let config = RemoteConfig { endpoint: "10.0.0.9:1".to_string(), retry_count: 1, ..RemoteConfig::default() };
    let action = core.handle_command(DebugCommand::ConnectRemote(config));
    assert_eq!(action, CoreAction::ProbeRemote(Some(("10.0.0.9:1".to_string(), 1000))));
    let refused = RemoteProbe { now_millis: 1, network: NetworkOutcome::Unreachable("refused".to_string()) };
    let action = core.resume_connect(&refused);
    assert_eq!(
        action,
        CoreAction::RetryConnect { delay_ms: 200, target: Some(("10.0.0.9:1".to_string(), 1000)) }
    );
    let accepted = RemoteProbe { now_millis: 2, network: NetworkOutcome::Reachable };
    assert_eq!(core.resume_connect(&accepted), CoreAction::Idle);
    let events = core.take_events();
    assert!(matches!(&events[0], DebugEvent::RemoteSessionChanged(s) if s.state == RemoteSessionState::Connecting));
    assert!(matches!(&events[1], DebugEvent::RemoteSessionChanged(s) if s.state == RemoteSessionState::Degraded));
    assert!(matches!(&events[2], DebugEvent::RemoteSessionChanged(s) if s.state == RemoteSessionState::Connected));
    assert_eq!(events.len(), 9);
    assert_eq!(core.resume_connect(&accepted), CoreAction::Idle);
    assert!(core.take_events().is_empty());
    core.handle_command(DebugCommand::DisconnectRemote);
    let events = core.take_events();
    assert!(matches!(&events[0], DebugEvent::RemoteSessionChanged(s) if s.state == RemoteSessionState::Disconnected));
    assert!(matches!(events[1], DebugEvent::StateChanged(ExecutionState::NoTarget)));
}

#[test]
fn invalid_remote_config_is_reported() {
    let mut core = new_core();
    core.take_events();
    let config = RemoteConfig { endpoint: String::new(), ..RemoteConfig::default() };
    assert_eq!(core.handle_command(DebugCommand::ConnectRemote(config)), CoreAction::Idle);
    let events = core.take_events();
    assert!(matches!(&events[0], DebugEvent::Error(m) if m == "Invalid remote config: endpoint must not be empty"));
}

#[test]
fn stop_ends_the_core() {
    let mut core = new_core();
    assert_eq!(core.handle_command(DebugCommand::Stop), CoreAction::Stop);
}

#[test]
fn window_shows_what_the_core_reports() {
    let mut core = loaded_core(vec![5; 12]);
    core.handle_command(DebugCommand::ToggleBreakpoint(0x1004));
    core.handle_command(DebugCommand::StepIn);
    let mut app = DebuggerApp::new();
    app.apply_events(core.take_events());
    assert_eq!(app.loaded_binary, Some("t.bin".to_string()));
    assert_eq!(app.execution_state, ExecutionState::Paused);
    assert_eq!(app.current_pc, Some(0x1004));
    assert_eq!(app.instructions.len(), 3);
    assert!(app.breakpoints.contains(&0x1004));
    assert_eq!(app.registers.len(), 33);
    assert_eq!(app.memory_address, 0x1004);
    assert_eq!(app.status_message, Some("Loaded target: t.bin".to_string()));
}
