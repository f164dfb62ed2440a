use rust_lldb_visual_debugger::debugger::engine::{DebugEngine, MockLldbEngine};
use rust_lldb_visual_debugger::types::{AttachErrorKind, AttachProbe, AttachRequest};

/// The process id that the probes report as the debugger's own.
const OWN_PID: u32 = 4321;

#[test]
fn attach_fails_with_permission_denied_when_permission_probe_is_blocked() {
    let mut engine = MockLldbEngine::new().expect("engine should initialize");
    let probe = AttachProbe {
        own_pid: OWN_PID,
        process_listing: None,
        permission_override: Some("deny".to_string()),
        lldb_available: None,
    };
    let result = engine
        .attach_process(AttachRequest::by_pid(OWN_PID), &probe)
        .expect("attach should return structured result");

    assert!(!result.attached);
    assert_eq!(result.error, Some(AttachErrorKind::PermissionDenied));
}

#[test]
fn attach_fails_with_target_not_found_for_unknown_process_name() {
    let mut engine = MockLldbEngine::new().expect("engine should initialize");
    let probe = AttachProbe {
        own_pid: OWN_PID,
        process_listing: Some("launchd\n/usr/sbin/sshd\nbash\n".to_string()),
        permission_override: None,
        lldb_available: None,
    };
    let result = engine
        .attach_process(AttachRequest::by_process_name("__iosdbg_missing_process__".to_string()), &probe)
        .expect("attach should return structured result");

    assert!(!result.attached);
    assert_eq!(result.error, Some(AttachErrorKind::TargetNotFound));
}

#[test]
fn attach_by_name_matches_a_listed_process_ignoring_case() {
    let mut engine = MockLldbEngine::new().expect("engine should initialize");
    let probe = AttachProbe {
        own_pid: 1,
        process_listing: Some("launchd\n  /Applications/Safari.app/Contents/MacOS/Safari \nbash\n".to_string()),
        permission_override: Some("allow".to_string()),
        lldb_available: None,
    };
    let result = engine
        .attach_process(AttachRequest::by_process_name(" safari ".to_string()), &probe)
        .expect("attach should return structured result");
    assert!(result.attached);
    assert_eq!(result.target_label, "name: safari ");
}

#[test]
fn denial_override_is_case_insensitive() {
    let mut engine = MockLldbEngine::new().expect("engine should initialize");
    let probe = AttachProbe {
        own_pid: 9,
        process_listing: None,
        permission_override: Some("DeNy".to_string()),
        lldb_available: Some(true),
    };
    let result = engine.attach_process(AttachRequest::by_pid(9), &probe).expect("result");
    assert_eq!(result.error, Some(AttachErrorKind::PermissionDenied));
}
