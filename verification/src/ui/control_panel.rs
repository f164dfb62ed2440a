//! The control panel: what its inputs request, and which of its controls
//! are available.
use vstd::prelude::*;

use crate::text::{concat, decimal_reads_back, decimal_seq, lemma_trim_unspaced, decimal_string, is_blank_str, parse_trimmed,
    parse_unsigned_seq, trim, trim_seq};
use crate::types::{
    AttachRequest, AttachTarget, ExecutionState, RemoteConfig, RemoteSessionState,
    RemoteSessionStatus, default_endpoint, default_retry_count, default_timeout_ms,
    execution_state_label, opt_text,
};
use crate::ui::style::{Rgb, rgb};

verus! {

/// How the process to attach to is named.
#[derive(Debug, Clone, Copy, PartialEq, Eq, Structural)]
pub enum AttachMode {
    Pid,
    ProcessName,
}

/// The text typed into the control panel.
#[derive(Debug)]
pub struct ControlPanelState {
    pub attach_mode: AttachMode,
    pub pid_input: String,
    pub process_name_input: String,
    pub remote_endpoint: String,
    pub remote_token: String,
    pub remote_timeout_ms: String,
    pub remote_retry_count: String,
}

impl Clone for ControlPanelState {
    fn clone(&self) -> (r: Self)
        ensures
            r == *self,
    {
        ControlPanelState {
            attach_mode: self.attach_mode,
            pid_input: self.pid_input.clone(),
            process_name_input: self.process_name_input.clone(),
            remote_endpoint: self.remote_endpoint.clone(),
            remote_token: self.remote_token.clone(),
            remote_timeout_ms: self.remote_timeout_ms.clone(),
            remote_retry_count: self.remote_retry_count.clone(),
        }
    }
}

impl Default for ControlPanelState {
    /// Attach by pid with empty inputs; the remote fields show the default
    /// remote configuration (no token).
    fn default() -> (s: Self)
        ensures
            s.attach_mode == AttachMode::Pid,
            s.pid_input@.len() == 0,
            s.process_name_input@.len() == 0,
            s.remote_endpoint@ == default_endpoint(),
            s.remote_token@.len() == 0,
            s.remote_timeout_ms@ == decimal_seq(default_timeout_ms() as nat),
            s.remote_retry_count@ == decimal_seq(default_retry_count() as nat),
    {
        let config = RemoteConfig::default();
        ControlPanelState {
            attach_mode: AttachMode::Pid,
            pid_input: String::new(),
            process_name_input: String::new(),
            remote_endpoint: config.endpoint,
            remote_token: String::new(),
            remote_timeout_ms: decimal_string(config.timeout_ms as u128),
            remote_retry_count: decimal_string(config.retry_count as u128),
        }
    }
}

/// What the user asked for in one frame of the control panel.
#[derive(Debug)]
pub struct ControlPanelResponse {
    /// The path of a binary to load.
    pub load_binary: Option<String>,
    pub attach_request: Option<AttachRequest>,
    pub connect_remote: Option<RemoteConfig>,
    pub disconnect_remote: bool,
    pub step_in: bool,
    pub step_over: bool,
    pub continue_exec: bool,
    pub pause_exec: bool,
    pub read_registers: bool,
    pub read_memory: bool,
    pub refresh_state: bool,
}

impl Default for ControlPanelResponse {
    /// Nothing asked for.
    fn default() -> (r: Self)
        ensures
            r.load_binary is None,
            r.attach_request is None,
            r.connect_remote is None,
            !r.disconnect_remote,
            !r.step_in,
            !r.step_over,
            !r.continue_exec,
            !r.pause_exec,
            !r.read_registers,
            !r.read_memory,
            !r.refresh_state,
    {
        ControlPanelResponse {
            load_binary: None,
            attach_request: None,
            connect_remote: None,
            disconnect_remote: false,
            step_in: false,
            step_over: false,
            continue_exec: false,
            pause_exec: false,
            read_registers: false,
            read_memory: false,
            refresh_state: false,
        }
    }
}

/// The attach target that the inputs name: the trimmed pid input read as a
/// decimal `u32`, or the trimmed process name when it is not empty.
pub open spec fn attach_target_of(mode: AttachMode, pid_input: Seq<char>, name_input: Seq<char>) -> Option<
    Result<u32, Seq<char>>,
> {
    match mode {
        AttachMode::Pid => match parse_unsigned_seq(trim_seq(pid_input), 10, u32::MAX as int) {
            Some(n) => Some(Ok(n as u32)),
            None => None,
        },
        AttachMode::ProcessName => if trim_seq(name_input).len() == 0 {
            None
        } else {
            Some(Err(trim_seq(name_input)))
        },
    }
}

/// The attach request that the inputs make, if they make one.
pub fn derive_attach_request(mode: AttachMode, pid_input: &str, process_name_input: &str) -> (r:
    Option<AttachRequest>)
    ensures
        match attach_target_of(mode, pid_input@, process_name_input@) {
            None => r is None,
            Some(Ok(pid)) => r == Some(AttachRequest { target: AttachTarget::Pid(pid) }),
            Some(Err(name)) => r matches Some(q) && q.target matches AttachTarget::ProcessName(s)
                && s@ == name,
        },
{
    match mode {
        AttachMode::Pid => match parse_trimmed(pid_input, 10, 0xffff_ffff) {
            Some(pid) => Some(AttachRequest::by_pid(pid as u32)),
            None => None,
        },
        AttachMode::ProcessName => {
            if is_blank_str(process_name_input) {
                None
            } else {
                Some(AttachRequest::by_process_name(trim(process_name_input)))
            }
        },
    }
}

/// The remote configuration that the inputs describe: a non-blank endpoint,
/// a positive decimal timeout and a decimal retry count that fits in a
/// byte (all trimmed), and the trimmed token when it is not empty.
pub open spec fn remote_config_of(
    endpoint: Seq<char>,
    token: Seq<char>,
    timeout: Seq<char>,
    retry: Seq<char>,
) -> Option<(Seq<char>, Option<Seq<char>>, u64, u8)> {
    let e = trim_seq(endpoint);
    let t = trim_seq(token);
    if e.len() == 0 {
        None
    } else {
        match parse_unsigned_seq(trim_seq(timeout), 10, u64::MAX as int) {
            None => None,
            Some(ms) => if ms == 0 {
                None
            } else {
                match parse_unsigned_seq(trim_seq(retry), 10, u8::MAX as int) {
                    None => None,
                    Some(k) => Some(
                        (
                            e,
                            if t.len() == 0 {
                                None
                            } else {
                                Some(t)
                            },
                            ms as u64,
                            k as u8,
                        ),
                    ),
                }
            },
        }
    }
}

/// The remote configuration that the inputs describe, if they describe one.
pub fn derive_remote_config(
    endpoint_input: &str,
    token_input: &str,
    timeout_input: &str,
    retry_input: &str,
) -> (r: Option<RemoteConfig>)
    ensures
        match remote_config_of(endpoint_input@, token_input@, timeout_input@, retry_input@) {
            None => r is None,
            Some((e, t, ms, k)) => r matches Some(c) && c.endpoint@ == e && opt_text(c.token) == t
                && c.timeout_ms == ms && c.retry_count == k,
        },
{
    let endpoint = trim(endpoint_input);
    if endpoint.as_str().is_empty() {
        return None;
    }
    let timeout_ms = match parse_trimmed(timeout_input, 10, 0xffff_ffff_ffff_ffff) {
        Some(ms) => ms,
        None => {
            return None;
        },
    };
    if timeout_ms == 0 {
        return None;
    }
    let retry_count = match parse_trimmed(retry_input, 10, 0xff) {
        Some(k) => k as u8,
        None => {
            return None;
        },
    };
    let token = trim(token_input);
    let token = if token.as_str().is_empty() {
        None
    } else {
        Some(token)
    };
    Some(RemoteConfig { endpoint, token, timeout_ms, retry_count })
}

/// The badge that shows the execution state: its label and colour.
pub fn state_badge(state: ExecutionState) -> (badge: (String, Rgb))
    ensures
        badge.0@ == "State: "@ + execution_state_label(state),
        badge.1 == match state {
            ExecutionState::NoTarget => rgb(200, 200, 200),
            ExecutionState::Loaded => rgb(150, 210, 245),
            ExecutionState::Running => rgb(180, 230, 180),
            ExecutionState::Paused => rgb(250, 220, 150),
            ExecutionState::Exited => rgb(250, 180, 180),
        },
{
    let color = match state {
        ExecutionState::NoTarget => Rgb { r: 200, g: 200, b: 200 },
        ExecutionState::Loaded => Rgb { r: 150, g: 210, b: 245 },
        ExecutionState::Running => Rgb { r: 180, g: 230, b: 180 },
        ExecutionState::Paused => Rgb { r: 250, g: 220, b: 150 },
        ExecutionState::Exited => Rgb { r: 250, g: 180, b: 180 },
    };
    (concat("State: ", state.to_string().as_str()), color)
}

/// The label of the attach button, which is disabled without a request.
pub fn attach_button_label(has_request: bool) -> (s: String)
    ensures
        s@ == (if has_request {
            "Attach"@
        } else {
            "Attach (disabled)"@
        }),
{
    if has_request {
        String::from_str("Attach")
    } else {
        String::from_str("Attach (disabled)")
    }
}

/// Whether connecting is offered: the inputs describe a configuration and
/// the session is neither connected nor connecting.
pub fn can_connect(has_config: bool, status: &RemoteSessionStatus) -> (b: bool)
    ensures
        b == (has_config && status.state != RemoteSessionState::Connected && status.state
            != RemoteSessionState::Connecting),
{
    has_config && status.state != RemoteSessionState::Connected && status.state
        != RemoteSessionState::Connecting
}

/// Whether disconnecting is offered: the session is connected or degraded.
pub fn can_disconnect(status: &RemoteSessionStatus) -> (b: bool)
    ensures
        b == (status.state == RemoteSessionState::Connected || status.state
            == RemoteSessionState::Degraded),
{
    status.state == RemoteSessionState::Connected || status.state == RemoteSessionState::Degraded
}

/// Whether the execution controls are offered: a binary is loaded, a
/// process is attached, or the remote session is connected.
pub fn controls_enabled(
    loaded_binary: &Option<String>,
    attached_target: &Option<String>,
    status: &RemoteSessionStatus,
) -> (b: bool)
    ensures
        b == (loaded_binary is Some || attached_target is Some || status.state
            == RemoteSessionState::Connected),
{
    loaded_binary.is_some() || attached_target.is_some() || status.state
        == RemoteSessionState::Connected
}

/// What the panel shows as the target: the remote endpoint when connected,
/// else the attached process, else the loaded binary, else that there is
/// none; with its colour.
pub fn target_summary(
    loaded_binary: &Option<String>,
    attached_target: &Option<String>,
    status: &RemoteSessionStatus,
) -> (summary: (String, Rgb))
    ensures
        summary.0@ == (if status.state == RemoteSessionState::Connected {
            "Remote "@ + match status.endpoint {
                Some(e) => e@,
                None => "unknown-endpoint"@,
            }
        } else if attached_target is Some {
            attached_target->Some_0@
        } else if loaded_binary is Some {
            loaded_binary->Some_0@
        } else {
            "No target attached"@
        }),
        summary.1 == (if status.state != RemoteSessionState::Connected && attached_target is None
            && loaded_binary is None {
            rgb(200, 200, 200)
        } else {
            rgb(200, 210, 220)
        }),
{
    let shown = Rgb { r: 200, g: 210, b: 220 };
    if status.state == RemoteSessionState::Connected {
        let endpoint = match &status.endpoint {
            Some(e) => e.as_str(),
            None => "unknown-endpoint",
        };
        (concat("Remote ", endpoint), shown)
    } else if let Some(target) = attached_target {
        (target.clone(), shown)
    } else if let Some(path) = loaded_binary {
        (path.clone(), shown)
    } else {
        (String::from_str("No target attached"), Rgb { r: 200, g: 200, b: 200 })
    }
}

/// The control panel's default inputs describe the default remote
/// configuration.
pub proof fn default_inputs_give_default_config()
    ensures
        remote_config_of(
            default_endpoint(),
            Seq::empty(),
            decimal_seq(default_timeout_ms() as nat),
            decimal_seq(default_retry_count() as nat),
        ) == Some(
            (default_endpoint(), None::<Seq<char>>, default_timeout_ms(), default_retry_count()),
        ),
{
    reveal_strlit("127.0.0.1:27400");
    lemma_trim_unspaced(default_endpoint());
    decimal_reads_back(default_timeout_ms() as nat, u64::MAX as int);
    decimal_reads_back(default_retry_count() as nat, u8::MAX as int);
}

/// A pid written in decimal, in pid mode, names that process.
pub proof fn decimal_pid_names_process(pid: u32, name_input: Seq<char>)
    ensures
        attach_target_of(AttachMode::Pid, decimal_seq(pid as nat), name_input) == Some(
            Ok::<u32, Seq<char>>(pid),
        ),
{
    decimal_reads_back(pid as nat, u32::MAX as int);
}

} // verus!
