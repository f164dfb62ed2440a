//! Plain data shared by the debugger core, its engine and the user interface.
use std::collections::HashSet;

use vstd::prelude::*;

use crate::text::concat;

verus! {

/// Where the debugged program stands.
#[derive(Debug, Clone, Copy, PartialEq, Eq, Structural)]
pub enum ExecutionState {
    NoTarget,
    Loaded,
    Running,
    Paused,
    Exited,
}

/// The name that the user interface shows for a state.
pub open spec fn execution_state_label(state: ExecutionState) -> Seq<char> {
    match state {
        ExecutionState::NoTarget => "No Target"@,
        ExecutionState::Loaded => "Loaded"@,
        ExecutionState::Running => "Running"@,
        ExecutionState::Paused => "Paused"@,
        ExecutionState::Exited => "Exited"@,
    }
}

impl ExecutionState {
    /// The state's display name.
    pub fn to_string(&self) -> (s: String)
        ensures
            s@ == execution_state_label(*self),
    {
        match self {
            ExecutionState::NoTarget => String::from_str("No Target"),
            ExecutionState::Loaded => String::from_str("Loaded"),
            ExecutionState::Running => String::from_str("Running"),
            ExecutionState::Paused => String::from_str("Paused"),
            ExecutionState::Exited => String::from_str("Exited"),
        }
    }
}

/// One disassembled instruction.
#[derive(Debug, PartialEq, Eq)]
pub struct AssemblyInstruction {
    pub address: u64,
    pub mnemonic: String,
    pub operands: String,
}

/// An instruction as plain values.
#[verifier::ext_equal]
pub struct InstructionView {
    pub address: u64,
    pub mnemonic: Seq<char>,
    pub operands: Seq<char>,
}

impl View for AssemblyInstruction {
    type V = InstructionView;

    open spec fn view(&self) -> InstructionView {
        InstructionView {
            address: self.address,
            mnemonic: self.mnemonic@,
            operands: self.operands@,
        }
    }
}

/// The text of an optional string.
pub open spec fn opt_text(o: Option<String>) -> Option<Seq<char>> {
    match o {
        Some(s) => Some(s@),
        None => None,
    }
}

impl Clone for AssemblyInstruction {
    fn clone(&self) -> (r: Self)
        ensures
            r == *self,
    {
        AssemblyInstruction {
            address: self.address,
            mnemonic: self.mnemonic.clone(),
            operands: self.operands.clone(),
        }
    }
}

/// One named register and its value.
#[derive(Debug, PartialEq, Eq)]
pub struct RegisterValue {
    pub name: String,
    pub value: u64,
}

impl Clone for RegisterValue {
    fn clone(&self) -> (r: Self)
        ensures
            r == *self,
    {
        RegisterValue { name: self.name.clone(), value: self.value }
    }
}

/// A window of target memory: `bytes[i]` is the byte at `address + i`.
#[derive(Debug, PartialEq, Eq)]
pub struct MemorySnapshot {
    pub address: u64,
    pub bytes: Vec<u8>,
}

impl Clone for MemorySnapshot {
    fn clone(&self) -> (r: Self)
        ensures
            r.address == self.address,
            r.bytes@ == self.bytes@,
    {
        MemorySnapshot { address: self.address, bytes: self.bytes.clone() }
    }
}

/// What is attached to: a process id or a process name.
#[derive(Debug, Clone, PartialEq, Eq)]
pub enum AttachTarget {
    Pid(u32),
    ProcessName(String),
}

/// A request to attach to a running process.
#[derive(Debug, Clone, PartialEq, Eq)]
pub struct AttachRequest {
    pub target: AttachTarget,
}

impl AttachRequest {
    /// A request to attach to the process with id `pid`.
    pub fn by_pid(pid: u32) -> (r: Self)
        ensures
            r.target == AttachTarget::Pid(pid),
    {
        AttachRequest { target: AttachTarget::Pid(pid) }
    }

    /// A request to attach to a process by its name.
    pub fn by_process_name(name: String) -> (r: Self)
        ensures
            r.target == AttachTarget::ProcessName(name),
    {
        AttachRequest { target: AttachTarget::ProcessName(name) }
    }
}

/// Why an attach did not succeed.
#[derive(Debug, Clone, Copy, PartialEq, Eq, Structural)]
pub enum AttachErrorKind {
    PermissionDenied,
    TargetNotFound,
    Timeout,
    LldbError,
}

/// The name under which an attach error is shown.
pub open spec fn attach_error_label(kind: AttachErrorKind) -> Seq<char> {
    match kind {
        AttachErrorKind::PermissionDenied => "permission_denied"@,
        AttachErrorKind::TargetNotFound => "target_not_found"@,
        AttachErrorKind::Timeout => "timeout"@,
        AttachErrorKind::LldbError => "lldb_error"@,
    }
}

impl AttachErrorKind {
    /// The error's display name.
    pub fn to_string(&self) -> (s: String)
        ensures
            s@ == attach_error_label(*self),
    {
        match self {
            AttachErrorKind::PermissionDenied => String::from_str("permission_denied"),
            AttachErrorKind::TargetNotFound => String::from_str("target_not_found"),
            AttachErrorKind::Timeout => String::from_str("timeout"),
            AttachErrorKind::LldbError => String::from_str("lldb_error"),
        }
    }
}

/// The outcome of an attach request.
#[derive(Debug, Clone, PartialEq, Eq)]
pub struct AttachResult {
    pub attached: bool,
    pub target_label: String,
    pub error: Option<AttachErrorKind>,
    pub message: String,
}

impl AttachResult {
    /// A successful attach to `target_label`.
    pub fn success(target_label: String) -> (r: Self)
        ensures
            r.attached,
            r.target_label == target_label,
            r.error is None,
            r.message@ == "Attached to "@ + target_label@,
    {
        let message = concat("Attached to ", target_label.as_str());
        AttachResult { attached: true, target_label, error: None, message }
    }

    /// A failed attach to `target_label`, for reason `error`.
    pub fn failure(target_label: String, error: AttachErrorKind, message: String) -> (r: Self)
        ensures
            !r.attached,
            r.target_label == target_label,
            r.error == Some(error),
            r.message == message,
    {
        AttachResult { attached: false, target_label, error: Some(error), message }
    }
}

/// How to reach a remote x64dbg debugging endpoint.
#[derive(Debug, PartialEq, Eq)]
pub struct RemoteConfig {
    pub endpoint: String,
    pub token: Option<String>,
    pub timeout_ms: u64,
    pub retry_count: u8,
}

impl Clone for RemoteConfig {
    fn clone(&self) -> (r: Self)
        ensures
            r == *self,
    {
        RemoteConfig {
            endpoint: self.endpoint.clone(),
            token: match &self.token {
                Some(t) => Some(t.clone()),
                None => None,
            },
            timeout_ms: self.timeout_ms,
            retry_count: self.retry_count,
        }
    }
}

/// The endpoint suggested when nothing else is given.
pub open spec fn default_endpoint() -> Seq<char> {
    "127.0.0.1:27400"@
}

/// The connection timeout used when nothing else is given.
pub open spec fn default_timeout_ms() -> u64 {
    1000
}

/// The number of reconnection attempts made when nothing else is given.
pub open spec fn default_retry_count() -> u8 {
    1
}

impl Default for RemoteConfig {
    fn default() -> (r: Self)
        ensures
            r.endpoint@ == default_endpoint(),
            r.token is None,
            r.timeout_ms == default_timeout_ms(),
            r.retry_count == default_retry_count(),
    {
        RemoteConfig {
            endpoint: String::from_str("127.0.0.1:27400"),
            token: None,
            timeout_ms: 1000,
            retry_count: 1,
        }
    }
}

/// The phase of the remote session.
#[derive(Debug, Clone, Copy, PartialEq, Eq, Structural)]
pub enum RemoteSessionState {
    Disconnected,
    Connecting,
    Connected,
    Degraded,
}

/// Why a remote operation failed.
#[derive(Debug, Clone, Copy, PartialEq, Eq, Structural)]
pub enum RemoteErrorKind {
    ConnectionFailed,
    AuthFailed,
    Timeout,
    ProtocolError,
}

/// The name under which a remote error is shown.
pub open spec fn remote_error_label(kind: RemoteErrorKind) -> Seq<char> {
    match kind {
        RemoteErrorKind::ConnectionFailed => "connection_failed"@,
        RemoteErrorKind::AuthFailed => "auth_failed"@,
        RemoteErrorKind::Timeout => "timeout"@,
        RemoteErrorKind::ProtocolError => "protocol_error"@,
    }
}

impl RemoteErrorKind {
    /// The error's display name.
    pub fn to_string(&self) -> (s: String)
        ensures
            s@ == remote_error_label(*self),
    {
        match self {
            RemoteErrorKind::ConnectionFailed => String::from_str("connection_failed"),
            RemoteErrorKind::AuthFailed => String::from_str("auth_failed"),
            RemoteErrorKind::Timeout => String::from_str("timeout"),
            RemoteErrorKind::ProtocolError => String::from_str("protocol_error"),
        }
    }
}

/// What is known of the remote session.
#[derive(Debug, PartialEq, Eq)]
pub struct RemoteSessionStatus {
    pub state: RemoteSessionState,
    pub endpoint: Option<String>,
    pub session_id: Option<String>,
    pub error: Option<RemoteErrorKind>,
    pub message: String,
}

/// A remote session status as plain values.
#[verifier::ext_equal]
pub struct StatusView {
    pub state: RemoteSessionState,
    pub endpoint: Option<Seq<char>>,
    pub session_id: Option<Seq<char>>,
    pub error: Option<RemoteErrorKind>,
    pub message: Seq<char>,
}

impl View for RemoteSessionStatus {
    type V = StatusView;

    open spec fn view(&self) -> StatusView {
        StatusView {
            state: self.state,
            endpoint: opt_text(self.endpoint),
            session_id: opt_text(self.session_id),
            error: self.error,
            message: self.message@,
        }
    }
}

/// The status of no remote session.
pub open spec fn disconnected_view() -> StatusView {
    StatusView {
        state: RemoteSessionState::Disconnected,
        endpoint: None,
        session_id: None,
        error: None,
        message: "Remote session disconnected"@,
    }
}

impl RemoteSessionStatus {
    /// The status of no remote session at all.
    pub fn disconnected() -> (r: Self)
        ensures
            r@ == disconnected_view(),
    {
        RemoteSessionStatus {
            state: RemoteSessionState::Disconnected,
            endpoint: None,
            session_id: None,
            error: None,
            message: String::from_str("Remote session disconnected"),
        }
    }
}

impl Clone for RemoteSessionStatus {
    fn clone(&self) -> (r: Self)
        ensures
            r == *self,
    {
        RemoteSessionStatus {
            state: self.state,
            endpoint: match &self.endpoint {
                Some(e) => Some(e.clone()),
                None => None,
            },
            session_id: match &self.session_id {
                Some(s) => Some(s.clone()),
                None => None,
            },
            error: self.error,
            message: self.message.clone(),
        }
    }
}

/// A command sent to the remote debugger.
#[derive(Debug, Clone, Copy, PartialEq, Eq, Structural)]
pub enum RemoteCommand {
    Continue,
    StepIn,
    StepOver,
    Pause,
    ReadRegisters,
    ReadMemory { address: u64, size: usize },
}

/// The remote protocol's method name for a command.
pub open spec fn method_name_of(command: RemoteCommand) -> Seq<char> {
    match command {
        RemoteCommand::Continue => "debug.continue"@,
        RemoteCommand::StepIn => "debug.step_in"@,
        RemoteCommand::StepOver => "debug.step_over"@,
        RemoteCommand::Pause => "debug.pause"@,
        RemoteCommand::ReadRegisters => "debug.read_registers"@,
        RemoteCommand::ReadMemory { .. } => "debug.read_memory"@,
    }
}

impl RemoteCommand {
    /// The remote protocol's method name for this command.
    pub fn method_name(&self) -> (s: String)
        ensures
            s@ == method_name_of(*self),
    {
        match self {
            RemoteCommand::Continue => String::from_str("debug.continue"),
            RemoteCommand::StepIn => String::from_str("debug.step_in"),
            RemoteCommand::StepOver => String::from_str("debug.step_over"),
            RemoteCommand::Pause => String::from_str("debug.pause"),
            RemoteCommand::ReadRegisters => String::from_str("debug.read_registers"),
            RemoteCommand::ReadMemory { .. } => String::from_str("debug.read_memory"),
        }
    }
}

/// The acknowledgement of a remote command.
#[derive(Debug, Clone, PartialEq, Eq)]
pub struct RemoteCommandResult {
    pub command: RemoteCommand,
    pub success: bool,
    pub error: Option<RemoteErrorKind>,
    pub message: String,
}

/// Everything the user interface shows of the debugger at one moment.
#[derive(Debug)]
pub struct DebuggerSnapshot {
    pub binary_path: Option<String>,
    pub attached_target: Option<String>,
    pub state: ExecutionState,
    pub current_pc: Option<u64>,
    pub instructions: Vec<AssemblyInstruction>,
    pub breakpoints: HashSet<u64>,
    pub registers: Vec<RegisterValue>,
    pub memory: MemorySnapshot,
    pub remote: RemoteSessionStatus,
}

/// A request from the user interface to the debugger core.
#[derive(Debug, Clone)]
pub enum DebugCommand {
    LoadBinary(String),
    AttachProcess(AttachRequest),
    ConnectRemote(RemoteConfig),
    DisconnectRemote,
    StepIn,
    StepOver,
    Continue,
    Pause,
    ReadRegisters,
    ToggleBreakpoint(u64),
    RefreshState,
    ReadMemory { address: u64, size: usize },
    Stop,
}

/// An error of the debugger core, with a message for the user.
#[derive(Debug, Clone, PartialEq, Eq)]
pub struct CoreError {
    pub message: String,
}

impl CoreError {
    /// An error with the given message.
    pub fn new(message: String) -> (r: Self)
        ensures
            r.message == message,
    {
        CoreError { message }
    }

    /// An error whose message is the text `message`.
    pub fn from_text(message: &str) -> (r: Self)
        ensures
            r.message@ == message@,
    {
        CoreError { message: String::from_str(message) }
    }

    /// The error as the user reads it: its message.
    pub fn to_string(&self) -> (s: String)
        ensures
            s@ == self.message@,
    {
        self.message.clone()
    }
}


/// What the host reports when the debugger tries to attach. The user
/// interface gathers it; the engine decides with it.
#[derive(Debug, Clone, PartialEq, Eq)]
pub struct AttachProbe {
    /// The debugger's own process id.
    pub own_pid: u32,
    /// The standard output of the process listing made for the request
    /// (`ps -p <pid> -o pid=` for a pid, `ps -A -o comm=` for a name), when
    /// it ran and exited successfully.
    pub process_listing: Option<String>,
    /// The value of the attach-permission override in the environment, if set.
    pub permission_override: Option<String>,
    /// Where the platform needs LLDB to attach: whether LLDB was found.
    pub lldb_available: Option<bool>,
}


/// What the host found when asked for a binary's contents.
#[derive(Debug, Clone, PartialEq, Eq)]
pub enum BinaryRead {
    /// No file exists at the path.
    Missing,
    /// The file exists but could not be read; the system's message.
    Unreadable(String),
    /// The file's bytes.
    Contents(Vec<u8>),
}

} // verus!
