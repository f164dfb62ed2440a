//! What the debugger window shows, kept up to date from the core's events,
//! and the commands its controls send.
use std::collections::HashSet;

use vstd::prelude::*;
use vstd::std_specs::hash::group_hash_axioms;

use crate::debugger::events::DebugEvent;
use crate::debugger::types::SessionLifecycle;
use crate::text::{concat, decimal_seq, contains_seq, contains_text, chars_of, hex_padded, hex_seq, pad_left};
use crate::types::{
    AssemblyInstruction, AttachRequest, RemoteConfig, AttachErrorKind, DebugCommand, ExecutionState, InstructionView,
    RegisterValue, RemoteSessionState, RemoteSessionStatus, StatusView, default_endpoint,
    default_retry_count, default_timeout_ms, disconnected_view,
    opt_text,
};
use crate::debugger::engine::{
    EngineView, current_pc, instruction_views, registers_at, shown_pc,
};
use crate::debugger::reports_snapshot;
use crate::ui::control_panel::{AttachMode, ControlPanelResponse, ControlPanelState};
use crate::ui::memory_viewer::MemoryViewerState;

verus! {

broadcast use group_hash_axioms;

/// What the window shows, as plain values.
#[verifier::ext_equal]
pub struct AppView {
    pub loaded_binary: Option<Seq<char>>,
    pub execution_state: ExecutionState,
    pub instructions: Seq<InstructionView>,
    pub breakpoints: Set<u64>,
    pub current_pc: Option<u64>,
    pub registers: Seq<RegisterValue>,
    pub memory_address: u64,
    pub memory_bytes: Seq<u8>,
    pub status_message: Option<Seq<char>>,
    pub attach_lifecycle: SessionLifecycle,
    pub attach_error: Option<AttachErrorKind>,
    pub attached_target: Option<Seq<char>>,
    pub remote_status: StatusView,
}

/// The state of the debugger window.
pub struct DebuggerApp {
    pub loaded_binary: Option<String>,
    pub execution_state: ExecutionState,
    pub instructions: Vec<AssemblyInstruction>,
    pub breakpoints: HashSet<u64>,
    pub current_pc: Option<u64>,
    pub registers: Vec<RegisterValue>,
    pub memory_address: u64,
    pub memory_bytes: Vec<u8>,
    pub memory_viewer_state: MemoryViewerState,
    pub control_panel_state: ControlPanelState,
    pub status_message: Option<String>,
    pub attach_lifecycle: SessionLifecycle,
    pub attach_error: Option<AttachErrorKind>,
    pub attached_target: Option<String>,
    pub remote_status: RemoteSessionStatus,
}

impl View for DebuggerApp {
    type V = AppView;

    open spec fn view(&self) -> AppView {
        AppView {
            loaded_binary: opt_text(self.loaded_binary),
            execution_state: self.execution_state,
            instructions: instruction_views(self.instructions@),
            breakpoints: self.breakpoints@,
            current_pc: self.current_pc,
            registers: self.registers@,
            memory_address: self.memory_address,
            memory_bytes: self.memory_bytes@,
            status_message: opt_text(self.status_message),
            attach_lifecycle: self.attach_lifecycle,
            attach_error: self.attach_error,
            attached_target: opt_text(self.attached_target),
            remote_status: self.remote_status@,
        }
    }
}

/// The message shown when a breakpoint is hit at `address`.
pub open spec fn breakpoint_hit_message(address: u64) -> Seq<char> {
    "Breakpoint hit at 0x"@ + pad_left(hex_seq(address as nat), '0', 16)
}

/// What the window shows after the event `e`.
pub open spec fn after_event(a: AppView, e: DebugEvent) -> AppView {
    match e {
        DebugEvent::TargetLoaded(path) => AppView {
            loaded_binary: Some(path@),
            attached_target: None,
            attach_error: None,
            status_message: Some("Loaded target: "@ + path@),
            ..a
        },
        DebugEvent::AttachUpdated(result) => if result.attached {
            AppView {
                attached_target: Some(result.target_label@),
                loaded_binary: None,
                attach_error: None,
                status_message: Some(result.message@),
                ..a
            }
        } else {
            AppView { attach_error: result.error, status_message: Some(result.message@), ..a }
        },
        DebugEvent::AttachLifecycleChanged(l) => AppView { attach_lifecycle: l, ..a },
        DebugEvent::AssemblyUpdated(ins) => AppView { instructions: instruction_views(ins@), ..a },
        DebugEvent::BreakpointsChanged(list) => AppView { breakpoints: list@.to_set(), ..a },
        DebugEvent::InstructionPointerChanged(pc) => AppView { current_pc: pc, ..a },
        DebugEvent::RegistersUpdated(regs) => AppView { registers: regs@, ..a },
        DebugEvent::MemoryUpdated { address, bytes } => AppView {
            memory_address: address,
            memory_bytes: bytes@,
            ..a
        },
        DebugEvent::RemoteSessionChanged(status) => AppView { remote_status: status@, ..a },
        DebugEvent::RemoteCommandDispatched(result) => AppView {
            status_message: Some(result.message@),
            ..a
        },
        DebugEvent::StateChanged(state) => AppView { execution_state: state, ..a },
        DebugEvent::BreakpointHit(address) => AppView {
            status_message: Some(breakpoint_hit_message(address)),
            ..a
        },
        DebugEvent::Error(m) => AppView { status_message: Some("Error: "@ + m@), ..a },
    }
}

/// What the window shows after the events `es`, in order.
pub open spec fn after_events(a: AppView, es: Seq<DebugEvent>) -> AppView
    decreases es.len(),
{
    if es.len() == 0 {
        a
    } else {
        after_event(after_events(a, es.drop_last()), es.last())
    }
}

/// The status message after a frame: a degraded remote session is shown
/// unless the message already speaks of the remote.
pub open spec fn degraded_note(a: AppView) -> Option<Seq<char>> {
    if a.remote_status.state == RemoteSessionState::Degraded && match a.status_message {
        Some(m) => !contains_seq(m, "Remote"@),
        None => true,
    } {
        Some("Remote degraded: "@ + a.remote_status.message)
    } else {
        a.status_message
    }
}

/// The command `c` when `b` holds, else none.
pub open spec fn command_if(b: bool, c: DebugCommand) -> Seq<DebugCommand> {
    if b {
        seq![c]
    } else {
        Seq::empty()
    }
}

/// After the window takes in the events that report a snapshot of the
/// engine, it shows the engine's state, program counter, disassembly,
/// breakpoints, registers and memory window, and nothing else changes.
pub proof fn snapshot_events_show_engine_state(a: AppView, v: EngineView, events: Seq<DebugEvent>)
    requires
        reports_snapshot(v, events),
    ensures
        ({
            let b = after_events(a, events);
            &&& b.execution_state == v.state
            &&& b.current_pc == current_pc(v)
            &&& b.instructions == v.code
            &&& b.breakpoints == v.breakpoints
            &&& registers_at(shown_pc(v), b.registers)
            &&& b.memory_address == v.memory_address
            &&& b.memory_bytes == v.memory
            &&& b == (AppView {
                execution_state: b.execution_state,
                current_pc: b.current_pc,
                instructions: b.instructions,
                breakpoints: b.breakpoints,
                registers: b.registers,
                memory_address: b.memory_address,
                memory_bytes: b.memory_bytes,
                ..a
            })
        }),
{
    let e = events;
    assert(e.drop_last().drop_last().drop_last().drop_last().drop_last().drop_last().len() == 0);
    reveal_with_fuel(after_events, 7);
    assert(e.drop_last().last() == e[4]);
    assert(e.drop_last().drop_last().last() == e[3]);
    assert(e.drop_last().drop_last().drop_last().last() == e[2]);
    assert(e.drop_last().drop_last().drop_last().drop_last().last() == e[1]);
    assert(e.drop_last().drop_last().drop_last().drop_last().drop_last().last() == e[0]);
}

/// The load command that a response asks for, if any.
pub open spec fn load_command(o: Option<String>) -> Seq<DebugCommand> {
    match o {
        Some(p) => seq![DebugCommand::LoadBinary(p)],
        None => seq![],
    }
}

/// The attach command that a response asks for, if any.
pub open spec fn attach_command(o: Option<AttachRequest>) -> Seq<DebugCommand> {
    match o {
        Some(q) => seq![DebugCommand::AttachProcess(q)],
        None => seq![],
    }
}

/// The connect command that a response asks for, if any.
pub open spec fn connect_command(o: Option<RemoteConfig>) -> Seq<DebugCommand> {
    match o {
        Some(c) => seq![DebugCommand::ConnectRemote(c)],
        None => seq![],
    }
}

/// The commands that a frame's control-panel response sends, in order:
/// load, attach, step in, step over, continue, pause, read registers,
/// connect, disconnect, read memory (at the current address, a page of
/// bytes) and refresh.
pub open spec fn commands_of(r: ControlPanelResponse, memory_address: u64, page: usize) -> Seq<
    DebugCommand,
> {
    load_command(r.load_binary) + attach_command(r.attach_request) + command_if(
        r.step_in,
        DebugCommand::StepIn,
    ) + command_if(r.step_over, DebugCommand::StepOver) + command_if(
        r.continue_exec,
        DebugCommand::Continue,
    ) + command_if(r.pause_exec, DebugCommand::Pause) + command_if(
        r.read_registers,
        DebugCommand::ReadRegisters,
    ) + connect_command(r.connect_remote) + command_if(
        r.disconnect_remote,
        DebugCommand::DisconnectRemote,
    ) + command_if(r.read_memory, DebugCommand::ReadMemory { address: memory_address, size: page })
        + command_if(r.refresh_state, DebugCommand::RefreshState)
}

fn push_load(cmds: &mut Vec<DebugCommand>, o: Option<String>)
    ensures
        final(cmds)@ == old(cmds)@ + load_command(o),
{
    if let Some(p) = o {
        cmds.push(DebugCommand::LoadBinary(p));
    }
    assert(cmds@ =~= old(cmds)@ + load_command(o));
}

fn push_attach(cmds: &mut Vec<DebugCommand>, o: Option<AttachRequest>)
    ensures
        final(cmds)@ == old(cmds)@ + attach_command(o),
{
    if let Some(q) = o {
        cmds.push(DebugCommand::AttachProcess(q));
    }
    assert(cmds@ =~= old(cmds)@ + attach_command(o));
}

fn push_connect(cmds: &mut Vec<DebugCommand>, o: Option<RemoteConfig>)
    ensures
        final(cmds)@ == old(cmds)@ + connect_command(o),
{
    if let Some(c) = o {
        cmds.push(DebugCommand::ConnectRemote(c));
    }
    assert(cmds@ =~= old(cmds)@ + connect_command(o));
}

fn set_of(list: &Vec<u64>) -> (s: HashSet<u64>)
    ensures
        s@ == list@.to_set(),
{
    let mut s: HashSet<u64> = HashSet::new();
    let mut i: usize = 0;
    while i < list.len()
        invariant
            i <= list@.len(),
            s@ == list@.take(i as int).to_set(),
        decreases list@.len() - i,
    {
        assert(list@.take(i + 1) == list@.take(i as int).push(list@[i as int]));
        assert(list@.take(i as int).push(list@[i as int]).to_set() =~= list@.take(
            i as int,
        ).to_set().insert(list@[i as int])) by {
            broadcast use Seq::lemma_push_to_set_commute;
        }
        s.insert(list[i]);
        i = i + 1;
    }
    assert(list@.take(list@.len() as int) == list@);
    s
}

fn push_flag(cmds: &mut Vec<DebugCommand>, b: bool, c: DebugCommand)
    ensures
        final(cmds)@ == old(cmds)@ + command_if(b, c),
{
    if b {
        cmds.push(c);
    }
    assert(cmds@ =~= old(cmds)@ + command_if(b, c));
}

impl DebuggerApp {
    /// The window before any event: no target, a zeroed 256-byte memory
    /// window at `0x1000`, and a prompt to load a binary.
    pub fn new() -> (app: Self)
        ensures
            app@.loaded_binary is None,
            app@.execution_state == ExecutionState::NoTarget,
            app@.instructions.len() == 0,
            app@.breakpoints.is_empty(),
            app@.current_pc is None,
            app@.registers.len() == 0,
            app@.memory_address == 0x1000,
            app@.memory_bytes == Seq::new(0x100, |i: int| 0u8),
            app@.status_message == Some("Ready. Load a processed binary to start debugging."@),
            app@.attach_lifecycle == SessionLifecycle::Detached,
            app@.attach_error is None,
            app@.attached_target is None,
            app@.remote_status == disconnected_view(),
            app.memory_viewer_state.input() == "0x1000"@,
            app.memory_viewer_state.page() == 0x100,
            app.control_panel_state.attach_mode == AttachMode::Pid,
            app.control_panel_state.pid_input@.len() == 0,
            app.control_panel_state.process_name_input@.len() == 0,
            app.control_panel_state.remote_endpoint@ == default_endpoint(),
            app.control_panel_state.remote_token@.len() == 0,
            app.control_panel_state.remote_timeout_ms@ == decimal_seq(default_timeout_ms() as nat),
            app.control_panel_state.remote_retry_count@ == decimal_seq(
                default_retry_count() as nat,
            ),
    {
        let mut memory_bytes: Vec<u8> = Vec::new();
        while memory_bytes.len() < 0x100
            invariant
                memory_bytes@.len() <= 0x100,
                forall|i: int| 0 <= i < memory_bytes@.len() ==> memory_bytes@[i] == 0u8,
            decreases 0x100 - memory_bytes@.len(),
        {
            memory_bytes.push(0);
        }
        assert(memory_bytes@ =~= Seq::new(0x100, |i: int| 0u8));
        let instructions: Vec<AssemblyInstruction> = Vec::new();
        assert(instruction_views(instructions@) =~= Seq::<InstructionView>::empty());
        DebuggerApp {
            loaded_binary: None,
            execution_state: ExecutionState::NoTarget,
            instructions,
            breakpoints: HashSet::new(),
            current_pc: None,
            registers: Vec::new(),
            memory_address: 0x1000,
            memory_bytes,
            memory_viewer_state: MemoryViewerState::new(),
            control_panel_state: ControlPanelState::default(),
            status_message: Some(
                String::from_str("Ready. Load a processed binary to start debugging."),
            ),
            attach_lifecycle: SessionLifecycle::Detached,
            attach_error: None,
            attached_target: None,
            remote_status: RemoteSessionStatus::disconnected(),
        }
    }

    /// Shows what the event `event` reports.
    pub fn apply_event(&mut self, event: DebugEvent)
        ensures
            final(self)@ == after_event(old(self)@, event),
            final(self).memory_viewer_state == old(self).memory_viewer_state,
            final(self).control_panel_state == old(self).control_panel_state,
    {
        match event {
            DebugEvent::TargetLoaded(path) => {
                self.status_message = Some(concat("Loaded target: ", path.as_str()));
                self.loaded_binary = Some(path);
                self.attached_target = None;
                self.attach_error = None;
            },
            DebugEvent::AttachUpdated(result) => {
                if result.attached {
                    self.attached_target = Some(result.target_label);
                    self.loaded_binary = None;
                    self.attach_error = None;
                } else {
                    self.attach_error = result.error;
                }
                self.status_message = Some(result.message);
            },
            DebugEvent::AttachLifecycleChanged(lifecycle) => {
                self.attach_lifecycle = lifecycle;
            },
            DebugEvent::AssemblyUpdated(instructions) => {
                self.instructions = instructions;
            },
            DebugEvent::BreakpointsChanged(breakpoints) => {
                self.breakpoints = set_of(&breakpoints);
            },
            DebugEvent::InstructionPointerChanged(pc) => {
                self.current_pc = pc;
            },
            DebugEvent::RegistersUpdated(registers) => {
                self.registers = registers;
            },
            DebugEvent::MemoryUpdated { address, bytes } => {
                self.memory_address = address;
                self.memory_bytes = bytes;
            },
            DebugEvent::RemoteSessionChanged(status) => {
                self.remote_status = status;
            },
            DebugEvent::RemoteCommandDispatched(result) => {
                self.status_message = Some(result.message);
            },
            DebugEvent::StateChanged(state) => {
                self.execution_state = state;
            },
            DebugEvent::BreakpointHit(address) => {
                self.status_message = Some(
                    concat("Breakpoint hit at 0x", hex_padded(address as u128, 16).as_str()),
                );
            },
            DebugEvent::Error(message) => {
                self.status_message = Some(concat("Error: ", message.as_str()));
            },
        }
    }

    /// Shows what the events `events` report, in order.
    pub fn apply_events(&mut self, events: Vec<DebugEvent>)
        ensures
            final(self)@ == after_events(old(self)@, events@),
            final(self).memory_viewer_state == old(self).memory_viewer_state,
            final(self).control_panel_state == old(self).control_panel_state,
    {
        let ghost start = self@;
        let ghost all = events@;
        let mut rest = events;
        assert(all.take(0) =~= Seq::<DebugEvent>::empty());
        assert(rest@ =~= all.skip(0));
        while rest.len() > 0
            invariant
                rest@.len() <= all.len(),
                rest@ == all.skip(all.len() - rest@.len()),
                self@ == after_events(start, all.take(all.len() - rest@.len())),
                self.memory_viewer_state == old(self).memory_viewer_state,
                self.control_panel_state == old(self).control_panel_state,
            decreases rest@.len(),
        {
            let ghost k = all.len() - rest@.len();
            let e = rest.remove(0);
            assert(e == all[k]);
            assert(all.take(k + 1).drop_last() =~= all.take(k));
            assert(rest@ =~= all.skip(k + 1));
            self.apply_event(e);
        }
        assert(all.take(all.len() as int) =~= all);
    }

    /// Notes that the debugger core can no longer be reached.
    pub fn core_disconnected(&mut self)
        ensures
            final(self)@ == (AppView {
                status_message: Some("Debugger core disconnected"@),
                ..old(self)@
            }),
            final(self).memory_viewer_state == old(self).memory_viewer_state,
            final(self).control_panel_state == old(self).control_panel_state,
    {
        self.status_message = Some(String::from_str("Debugger core disconnected"));
    }

    /// Shows a degraded remote session in the status message, unless the
    /// message already speaks of the remote.
    pub fn note_remote_degradation(&mut self)
        ensures
            final(self)@ == (AppView { status_message: degraded_note(old(self)@), ..old(self)@ }),
            final(self).memory_viewer_state == old(self).memory_viewer_state,
            final(self).control_panel_state == old(self).control_panel_state,
    {
        if self.remote_status.state == RemoteSessionState::Degraded {
            let mentions_remote = match &self.status_message {
                Some(m) => contains_text(&chars_of(m.as_str()), "Remote"),
                None => false,
            };
            if !mentions_remote {
                self.status_message = Some(
                    concat("Remote degraded: ", self.remote_status.message.as_str()),
                );
            }
        }
    }

    /// The commands that the control panel's response sends this frame.
    pub fn commands_for(&self, response: ControlPanelResponse) -> (cmds: Vec<DebugCommand>)
        ensures
            cmds@ == commands_of(
                response,
                self.memory_address,
                self.memory_viewer_state.page(),
            ),
    {
        let ghost r = response;
        let ControlPanelResponse {
            load_binary,
            attach_request,
            connect_remote,
            disconnect_remote,
            step_in,
            step_over,
            continue_exec,
            pause_exec,
            read_registers,
            read_memory,
            refresh_state,
        } = response;
        let mut cmds: Vec<DebugCommand> = Vec::new();
        assert(cmds@ =~= Seq::<DebugCommand>::empty());
        push_load(&mut cmds, load_binary);
        assert(cmds@ =~= load_command(r.load_binary));
        push_attach(&mut cmds, attach_request);
        push_flag(&mut cmds, step_in, DebugCommand::StepIn);
        push_flag(&mut cmds, step_over, DebugCommand::StepOver);
        push_flag(&mut cmds, continue_exec, DebugCommand::Continue);
        push_flag(&mut cmds, pause_exec, DebugCommand::Pause);
        push_flag(&mut cmds, read_registers, DebugCommand::ReadRegisters);
        push_connect(&mut cmds, connect_remote);
        push_flag(&mut cmds, disconnect_remote, DebugCommand::DisconnectRemote);
        push_flag(
            &mut cmds,
            read_memory,
            DebugCommand::ReadMemory {
                address: self.memory_address,
                size: self.memory_viewer_state.page_size(),
            },
        );
        push_flag(&mut cmds, refresh_state, DebugCommand::RefreshState);
        cmds
    }
}

} // verus!
