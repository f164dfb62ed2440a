//! The debugger core: it turns user commands into engine operations and
//! reports the outcome as events, asking its host for what only the host can
//! find out (file contents, running processes, the network).
pub mod engine;
pub mod laws;
pub mod events;
pub mod remote;
pub mod session;
pub mod types;

use std::collections::HashSet;

use vstd::prelude::*;
use vstd::std_specs::hash::group_hash_axioms;

use crate::debugger::engine::{
    ConnectStep, DebugEngine, EngineView, MockLldbEngine, attach_step, connect_attempted, connect_begun,
    connect_retries, continued, loaded, toggled, current_pc, has_target, instruction_views, max_image_len, no_target_message,
    paused, read_memory_step, register_read_failure, registers_at, remote_disconnected,
    shown_pc, stepped,
};
use crate::debugger::events::DebugEvent;
use crate::debugger::remote::xdbg_adapter::{
    RemoteProbe, XdbgRemoteAdapter, dispatch_result, needs_network,
};
use crate::debugger::session::connecting_view;
use crate::debugger::types::{attach_target_label, remote_config_problem};
use crate::text::trim_seq;
use crate::types::{
    CoreError, AttachProbe, AttachRequest, BinaryRead, DebugCommand, RemoteCommand, RemoteConfig,
    disconnected_view,
};

verus! {

broadcast use group_hash_axioms;

/// Whether `b` lists the set `s` in increasing order, each element once.
pub open spec fn lists_in_order(b: Seq<u64>, s: Set<u64>) -> bool {
    &&& forall|i: int, j: int| 0 <= i < j < b.len() ==> b[i] < b[j]
    &&& b.to_set() == s
}

/// Whether `events` report the engine state `v`: its state, program
/// counter, disassembly, breakpoints in increasing order, registers and
/// memory window, in that order.
pub open spec fn reports_snapshot(v: EngineView, events: Seq<DebugEvent>) -> bool {
    &&& events.len() == 6
    &&& events[0] == DebugEvent::StateChanged(v.state)
    &&& events[1] == DebugEvent::InstructionPointerChanged(current_pc(v))
    &&& events[2] is AssemblyUpdated
    &&& instruction_views(events[2]->AssemblyUpdated_0@) == v.code
    &&& events[3] is BreakpointsChanged
    &&& lists_in_order(events[3]->BreakpointsChanged_0@, v.breakpoints)
    &&& events[4] is RegistersUpdated
    &&& registers_at(shown_pc(v), events[4]->RegistersUpdated_0@)
    &&& events[5] is MemoryUpdated
    &&& events[5]->MemoryUpdated_address == v.memory_address
    &&& events[5]->MemoryUpdated_bytes@ == v.memory
}

/// Whether `e` reports an error with message `m`.
pub open spec fn reports_error(e: DebugEvent, m: Seq<char>) -> bool {
    e is Error && e->Error_0@ == m
}

/// Whether `events` report the outcome `res` of an execution-control
/// operation that left the engine at `v`: an error, or (after a breakpoint
/// hit, when `hits` are reported and one occurred) the new state.
pub open spec fn reports_control(
    v: EngineView,
    res: Result<Option<u64>, Seq<char>>,
    hits: bool,
    events: Seq<DebugEvent>,
) -> bool {
    match res {
        Err(m) => events.len() == 1 && reports_error(events[0], m),
        Ok(Some(address)) if hits => {
            &&& events.len() == 7
            &&& events[0] == DebugEvent::BreakpointHit(address)
            &&& reports_snapshot(v, events.skip(1))
        },
        Ok(_) => reports_snapshot(v, events),
    }
}

/// What the core asks its host to do next.
#[derive(Debug, Clone, PartialEq, Eq)]
pub enum CoreAction {
    /// Wait for the next command.
    Idle,
    /// Stop the core.
    Stop,
    /// Read the file at this path, then call `resume_load_binary`.
    ReadBinary(String),
    /// Look for the target of this request, then call `resume_attach`.
    ProbeAttach(AttachRequest),
    /// Try the network where given (endpoint and timeout in milliseconds),
    /// then call `resume_connect`.
    ProbeRemote(Option<(String, u64)>),
    /// Wait this many milliseconds, then do as for `ProbeRemote`.
    RetryConnect { delay_ms: u64, target: Option<(String, u64)> },
}

/// Whether `target` is where connecting with `config` must try the network.
pub open spec fn network_target_of(config: RemoteConfig, target: Option<(String, u64)>) -> bool {
    &&& needs_network(config) <==> target is Some
    &&& target matches Some((endpoint, timeout)) ==> endpoint@ == trim_seq(config.endpoint@)
        && timeout == (if config.timeout_ms < 20 {
        20
    } else {
        config.timeout_ms
    })
}

/// The core's state as plain values.
pub struct CoreView {
    pub engine: EngineView,
    /// Events reported and not yet taken.
    pub events: Seq<DebugEvent>,
    /// The remote session being opened.
    pub pending: Option<RemoteConfig>,
}

/// The events added between two states of the core.
pub open spec fn added(before: CoreView, after: CoreView) -> Seq<DebugEvent> {
    after.events.skip(before.events.len() as int)
}

/// Whether the core only added events between two states.
pub open spec fn kept_events(before: CoreView, after: CoreView) -> bool {
    &&& after.events.len() >= before.events.len()
    &&& after.events.take(before.events.len() as int) == before.events
}

/// The debugger core: an engine and the events it has reported.
pub struct DebuggerCore {
    engine: MockLldbEngine,
    outbox: Vec<DebugEvent>,
    pending_connect: Option<RemoteConfig>,
}

impl View for DebuggerCore {
    type V = CoreView;

    closed spec fn view(&self) -> CoreView {
        CoreView { engine: self.engine@, events: self.outbox@, pending: self.pending_connect }
    }
}


impl DebuggerCore {
    /// A core driving `engine`, having reported the engine's state.
    pub fn new(engine: MockLldbEngine) -> (c: Self)
        ensures
            c@.engine == engine@,
            c@.events == seq![DebugEvent::StateChanged(engine@.state)],
            c@.pending is None,
    {
        let state = engine.snapshot().state;
        let mut outbox: Vec<DebugEvent> = Vec::new();
        outbox.push(DebugEvent::StateChanged(state));
        DebuggerCore { engine, outbox, pending_connect: None }
    }

    /// The engine.
    pub fn engine(&self) -> (e: &MockLldbEngine)
        ensures
            e@ == self@.engine,
    {
        &self.engine
    }

    /// Makes the engine's remote operations time out, or stops doing so
    /// (the host's forced-timeout switch).
    pub fn set_remote_forced_timeout(&mut self, forced: bool)
        ensures
            final(self)@.engine == (EngineView { forced_timeout: forced, ..old(self)@.engine }),
            final(self)@.events == old(self)@.events,
            final(self)@.pending == old(self)@.pending,
    {
        self.engine.set_remote_forced_timeout(forced);
    }

    /// Hands over the events reported so far.
    pub fn take_events(&mut self) -> (events: Vec<DebugEvent>)
        ensures
            events@ == old(self)@.events,
            final(self)@.events.len() == 0,
            final(self)@.engine == old(self)@.engine,
            final(self)@.pending == old(self)@.pending,
    {
        let mut taken: Vec<DebugEvent> = Vec::new();
        std::mem::swap(&mut taken, &mut self.outbox);
        taken
    }

    fn send(&mut self, event: DebugEvent)
        ensures
            final(self)@.events == old(self)@.events.push(event),
            final(self)@.engine == old(self)@.engine,
            final(self)@.pending == old(self)@.pending,
    {
        self.outbox.push(event);
    }

    fn emit_snapshot(&mut self)
        ensures
            final(self)@.engine == old(self)@.engine,
            final(self)@.pending == old(self)@.pending,
            kept_events(old(self)@, final(self)@),
            reports_snapshot(old(self)@.engine, added(old(self)@, final(self)@)),
    {
        let snapshot = self.engine.snapshot();
        let ghost start = self@.events;
        self.send(DebugEvent::StateChanged(snapshot.state));
        self.send(DebugEvent::InstructionPointerChanged(snapshot.current_pc));
        self.send(DebugEvent::AssemblyUpdated(snapshot.instructions));
        let breakpoints = sorted_breakpoints(&snapshot.breakpoints);
        self.send(DebugEvent::BreakpointsChanged(breakpoints));
        self.send(DebugEvent::RegistersUpdated(snapshot.registers));
        self.send(
            DebugEvent::MemoryUpdated {
                address: snapshot.memory.address,
                bytes: snapshot.memory.bytes,
            },
        );
        assert(self@.events.take(start.len() as int) =~= start);
    }

    fn process_step_result(&mut self, step_result: Result<Option<u64>, CoreError>, emit_breakpoint_hit: bool)
        ensures
            final(self)@.engine == old(self)@.engine,
            final(self)@.pending == old(self)@.pending,
            kept_events(old(self)@, final(self)@),
            reports_control(
                old(self)@.engine,
                match step_result {
                    Ok(pc) => Ok(pc),
                    Err(e) => Err(e.message@),
                },
                emit_breakpoint_hit,
                added(old(self)@, final(self)@),
            ),
    {
        let ghost start = self@.events;
        match step_result {
            Ok(hit_address) => {
                if emit_breakpoint_hit {
                    if let Some(address) = hit_address {
                        self.send(DebugEvent::BreakpointHit(address));
                    }
                }
                let ghost mid = self@;
                self.emit_snapshot();
                assert(added(old(self)@, self@) =~= added(old(self)@, mid) + added(mid, self@));
            },
            Err(error) => self.send(DebugEvent::Error(error.message)),
        }
        assert(self@.events.take(start.len() as int) =~= start);
    }
}


impl DebuggerCore {
    /// Carries out one command. Commands that need the host (loading a
    /// file, attaching, connecting) are answered by an action; the host
    /// resumes the core with what it found.
    pub fn handle_command(&mut self, command: DebugCommand) -> (action: CoreAction)
        ensures
            kept_events(old(self)@, final(self)@),
            match command {
                DebugCommand::LoadBinary(path) => {
                    &&& action == CoreAction::ReadBinary(path)
                    &&& final(self)@ == old(self)@
                },
                DebugCommand::AttachProcess(request) => {
                    &&& action == CoreAction::ProbeAttach(request)
                    &&& final(self)@ == old(self)@
                },
                DebugCommand::ConnectRemote(config) => match remote_config_problem(config) {
                    Some(p) => {
                        &&& action == CoreAction::Idle
                        &&& final(self)@.engine == old(self)@.engine
                        &&& final(self)@.pending == old(self)@.pending
                        &&& added(old(self)@, final(self)@).len() == 1
                        &&& reports_error(
                            added(old(self)@, final(self)@)[0],
                            "Invalid remote config: "@ + p,
                        )
                    },
                    None => {
                        &&& action is ProbeRemote
                        &&& network_target_of(config, action->ProbeRemote_0)
                        &&& final(self)@.engine == connect_begun(old(self)@.engine, config)
                        &&& final(self)@.pending == Some(config)
                        &&& added(old(self)@, final(self)@).len() == 1
                        &&& added(old(self)@, final(self)@)[0] is RemoteSessionChanged
                        &&& added(old(self)@, final(self)@)[0]->RemoteSessionChanged_0@
                            == connecting_view(config.endpoint@)
                    },
                },
                DebugCommand::DisconnectRemote => {
                    &&& action == CoreAction::Idle
                    &&& final(self)@.engine == remote_disconnected(old(self)@.engine)
                    &&& final(self)@.pending is None
                    &&& added(old(self)@, final(self)@).len() == 7
                    &&& added(old(self)@, final(self)@)[0] is RemoteSessionChanged
                    &&& added(old(self)@, final(self)@)[0]->RemoteSessionChanged_0@
                        == disconnected_view()
                    &&& reports_snapshot(
                        final(self)@.engine,
                        added(old(self)@, final(self)@).skip(1),
                    )
                },
                DebugCommand::StepIn | DebugCommand::StepOver => {
                    &&& action == CoreAction::Idle
                    &&& final(self)@.engine == stepped(old(self)@.engine).0
                    &&& final(self)@.pending == old(self)@.pending
                    &&& reports_control(
                        final(self)@.engine,
                        stepped(old(self)@.engine).1,
                        false,
                        added(old(self)@, final(self)@),
                    )
                },
                DebugCommand::Continue => {
                    &&& action == CoreAction::Idle
                    &&& final(self)@.engine == continued(old(self)@.engine).0
                    &&& final(self)@.pending == old(self)@.pending
                    &&& reports_control(
                        final(self)@.engine,
                        continued(old(self)@.engine).1,
                        true,
                        added(old(self)@, final(self)@),
                    )
                },
                DebugCommand::Pause => {
                    &&& action == CoreAction::Idle
                    &&& final(self)@.engine == paused(old(self)@.engine).0
                    &&& final(self)@.pending == old(self)@.pending
                    &&& reports_control(
                        final(self)@.engine,
                        paused(old(self)@.engine).1,
                        false,
                        added(old(self)@, final(self)@),
                    )
                },
                DebugCommand::ReadRegisters => {
                    let v = old(self)@.engine;
                    let e = added(old(self)@, final(self)@);
                    &&& action == CoreAction::Idle
                    &&& final(self)@.engine == v
                    &&& final(self)@.pending == old(self)@.pending
                    &&& e.len() == 1
                    &&& if !has_target(v) {
                        reports_error(e[0], no_target_message())
                    } else if v.remote && dispatch_result(
                        v.link_session is Some,
                        v.forced_timeout,
                        RemoteCommand::ReadRegisters,
                    ) is Err {
                        reports_error(
                            e[0],
                            register_read_failure(
                                dispatch_result(
                                    v.link_session is Some,
                                    v.forced_timeout,
                                    RemoteCommand::ReadRegisters,
                                )->Err_0.1,
                            ),
                        )
                    } else {
                        e[0] is RegistersUpdated && registers_at(
                            shown_pc(v),
                            e[0]->RegistersUpdated_0@,
                        )
                    }
                },
                DebugCommand::ToggleBreakpoint(address) => {
                    let v = old(self)@.engine;
                    let e = added(old(self)@, final(self)@);
                    &&& action == CoreAction::Idle
                    &&& final(self)@.pending == old(self)@.pending
                    &&& final(self)@.engine == toggled(v, address)
                    &&& if has_target(v) {
                        reports_snapshot(final(self)@.engine, e)
                    } else {
                        &&& e.len() == 1
                        &&& reports_error(e[0], no_target_message())
                    }
                },
                DebugCommand::RefreshState => {
                    &&& action == CoreAction::Idle
                    &&& final(self)@.engine == old(self)@.engine
                    &&& final(self)@.pending == old(self)@.pending
                    &&& reports_snapshot(old(self)@.engine, added(old(self)@, final(self)@))
                },
                DebugCommand::ReadMemory { address, size } => {
                    let step = read_memory_step(old(self)@.engine, address, size as nat);
                    let e = added(old(self)@, final(self)@);
                    &&& action == CoreAction::Idle
                    &&& final(self)@.engine == step.0
                    &&& final(self)@.pending == old(self)@.pending
                    &&& e.len() == 1
                    &&& match step.1 {
                        Ok(bytes) => e[0] is MemoryUpdated && e[0]->MemoryUpdated_address
                            == address && e[0]->MemoryUpdated_bytes@ == bytes,
                        Err(m) => reports_error(e[0], m),
                    }
                },
                DebugCommand::Stop => {
                    &&& action == CoreAction::Stop
                    &&& final(self)@ == old(self)@
                },
            },
    {
        let ghost start = self@.events;
        let action = match command {
            DebugCommand::LoadBinary(path) => CoreAction::ReadBinary(path),
            DebugCommand::AttachProcess(request) => CoreAction::ProbeAttach(request),
            DebugCommand::ConnectRemote(config) => {
                let target = XdbgRemoteAdapter::network_target(&config);
                match self.engine.begin_connect_remote(config.clone()) {
                    Ok(()) => {
                        self.pending_connect = Some(config);
                        let status = self.engine.remote_session_status();
                        self.send(DebugEvent::RemoteSessionChanged(status));
                        CoreAction::ProbeRemote(target)
                    },
                    Err(error) => {
                        self.send(DebugEvent::Error(error.message));
                        CoreAction::Idle
                    },
                }
            },
            DebugCommand::DisconnectRemote => {
                self.engine.disconnect_remote();
                self.pending_connect = None;
                let status = self.engine.remote_session_status();
                self.send(DebugEvent::RemoteSessionChanged(status));
                let ghost mid = self@;
                self.emit_snapshot();
                assert(added(old(self)@, self@).skip(1) =~= added(mid, self@));
                assert(self@.events.take(mid.events.len() as int)[old(self)@.events.len() as int]
                    == mid.events[old(self)@.events.len() as int]);
                CoreAction::Idle
            },
            DebugCommand::StepIn => {
                let result = self.engine.step_in();
                self.process_step_result(result, false);
                CoreAction::Idle
            },
            DebugCommand::StepOver => {
                let result = self.engine.step_over();
                self.process_step_result(result, false);
                CoreAction::Idle
            },
            DebugCommand::Continue => {
                let result = self.engine.continue_exec();
                self.process_step_result(result, true);
                CoreAction::Idle
            },
            DebugCommand::Pause => {
                let result = self.engine.pause_exec();
                self.process_step_result(result, false);
                CoreAction::Idle
            },
            DebugCommand::ReadRegisters => {
                match self.engine.read_registers() {
                    Ok(registers) => self.send(DebugEvent::RegistersUpdated(registers)),
                    Err(error) => self.send(DebugEvent::Error(error.message)),
                }
                CoreAction::Idle
            },
            DebugCommand::ToggleBreakpoint(address) => {
                match self.engine.toggle_breakpoint(address) {
                    Ok(()) => self.emit_snapshot(),
                    Err(error) => self.send(DebugEvent::Error(error.message)),
                }
                CoreAction::Idle
            },
            DebugCommand::RefreshState => {
                self.emit_snapshot();
                CoreAction::Idle
            },
            DebugCommand::ReadMemory { address, size } => {
                match self.engine.read_memory(address, size) {
                    Ok(memory) => self.send(
                        DebugEvent::MemoryUpdated { address: memory.address, bytes: memory.bytes },
                    ),
                    Err(error) => self.send(DebugEvent::Error(error.message)),
                }
                CoreAction::Idle
            },
            DebugCommand::Stop => CoreAction::Stop,
        };
        assert(self@.events.take(start.len() as int) =~= start);
        action
    }
}

impl DebuggerCore {
    /// Finishes loading the binary at `path`, given what the host read
    /// there: on success the target is reported loaded, then the new state;
    /// otherwise the error.
    pub fn resume_load_binary(&mut self, path: String, read: BinaryRead) -> (action: CoreAction)
        requires
            read matches BinaryRead::Contents(b) ==> b@.len() <= max_image_len(),
        ensures
            action == CoreAction::Idle,
            kept_events(old(self)@, final(self)@),
            final(self)@.pending == old(self)@.pending,
            match read {
                BinaryRead::Missing => {
                    &&& final(self)@.engine == old(self)@.engine
                    &&& added(old(self)@, final(self)@).len() == 1
                    &&& reports_error(
                        added(old(self)@, final(self)@)[0],
                        "Binary does not exist: "@ + path@,
                    )
                },
                BinaryRead::Unreadable(e) => {
                    &&& final(self)@.engine == old(self)@.engine
                    &&& added(old(self)@, final(self)@).len() == 1
                    &&& reports_error(
                        added(old(self)@, final(self)@)[0],
                        "Failed to read binary: "@ + e@,
                    )
                },
                BinaryRead::Contents(bytes) => {
                    &&& final(self)@.engine == loaded(old(self)@.engine, path@, bytes@)
                    &&& added(old(self)@, final(self)@).len() == 7
                    &&& added(old(self)@, final(self)@)[0] == DebugEvent::TargetLoaded(path)
                    &&& reports_snapshot(
                        final(self)@.engine,
                        added(old(self)@, final(self)@).skip(1),
                    )
                },
            },
    {
        let ghost start = self@.events;
        match self.engine.load_binary(path.clone(), read) {
            Ok(()) => {
                self.send(DebugEvent::TargetLoaded(path));
                let ghost mid = self@;
                self.emit_snapshot();
                assert(added(old(self)@, self@).skip(1) =~= added(mid, self@));
                assert(self@.events.take(mid.events.len() as int)[start.len() as int]
                    == mid.events[start.len() as int]);
            },
            Err(error) => self.send(DebugEvent::Error(error.message)),
        }
        assert(self@.events.take(start.len() as int) =~= start);
        CoreAction::Idle
    }

    /// Finishes an attach request, given what the host found: the result
    /// and the new lifecycle phase are reported, then, when the process was
    /// attached, the new state.
    pub fn resume_attach(&mut self, request: AttachRequest, probe: &AttachProbe) -> (action:
        CoreAction)
        ensures
            action == CoreAction::Idle,
            kept_events(old(self)@, final(self)@),
            final(self)@.pending == old(self)@.pending,
            ({
                let step = attach_step(old(self)@.engine, request, *probe);
                let e = added(old(self)@, final(self)@);
                &&& final(self)@.engine == step.0
                &&& e[0] is AttachUpdated
                &&& e[0]->AttachUpdated_0.attached == step.1
                &&& e[0]->AttachUpdated_0.error == step.2
                &&& e[0]->AttachUpdated_0.message@ == step.3
                &&& e[0]->AttachUpdated_0.target_label@ == attach_target_label(request.target)
                &&& e[1] == DebugEvent::AttachLifecycleChanged(step.0.phase)
                &&& if step.1 {
                    &&& e.len() == 8
                    &&& reports_snapshot(step.0, e.skip(2))
                } else {
                    e.len() == 2
                }
            }),
    {
        let ghost start = self@.events;
        let result = self.engine.attach_process(request, probe);
        match result {
            Ok(outcome) => {
                let attached = outcome.attached;
                self.send(DebugEvent::AttachUpdated(outcome));
                let phase = self.engine.attach_lifecycle();
                self.send(DebugEvent::AttachLifecycleChanged(phase));
                if attached {
                    let ghost mid = self@;
                    self.emit_snapshot();
                    assert(added(old(self)@, self@).skip(2) =~= added(mid, self@));
                    assert(self@.events.take(mid.events.len() as int)[start.len() as int]
                        == mid.events[start.len() as int]);
                    assert(self@.events.take(mid.events.len() as int)[start.len() + 1int]
                        == mid.events[start.len() + 1int]);
                }
            },
            Err(error) => self.send(DebugEvent::Error(error.message)),
        }
        assert(self@.events.take(start.len() as int) =~= start);
        CoreAction::Idle
    }

    /// Makes one attempt to open the pending remote session, given what the
    /// host found on the network. The new status is reported; while attempts
    /// fail with retries left the host is asked to wait and try again,
    /// otherwise the session has settled and the new state is reported.
    /// Without a pending session nothing happens.
    pub fn resume_connect(&mut self, probe: &RemoteProbe) -> (action: CoreAction)
        ensures
            kept_events(old(self)@, final(self)@),
            match old(self)@.pending {
                None => action == CoreAction::Idle && final(self)@ == old(self)@,
                Some(config) => {
                    let v = old(self)@.engine;
                    let w = connect_attempted(v, config, *probe);
                    let e = added(old(self)@, final(self)@);
                    &&& final(self)@.engine == w
                    &&& e[0] is RemoteSessionChanged
                    &&& e[0]->RemoteSessionChanged_0@ == w.status
                    &&& if connect_retries(v, config, *probe) {
                        &&& action is RetryConnect
                        &&& action->delay_ms == v.retry_delay_ms
                        &&& network_target_of(config, action->target)
                        &&& final(self)@.pending == Some(config)
                        &&& e.len() == 1
                    } else {
                        &&& action == CoreAction::Idle
                        &&& final(self)@.pending is None
                        &&& e.len() == 7
                        &&& reports_snapshot(w, e.skip(1))
                    }
                },
            },
    {
        let ghost start = self@.events;
        let config = match &self.pending_connect {
            Some(c) => c.clone(),
            None => {
                assert(self@.events.take(start.len() as int) =~= start);
                return CoreAction::Idle;
            },
        };
        let action = match self.engine.connect_remote_attempt(&config, probe) {
            ConnectStep::RetryAfter(delay_ms) => {
                let status = self.engine.remote_session_status();
                self.send(DebugEvent::RemoteSessionChanged(status));
                CoreAction::RetryConnect {
                    delay_ms,
                    target: XdbgRemoteAdapter::network_target(&config),
                }
            },
            ConnectStep::Finished(status) => {
                self.pending_connect = None;
                self.send(DebugEvent::RemoteSessionChanged(status));
                let ghost mid = self@;
                self.emit_snapshot();
                assert(added(old(self)@, self@).skip(1) =~= added(mid, self@));
                assert(self@.events.take(mid.events.len() as int)[start.len() as int]
                    == mid.events[start.len() as int]);
                CoreAction::Idle
            },
        };
        assert(self@.events.take(start.len() as int) =~= start);
        action
    }
}

fn sorted_breakpoints(set: &HashSet<u64>) -> (b: Vec<u64>)
    ensures
        lists_in_order(b@, set@),
{
    let mut b: Vec<u64> = Vec::new();
    for k in it: set.iter()
        invariant
            it.seq().unref().to_set() == set@,
            it.seq().unref().no_duplicates(),
            forall|i: int, j: int| 0 <= i < j < b@.len() ==> b@[i] < b@[j],
            b@.to_set() == it.seq().take(it.index()).unref().to_set(),
            it.index() == it.seq().len() ==> b@.to_set() == set@,
    {
        let x = *k;
        assert(!it.seq().take(it.index()).unref().contains(x)) by {
            if it.seq().take(it.index()).unref().contains(x) {
                let j = choose|j: int| 0 <= j < it.index() && it.seq().take(it.index()).unref()[j]
                    == x;
                assert(it.seq().unref()[j] == it.seq().unref()[it.index()]);
            }
        }
        let mut pos: usize = 0;
        while pos < b.len() && b[pos] < x
            invariant
                pos <= b@.len(),
                forall|i: int| 0 <= i < pos ==> b@[i] < x,
            decreases b@.len() - pos,
        {
            pos = pos + 1;
        }
        let ghost before = b@;
        assert(!before.to_set().contains(x));
        assert(pos < before.len() ==> before[pos as int] != x);
        b.insert(pos, x);
        assert forall|i: int, j: int| 0 <= i < j < b@.len() implies b@[i] < b@[j] by {
            if j < pos {
            } else if j == pos {
            } else if i < pos {
                assert(before[j - 1] > x || before[j - 1] == x);
                assert(before[j - 1] >= before[pos as int]);
            } else if i == pos {
                assert(before[j - 1] >= before[pos as int]);
            } else {
            }
        }
        assert forall|y: u64| #[trigger] b@.contains(y) == (before.contains(y) || y == x) by {
            if b@.contains(y) {
                let i = choose|i: int| 0 <= i < b@.len() && b@[i] == y;
                if i < pos {
                    assert(before[i] == y);
                } else if i > pos {
                    assert(before[i - 1] == y);
                }
            }
            if before.contains(y) {
                let i = choose|i: int| 0 <= i < before.len() && before[i] == y;
                if i < pos {
                    assert(b@[i] == y);
                } else {
                    assert(b@[i + 1] == y);
                }
            }
            if y == x {
                assert(b@[pos as int] == x);
            }
        }
        assert(b@.to_set() =~= before.to_set().insert(x));
        assert(it.seq().take(it.index() + 1).unref() =~= it.seq().take(it.index()).unref().push(x));
        assert(it.seq().take(it.index()).unref().push(x).to_set() =~= it.seq().take(
            it.index(),
        ).unref().to_set().insert(x)) by {
            broadcast use Seq::lemma_push_to_set_commute;
        }
        assert(it.seq().take(it.seq().len() as int) =~= it.seq());
    }
    b
}

} // verus!
