//! What the debugger core reports to the user interface.
use vstd::prelude::*;

use crate::debugger::types::SessionLifecycle;
use crate::types::{
    AssemblyInstruction, AttachResult, ExecutionState, RegisterValue, RemoteCommandResult,
    RemoteSessionStatus,
};

verus! {

/// One report from the debugger core.
#[derive(Debug, Clone)]
pub enum DebugEvent {
    TargetLoaded(String),
    AttachUpdated(AttachResult),
    AttachLifecycleChanged(SessionLifecycle),
    AssemblyUpdated(Vec<AssemblyInstruction>),
    BreakpointsChanged(Vec<u64>),
    InstructionPointerChanged(Option<u64>),
    RegistersUpdated(Vec<RegisterValue>),
    MemoryUpdated { address: u64, bytes: Vec<u8> },
    RemoteSessionChanged(RemoteSessionStatus),
    RemoteCommandDispatched(RemoteCommandResult),
    StateChanged(ExecutionState),
    BreakpointHit(u64),
    Error(String),
}

} // verus!
