//! The debugging engine: a simulated target whose disassembly, registers and
//! memory are derived from the loaded bytes, driven locally or through the
//! x64dbg remote protocol.
use std::collections::HashSet;

use vstd::prelude::*;
use vstd::std_specs::hash::group_hash_axioms;

use crate::debugger::remote::xdbg_adapter::{
    RemoteProbe, XdbgRemoteAdapter, connect_result, dispatch_result,
    session_id_text,
};
use crate::debugger::session::{
    LldbSession, RemoteSessionManager, attach_permitted, connected_view, connecting_view,
    degraded_view, has_attach_permission, permission_denied_message,
};
use crate::debugger::types::{
    SessionLifecycle, attach_target_label, attach_target_plausible, describe_attach_target,
    remote_config_problem, remote_error_kind_of, transition_allowed, validate_attach_request,
    validate_remote_config, classify_remote_error,
};
use vstd::utf8::encode_utf8;
use crate::text::{
    ascii_lower_chars, ascii_lower_seq, ascii_lower_vec, chars_of, concat, contains_seq,
    contains_text, contains_vec, decimal_seq, is_blank, is_blank_str, decimal_string, hex_seq, hex_string,
    trim_bounds, trim_seq, sub_vec,
};
use crate::types::{
    AssemblyInstruction, AttachErrorKind, AttachProbe, AttachRequest, AttachResult, AttachTarget,
    BinaryRead, CoreError, DebuggerSnapshot, ExecutionState, InstructionView, MemorySnapshot,
    RegisterValue,
    RemoteCommand, RemoteConfig, RemoteSessionStatus, StatusView, disconnected_view, opt_text,
};

verus! {

broadcast use group_hash_axioms;

/// The address of the first instruction of every target.
pub open spec fn base_address_value() -> u64 {
    0x1000
}

/// The sum of the bytes of `s`.
pub open spec fn byte_sum(s: Seq<u8>) -> nat
    decreases s.len(),
{
    if s.len() == 0 {
        0
    } else {
        byte_sum(s.drop_last()) + (s.last() as nat)
    }
}

/// The number of 4-byte chunks (the last one possibly shorter) in `n` bytes.
pub open spec fn chunk_count(n: nat) -> nat {
    (n + 3) / 4
}

/// The bytes of chunk `i` of `bytes`.
pub open spec fn chunk(bytes: Seq<u8>, i: int) -> Seq<u8> {
    let end = if 4 * i + 4 <= bytes.len() {
        4 * i + 4
    } else {
        bytes.len() as int
    };
    bytes.subrange(4 * i, end)
}

/// The seed of chunk `i`: the sum of its bytes.
pub open spec fn chunk_seed(bytes: Seq<u8>, i: int) -> nat {
    byte_sum(chunk(bytes, i))
}

/// The mnemonic shown for a chunk with the given seed.
pub open spec fn mnemonic_of(seed: nat) -> Seq<char> {
    let k = seed % 8;
    if k == 0 {
        "stp"@
    } else if k == 1 {
        "ldr"@
    } else if k == 2 {
        "str"@
    } else if k == 3 {
        "mov"@
    } else if k == 4 {
        "bl"@
    } else if k == 5 {
        "cmp"@
    } else if k == 6 {
        "b.ne"@
    } else {
        "ret"@
    }
}

/// The operands shown for a chunk with the given seed:
/// `x<seed % 29>, #0x<seed % 0x200 in hex>`.
pub open spec fn operands_of(seed: nat) -> Seq<char> {
    "x"@ + decimal_seq(seed % 29) + ", #0x"@ + hex_seq(seed % 0x200)
}

/// The disassembly of `bytes`: one instruction per 4-byte chunk, at
/// consecutive 4-byte addresses from the base address, named and given
/// operands by the chunk's seed.
pub open spec fn disassembly_of(bytes: Seq<u8>) -> Seq<InstructionView> {
    Seq::new(
        chunk_count(bytes.len()),
        |i: int|
            InstructionView {
                address: (base_address_value() + 4 * i) as u64,
                mnemonic: mnemonic_of(chunk_seed(bytes, i)),
                operands: operands_of(chunk_seed(bytes, i)),
            },
    )
}

/// The plain values of a list of instructions.
pub open spec fn instruction_views(ins: Seq<AssemblyInstruction>) -> Seq<InstructionView> {
    ins.map_values(|i: AssemblyInstruction| i@)
}

/// The largest image, in bytes, whose disassembly addresses fit in 64 bits.
pub const MAX_IMAGE_LEN: u64 = 0x7fff_ffff_ffff_ffff;

/// The largest image, in bytes, whose disassembly addresses fit in 64 bits.
pub open spec fn max_image_len() -> nat {
    MAX_IMAGE_LEN as nat
}

/// The name of register `i` of the 33 general registers: `x0`..`x28`, then
/// `fp`, `lr`, `sp` and `pc`.
pub open spec fn register_name(i: int) -> Seq<char> {
    if i < 29 {
        "x"@ + decimal_seq(i as nat)
    } else if i == 29 {
        "fp"@
    } else if i == 30 {
        "lr"@
    } else if i == 31 {
        "sp"@
    } else {
        "pc"@
    }
}

/// Whether `regs` are the registers shown when the program counter is `pc`:
/// `pc` holds `pc`, and register `i` otherwise holds `pc + 16 * i` (wrapping).
pub open spec fn registers_at(pc: u64, regs: Seq<RegisterValue>) -> bool {
    &&& regs.len() == 33
    &&& forall|i: int|
        0 <= i < 33 ==> {
            &&& (#[trigger] regs[i]).name@ == register_name(i)
            &&& regs[i].value == (if i == 32 {
                pc
            } else if pc + 16 * i > u64::MAX {
                (pc + 16 * i - 0x1_0000_0000_0000_0000) as u64
            } else {
                (pc + 16 * i) as u64
            })
        }
}

/// The bytes read from the image `bytes` for `size` bytes at `address`: the
/// image starts at the base address, and reads outside it give zeros.
pub open spec fn memory_window(bytes: Seq<u8>, address: u64, size: nat) -> Seq<u8> {
    let offset: int = if address >= base_address_value() {
        address - base_address_value()
    } else {
        0
    };
    Seq::new(
        size,
        |i: int|
            if offset + i < bytes.len() {
                bytes[offset + i]
            } else {
                0u8
            },
    )
}

/// The bytes stand-in for a target that has no image: the label's bytes,
/// repeated to 64 bytes (or 64 no-op bytes for an empty label).
pub open spec fn seed_bytes(label: Seq<u8>) -> Seq<u8> {
    if label.len() == 0 {
        Seq::new(64, |i: int| 0x90u8)
    } else {
        Seq::new(64, |i: int| label[i % (label.len() as int)])
    }
}

fn base_address() -> (r: u64)
    ensures
        r == base_address_value(),
{
    0x1000
}

fn mnemonic_string(seed: usize) -> (s: String)
    ensures
        s@ == mnemonic_of(seed as nat),
{
    let k = seed % 8;
    if k == 0 {
        String::from_str("stp")
    } else if k == 1 {
        String::from_str("ldr")
    } else if k == 2 {
        String::from_str("str")
    } else if k == 3 {
        String::from_str("mov")
    } else if k == 4 {
        String::from_str("bl")
    } else if k == 5 {
        String::from_str("cmp")
    } else if k == 6 {
        String::from_str("b.ne")
    } else {
        String::from_str("ret")
    }
}

fn operands_string(seed: usize) -> (s: String)
    ensures
        s@ == operands_of(seed as nat),
{
    let mut s = concat("x", decimal_string((seed % 29) as u128).as_str());
    s.append(", #0x");
    s.append(hex_string((seed % 0x200) as u128).as_str());
    s
}

fn chunk_sum(bytes: &Vec<u8>, start: usize) -> (seed: usize)
    requires
        start < bytes@.len(),
    ensures
        seed as nat == byte_sum(
            bytes@.subrange(
                start as int,
                if start + 4 <= bytes@.len() {
                    start + 4
                } else {
                    bytes@.len() as int
                },
            ),
        ),
        seed <= 4 * 255,
{
    let end = if bytes.len() - start >= 4 {
        start + 4
    } else {
        bytes.len()
    };
    let mut seed: usize = 0;
    let mut k = start;
    while k < end
        invariant
            start <= k <= end <= bytes@.len(),
            end - start <= 4,
            end == (if start + 4 <= bytes@.len() {
                start + 4
            } else {
                bytes@.len() as int
            }),
            seed as nat == byte_sum(bytes@.subrange(start as int, k as int)),
            seed <= 255 * (k - start),
        decreases end - k,
    {
        assert(bytes@.subrange(start as int, k + 1).drop_last() == bytes@.subrange(
            start as int,
            k as int,
        ));
        seed = seed + bytes[k] as usize;
        k = k + 1;
    }
    seed
}

/// The disassembly of `binary_bytes`.
fn decode_disassembly(binary_bytes: &Vec<u8>) -> (ins: Vec<AssemblyInstruction>)
    requires
        binary_bytes@.len() <= max_image_len(),
    ensures
        instruction_views(ins@) == disassembly_of(binary_bytes@),
{
    let n = binary_bytes.len();
    let count = n / 4 + if n % 4 != 0 {
        1
    } else {
        0
    };
    assert(count == chunk_count(n as nat));
    let mut ins: Vec<AssemblyInstruction> = Vec::new();
    let mut idx: usize = 0;
    while idx < count
        invariant
            n == binary_bytes@.len() <= max_image_len(),
            count == chunk_count(n as nat),
            idx == ins@.len() <= count,
            forall|i: int|
                0 <= i < ins@.len() ==> {
                    &&& (#[trigger] ins@[i]).address == base_address_value() + 4 * i
                    &&& ins@[i].mnemonic@ == mnemonic_of(chunk_seed(binary_bytes@, i))
                    &&& ins@[i].operands@ == operands_of(chunk_seed(binary_bytes@, i))
                },
        decreases count - idx,
    {
        let pos = 4 * idx;
        let seed = chunk_sum(binary_bytes, pos);
        assert(chunk_seed(binary_bytes@, idx as int) == seed as nat);
        let address: u64 = 0x1000 + (pos as u64);
        ins.push(
            AssemblyInstruction {
                address,
                mnemonic: mnemonic_string(seed),
                operands: operands_string(seed),
            },
        );
        idx = idx + 1;
    }
    assert(instruction_views(ins@) =~= disassembly_of(binary_bytes@));
    ins
}

/// Where the engine sends debugger operations.
#[derive(Debug, Clone, Copy, PartialEq, Eq, Structural)]
enum EngineBackend {
    Local,
    Remote,
}

/// The engine's state as plain values.
#[verifier::ext_equal]
pub struct EngineView {
    /// The target path that the LLDB session holds.
    pub session_target: Option<Seq<char>>,
    /// The process label that the LLDB session holds.
    pub session_attached: Option<Seq<char>>,
    /// The attach lifecycle phase of the LLDB session.
    pub phase: SessionLifecycle,
    /// The remote session status.
    pub status: StatusView,
    /// Reconnection attempts left.
    pub retries_left: u8,
    /// The pause between reconnection attempts, in milliseconds.
    pub retry_delay_ms: u64,
    /// The endpoint of the open remote connection.
    pub link_endpoint: Option<Seq<char>>,
    /// The session id of the open remote connection.
    pub link_session: Option<Seq<char>>,
    /// Whether remote operations are made to time out.
    pub forced_timeout: bool,
    /// The configuration of the remote session being used.
    pub remote_config: Option<RemoteConfig>,
    /// Whether operations go through the remote backend.
    pub remote: bool,
    /// The loaded binary.
    pub binary_path: Option<Seq<char>>,
    /// The label of the attached process or remote endpoint.
    pub attached_label: Option<Seq<char>>,
    /// The target's image, from which disassembly and memory are derived.
    pub image: Seq<u8>,
    /// The disassembly shown.
    pub code: Seq<InstructionView>,
    /// Breakpoint addresses.
    pub breakpoints: Set<u64>,
    /// The index in `code` of the current instruction.
    pub pc_index: nat,
    pub state: ExecutionState,
    /// The address of the memory window shown.
    pub memory_address: u64,
    /// The bytes of the memory window shown.
    pub memory: Seq<u8>,
}

/// Whether the engine has a target: a loaded binary or an attached process.
pub open spec fn has_target(v: EngineView) -> bool {
    v.binary_path is Some || v.attached_label is Some
}

/// The address of the current instruction, if there is one.
pub open spec fn current_pc(v: EngineView) -> Option<u64> {
    if v.pc_index < v.code.len() {
        Some(v.code[v.pc_index as int].address)
    } else {
        None
    }
}

/// The message of an operation that needs a target when there is none.
pub open spec fn no_target_message() -> Seq<char> {
    "No binary loaded"@
}

/// The session id reported after a successful remote command.
pub open spec fn acknowledged_session(link_session: Option<Seq<char>>) -> Seq<char> {
    match link_session {
        Some(id) => id,
        None => "xdbg-session"@,
    }
}

/// Whether sending `command` to the remote succeeds, or its failure message.
pub open spec fn dispatch_outcome(v: EngineView, command: RemoteCommand) -> Result<(), Seq<char>> {
    match v.remote_config {
        None => Err("Remote config is unavailable"@),
        Some(cfg) => match dispatch_result(v.link_session is Some, v.forced_timeout, command) {
            Ok(_) => Ok(()),
            Err((kind, message)) => Err(message),
        },
    }
}

/// The engine after sending `command` to the remote: on success the session
/// is marked connected and the target runs (for `Continue`) or is paused;
/// on failure the session is degraded and the engine falls back to the local
/// backend.
pub open spec fn after_dispatch(v: EngineView, command: RemoteCommand) -> EngineView {
    match v.remote_config {
        None => v,
        Some(cfg) => match dispatch_result(v.link_session is Some, v.forced_timeout, command) {
            Ok(_) => EngineView {
                status: connected_view(cfg.endpoint@, acknowledged_session(v.link_session)),
                retries_left: cfg.retry_count,
                state: if command == RemoteCommand::Continue {
                    ExecutionState::Running
                } else {
                    ExecutionState::Paused
                },
                ..v
            },
            Err((kind, message)) => EngineView {
                status: degraded_view(cfg.endpoint@, kind, message),
                remote: false,
                ..v
            },
        },
    }
}

/// The engine after toggling the breakpoint at `address`: set when absent,
/// removed when present; nothing changes without a target.
pub open spec fn toggled(v: EngineView, address: u64) -> EngineView {
    if has_target(v) {
        EngineView {
            breakpoints: if v.breakpoints.contains(address) {
                v.breakpoints.remove(address)
            } else {
                v.breakpoints.insert(address)
            },
            ..v
        }
    } else {
        v
    }
}

/// The engine after reading `size` bytes at `address`, and the bytes read or
/// the failure message.
pub open spec fn read_memory_step(v: EngineView, address: u64, size: nat) -> (EngineView, Result<
    Seq<u8>,
    Seq<char>,
>) {
    let command = RemoteCommand::ReadMemory { address, size: size as usize };
    if !has_target(v) {
        (v, Err(no_target_message()))
    } else if v.remote {
        match dispatch_outcome(v, command) {
            Err(m) => (after_dispatch(v, command), Err(m)),
            Ok(_) => (after_dispatch(v, command), Ok(memory_window(v.image, address, size))),
        }
    } else {
        (v, Ok(memory_window(v.image, address, size)))
    }
}

/// The engine after refreshing the memory window: 256 bytes at the current
/// instruction (or the base address), empty when the read fails. On the
/// remote backend the refresh is itself a remote read, and an acknowledged
/// read leaves the target shown as paused; so after a step or a continue
/// that ends the program, a remote target shows `Paused` rather than
/// `Exited`, and a remote continue shows `Paused` rather than `Running`.
/// This is deliberate: the remote target is stopped whenever the debugger
/// has just read its memory.
pub open spec fn refreshed(v: EngineView) -> EngineView {
    let address = match current_pc(v) {
        Some(pc) => pc,
        None => base_address_value(),
    };
    let (w, r) = read_memory_step(v, address, 0x100);
    EngineView {
        memory_address: address,
        memory: match r {
            Ok(bytes) => bytes,
            Err(_) => Seq::empty(),
        },
        ..w
    }
}

/// The engine after moving to the next instruction, and that instruction's
/// address; at the last instruction (or with none) the target exits instead.
pub open spec fn advanced(v: EngineView) -> (EngineView, Option<u64>) {
    if v.code.len() == 0 || v.pc_index + 1 >= v.code.len() {
        (EngineView { state: ExecutionState::Exited, ..v }, None)
    } else {
        (
            EngineView { pc_index: v.pc_index + 1, state: ExecutionState::Paused, ..v },
            Some(v.code[v.pc_index + 1 as int].address),
        )
    }
}

/// The first index from `j` on whose instruction carries a breakpoint.
pub open spec fn first_break_from(code: Seq<InstructionView>, breaks: Set<u64>, j: nat) -> Option<
    nat,
>
    decreases code.len() - j,
{
    if j >= code.len() {
        None
    } else if breaks.contains(code[j as int].address) {
        Some(j)
    } else {
        first_break_from(code, breaks, j + 1)
    }
}

/// The engine after running to the next breakpoint, and its address; with no
/// breakpoint ahead the target runs to its last instruction and exits.
pub open spec fn ran(v: EngineView) -> (EngineView, Option<u64>) {
    match first_break_from(v.code, v.breakpoints, v.pc_index + 1) {
        Some(k) => (
            EngineView { pc_index: k, state: ExecutionState::Paused, ..v },
            Some(v.code[k as int].address),
        ),
        None => (
            EngineView {
                pc_index: if v.pc_index + 1 < v.code.len() {
                    (v.code.len() - 1) as nat
                } else {
                    v.pc_index
                },
                state: ExecutionState::Exited,
                ..v
            },
            None,
        ),
    }
}

/// What an execution-control operation gives: with no target, a refusal;
/// on the remote backend, the remote must acknowledge `command` first; then
/// `motion` moves the target and the memory window is refreshed.
pub open spec fn controlled(
    v: EngineView,
    command: RemoteCommand,
    motion: spec_fn(EngineView) -> (EngineView, Option<u64>),
) -> (EngineView, Result<Option<u64>, Seq<char>>) {
    if !has_target(v) {
        (v, Err(no_target_message()))
    } else {
        let w = if v.remote {
            after_dispatch(v, command)
        } else {
            v
        };
        if v.remote && dispatch_outcome(v, command) is Err {
            (w, Err(dispatch_outcome(v, command)->Err_0))
        } else {
            let (x, pc) = motion(w);
            (refreshed(x), Ok(pc))
        }
    }
}

/// Stepping one instruction.
pub open spec fn stepped(v: EngineView) -> (EngineView, Result<Option<u64>, Seq<char>>) {
    controlled(v, RemoteCommand::StepIn, |w: EngineView| advanced(w))
}

/// Continuing to the next breakpoint.
pub open spec fn continued(v: EngineView) -> (EngineView, Result<Option<u64>, Seq<char>>) {
    controlled(
        v,
        RemoteCommand::Continue,
        |w: EngineView| ran(EngineView { state: ExecutionState::Running, ..w }),
    )
}

/// Pausing where the target is.
pub open spec fn paused(v: EngineView) -> (EngineView, Result<Option<u64>, Seq<char>>) {
    controlled(
        v,
        RemoteCommand::Pause,
        |w: EngineView| {
            let x = EngineView { state: ExecutionState::Paused, ..w };
            (x, current_pc(refreshed(x)))
        },
    )
}

/// The attach phase after detaching from `phase`.
pub open spec fn detached_phase(phase: SessionLifecycle) -> SessionLifecycle {
    if transition_allowed(phase, SessionLifecycle::Detached) {
        SessionLifecycle::Detached
    } else {
        phase
    }
}

/// The engine with a fresh target whose image is `image`: no breakpoints,
/// at its first instruction, paused, with the memory window refreshed.
pub open spec fn with_fresh_target(v: EngineView, image: Seq<u8>) -> EngineView {
    refreshed(
        EngineView {
            image,
            code: disassembly_of(image),
            breakpoints: Set::empty(),
            pc_index: 0,
            state: ExecutionState::Paused,
            ..v
        },
    )
}

/// The engine after loading the binary at `path` with contents `bytes`
/// (an empty file counts as 64 zero bytes); remote sessions are closed and
/// any attached process is detached.
pub open spec fn loaded(v: EngineView, path: Seq<char>, bytes: Seq<u8>) -> EngineView {
    with_fresh_target(
        EngineView {
            session_target: Some(path),
            session_attached: None,
            phase: detached_phase(v.phase),
            status: disconnected_view(),
            retries_left: 0,
            link_endpoint: None,
            link_session: None,
            remote_config: None,
            remote: false,
            binary_path: Some(path),
            attached_label: None,
            ..v
        },
        if bytes.len() == 0 {
            Seq::new(64, |i: int| 0u8)
        } else {
            bytes
        },
    )
}

/// The engine after attaching to the process labelled `label`; remote
/// sessions are closed and the loaded binary is dropped.
pub open spec fn attached(v: EngineView, label: Seq<char>) -> EngineView {
    with_fresh_target(
        EngineView {
            session_attached: Some(label),
            phase: SessionLifecycle::Attached,
            status: disconnected_view(),
            retries_left: 0,
            link_endpoint: None,
            link_session: None,
            remote_config: None,
            remote: false,
            binary_path: None,
            attached_label: Some(label),
            ..v
        },
        seed_bytes(encode_utf8(label)),
    )
}

/// Whether the host's report shows the target of an attach request running:
/// a pid is found if it is the debugger's own or the listing for it is not
/// blank; a name is found if some line of the process listing, trimmed and
/// lowered, contains the trimmed and lowered name.
pub open spec fn process_found(target: AttachTarget, probe: AttachProbe) -> bool {
    match target {
        AttachTarget::Pid(pid) => pid == probe.own_pid || (probe.process_listing matches Some(out)
            && !is_blank(out@)),
        AttachTarget::ProcessName(name) => {
            let needle = ascii_lower_seq(trim_seq(name@));
            &&& needle.len() > 0
            &&& probe.process_listing is Some
            &&& some_line_contains(probe.process_listing->0@, needle)
        },
    }
}

/// Whether `out[a..b]` is one line of `out`.
pub open spec fn is_line(out: Seq<char>, a: int, b: int) -> bool {
    &&& 0 <= a <= b <= out.len()
    &&& (a == 0 || out[a - 1] == '\n')
    &&& (b == out.len() || out[b] == '\n')
    &&& forall|k: int| a <= k < b ==> out[k] != '\n'
}

/// Whether some line of `out`, trimmed and lowered, contains `needle`.
pub open spec fn some_line_contains(out: Seq<char>, needle: Seq<char>) -> bool {
    exists|a: int, b: int|
        is_line(out, a, b) && contains_seq(
            ascii_lower_seq(trim_seq(#[trigger] out.subrange(a, b))),
            needle,
        )
}

/// The kind of an attach failure, read from its message.
pub open spec fn attach_error_kind_of(message: Seq<char>) -> AttachErrorKind {
    let m = ascii_lower_seq(message);
    if contains_seq(m, "permission"@) || contains_seq(m, "task_for_pid"@) {
        AttachErrorKind::PermissionDenied
    } else if contains_seq(m, "timeout"@) {
        AttachErrorKind::Timeout
    } else if contains_seq(m, "not found"@) {
        AttachErrorKind::TargetNotFound
    } else {
        AttachErrorKind::LldbError
    }
}

/// What an attach request gives: the engine afterwards and the result's
/// attached flag, error kind and message (the result's target label is
/// always the request's).
pub open spec fn attach_step(v: EngineView, request: AttachRequest, probe: AttachProbe) -> (
    EngineView,
    bool,
    Option<AttachErrorKind>,
    Seq<char>,
) {
    let label = attach_target_label(request.target);
    if !attach_target_plausible(request.target) {
        (v, false, Some(AttachErrorKind::TargetNotFound), "Invalid attach target"@)
    } else if !process_found(request.target, probe) {
        (v, false, Some(AttachErrorKind::TargetNotFound), "Target process not found"@)
    } else if !attach_permitted(probe.permission_override, probe.lldb_available) {
        (
            EngineView { phase: SessionLifecycle::Failed, ..v },
            false,
            Some(attach_error_kind_of(permission_denied_message())),
            permission_denied_message(),
        )
    } else {
        (attached(v, label), true, None, "Attached to "@ + label)
    }
}

/// The label of the remote target at `endpoint`.
pub open spec fn remote_label(endpoint: Seq<char>) -> Seq<char> {
    "xdbg-remote@"@ + endpoint
}

/// The engine after a remote session to `config` opened at `endpoint` under
/// `session_id`: the remote endpoint becomes the target.
pub open spec fn remote_attached(
    v: EngineView,
    config: RemoteConfig,
    endpoint: Seq<char>,
    session_id: Seq<char>,
) -> EngineView {
    with_fresh_target(
        EngineView {
            status: connected_view(config.endpoint@, session_id),
            retries_left: config.retry_count,
            link_endpoint: Some(endpoint),
            link_session: Some(session_id),
            remote: true,
            binary_path: None,
            attached_label: Some(remote_label(config.endpoint@)),
            ..v
        },
        seed_bytes(encode_utf8(config.endpoint@)),
    )
}

/// What one attempt to open the remote session to `config` leaves: on
/// success the remote target; on failure a degraded status, one retry spent
/// if any was left, and otherwise the local backend.
pub open spec fn connect_attempted(v: EngineView, config: RemoteConfig, probe: RemoteProbe) -> EngineView {
    match connect_result(config, v.forced_timeout, probe.network) {
        Ok(endpoint) => remote_attached(
            v,
            config,
            endpoint,
            session_id_text(endpoint, probe.now_millis),
        ),
        Err((kind, message)) => if v.retries_left > 0 {
            EngineView {
                status: degraded_view(config.endpoint@, kind, message),
                retries_left: (v.retries_left - 1) as u8,
                ..v
            }
        } else {
            EngineView {
                status: degraded_view(config.endpoint@, kind, message),
                remote: false,
                ..v
            }
        },
    }
}

/// Whether an attempt leaves the next one to be made after a pause.
pub open spec fn connect_retries(v: EngineView, config: RemoteConfig, probe: RemoteProbe) -> bool {
    connect_result(config, v.forced_timeout, probe.network) is Err && v.retries_left > 0
}

/// The engine as a remote session to `config` starts: connecting, with the
/// configured retries.
pub open spec fn connect_begun(v: EngineView, config: RemoteConfig) -> EngineView {
    EngineView {
        status: connecting_view(config.endpoint@),
        retries_left: config.retry_count,
        remote_config: Some(config),
        ..v
    }
}

/// What the host found for attempt `i`: the `i`-th probe, or the last one
/// when there are fewer probes than attempts.
pub open spec fn probe_at(probes: Seq<RemoteProbe>, i: nat) -> RemoteProbe {
    if i < probes.len() {
        probes[i as int]
    } else {
        probes.last()
    }
}

/// The engine once the attempts to open the remote session to `config` have
/// settled, attempt `i` onwards finding the network as `probe_at(probes, i)`
/// says: a failed attempt is repeated while retries are left.
pub open spec fn connect_settled(
    v: EngineView,
    config: RemoteConfig,
    probes: Seq<RemoteProbe>,
    i: nat,
) -> EngineView
    decreases v.retries_left,
{
    if connect_retries(v, config, probe_at(probes, i)) {
        connect_settled(connect_attempted(v, config, probe_at(probes, i)), config, probes, i + 1)
    } else {
        connect_attempted(v, config, probe_at(probes, i))
    }
}

/// The engine after the remote session is closed: a remote target is
/// dropped, a local one stays.
pub open spec fn remote_disconnected(v: EngineView) -> EngineView {
    let w = EngineView {
        status: disconnected_view(),
        retries_left: 0,
        link_endpoint: None,
        link_session: None,
        remote_config: None,
        ..v
    };
    if v.remote {
        EngineView {
            remote: false,
            attached_label: None,
            state: ExecutionState::NoTarget,
            code: Seq::empty(),
            breakpoints: Set::empty(),
            memory_address: base_address_value(),
            memory: Seq::new(0x100, |i: int| 0u8),
            ..w
        }
    } else {
        w
    }
}

/// What a connection attempt tells its driver.
#[derive(Debug, PartialEq, Eq)]
pub enum ConnectStep {
    /// The attempt settled the session; its status.
    Finished(RemoteSessionStatus),
    /// The attempt failed with retries left: try again after this many milliseconds.
    RetryAfter(u64),
}

/// The operations of a debugging engine, as the debugger core drives them.
/// Outside work (reading a binary, looking for a process, trying the
/// network) is done by the host, which hands its findings in.
pub trait DebugEngine: Send {
    /// Loads a binary, given what the host found at `binary_path`.
    fn load_binary(&mut self, binary_path: String, read: BinaryRead) -> Result<(), CoreError>
        requires
            read matches BinaryRead::Contents(b) ==> b@.len() <= max_image_len(),
    ;

    /// Attaches to a running process, given what the host reports.
    fn attach_process(&mut self, request: AttachRequest, probe: &AttachProbe) -> Result<
        AttachResult,
        CoreError,
    >;

    /// Opens a remote session, given what the network answers each attempt
    /// (the last answer standing for any further attempts).
    fn connect_remote(&mut self, config: RemoteConfig, probes: &Vec<RemoteProbe>) -> Result<
        RemoteSessionStatus,
        CoreError,
    >
        requires
            probes@.len() > 0,
    ;

    /// Closes the remote session.
    fn disconnect_remote(&mut self);

    /// The remote session status.
    fn remote_session_status(&self) -> RemoteSessionStatus;

    /// The attach lifecycle phase.
    fn attach_lifecycle(&self) -> SessionLifecycle;

    /// Executes one instruction.
    fn step_in(&mut self) -> Result<Option<u64>, CoreError>;

    /// Steps over one instruction.
    fn step_over(&mut self) -> Result<Option<u64>, CoreError>;

    /// Runs to the next breakpoint.
    fn continue_exec(&mut self) -> Result<Option<u64>, CoreError>;

    /// Stops the target.
    fn pause_exec(&mut self) -> Result<Option<u64>, CoreError>;

    /// Sets or removes the breakpoint at `address`.
    fn toggle_breakpoint(&mut self, address: u64) -> Result<(), CoreError>;

    /// The register values.
    fn read_registers(&self) -> Result<Vec<RegisterValue>, CoreError>;

    /// Reads `size` bytes at `address`.
    fn read_memory(&mut self, address: u64, size: usize) -> Result<MemorySnapshot, CoreError>;

    /// The disassembly of the target.
    fn fetch_disassembly(&self) -> Result<Vec<AssemblyInstruction>, CoreError>;

    /// Everything the user interface shows, at this moment.
    fn snapshot(&self) -> DebuggerSnapshot;
}

/// A simulated LLDB debugging engine.
pub struct MockLldbEngine {
    session: LldbSession,
    remote_session: RemoteSessionManager,
    remote_adapter: XdbgRemoteAdapter,
    remote_config: Option<RemoteConfig>,
    backend: EngineBackend,
    binary_path: Option<String>,
    binary_bytes: Vec<u8>,
    instructions: Vec<AssemblyInstruction>,
    breakpoints: HashSet<u64>,
    pc_index: usize,
    state: ExecutionState,
    memory: MemorySnapshot,
    attached_target_label: Option<String>,
}

impl View for MockLldbEngine {
    type V = EngineView;

    closed spec fn view(&self) -> EngineView {
        EngineView {
            session_target: opt_text(self.session.target()),
            session_attached: opt_text(self.session.attached()),
            phase: self.session.phase(),
            status: self.remote_session.current()@,
            retries_left: self.remote_session.retries_left(),
            retry_delay_ms: self.remote_session.delay_ms(),
            link_endpoint: opt_text(self.remote_adapter.current_endpoint()),
            link_session: opt_text(self.remote_adapter.current_session()),
            forced_timeout: self.remote_adapter.times_out(),
            remote_config: self.remote_config,
            remote: self.backend == EngineBackend::Remote,
            binary_path: opt_text(self.binary_path),
            attached_label: opt_text(self.attached_target_label),
            image: self.binary_bytes@,
            code: instruction_views(self.instructions@),
            breakpoints: self.breakpoints@,
            pc_index: self.pc_index as nat,
            state: self.state,
            memory_address: self.memory.address,
            memory: self.memory.bytes@,
        }
    }
}

impl MockLldbEngine {
    /// An engine with no target, a disconnected remote session and a zeroed
    /// 256-byte memory window at the base address.
    pub fn new() -> (r: Result<Self, CoreError>)
        ensures
            r matches Ok(e) && {
                let v = e@;
                &&& v.session_target is None
                &&& v.session_attached is None
                &&& v.phase == SessionLifecycle::Detached
                &&& v.status == disconnected_view()
                &&& v.retries_left == 0
                &&& v.retry_delay_ms == 200
                &&& v.link_endpoint is None
                &&& v.link_session is None
                &&& !v.forced_timeout
                &&& v.remote_config is None
                &&& !v.remote
                &&& v.binary_path is None
                &&& v.attached_label is None
                &&& v.image.len() == 0
                &&& v.code.len() == 0
                &&& v.breakpoints.is_empty()
                &&& v.pc_index == 0
                &&& v.state == ExecutionState::NoTarget
                &&& v.memory_address == base_address_value()
                &&& v.memory == Seq::new(0x100, |i: int| 0u8)
            },
    {
        let session = match LldbSession::initialize() {
            Ok(s) => s,
            Err(e) => {
                return Err(e);
            },
        };
        let engine = MockLldbEngine {
            session,
            remote_session: RemoteSessionManager::new(),
            remote_adapter: XdbgRemoteAdapter::new(),
            remote_config: None,
            backend: EngineBackend::Local,
            binary_path: None,
            binary_bytes: Vec::new(),
            instructions: Vec::new(),
            breakpoints: HashSet::new(),
            pc_index: 0,
            state: ExecutionState::NoTarget,
            memory: MemorySnapshot { address: 0x1000, bytes: zero_bytes(0x100) },
            attached_target_label: None,
        };
        assert(instruction_views(engine.instructions@) =~= Seq::<InstructionView>::empty());
        Ok(engine)
    }

    /// Makes every remote operation time out, or stops doing so (the
    /// environment's forced-timeout switch).
    pub fn set_remote_forced_timeout(&mut self, forced: bool)
        ensures
            final(self)@ == (EngineView { forced_timeout: forced, ..old(self)@ }),
    {
        self.remote_adapter.set_forced_timeout(forced);
    }

    fn current_pc(&self) -> (pc: Option<u64>)
        ensures
            pc == current_pc(self@),
    {
        if self.pc_index < self.instructions.len() {
            Some(self.instructions[self.pc_index].address)
        } else {
            None
        }
    }

    fn ensure_target(&self) -> (r: Result<(), CoreError>)
        ensures
            has_target(self@) ==> r is Ok,
            !has_target(self@) ==> (r matches Err(e) && e.message@ == no_target_message()),
    {
        if self.binary_path.is_none() && self.attached_target_label.is_none() {
            return Err(CoreError::from_text("No binary loaded"));
        }
        Ok(())
    }

    /// Whether `address` carries a breakpoint.
    fn has_breakpoint(&self, address: u64) -> (b: bool)
        ensures
            b == self@.breakpoints.contains(address),
    {
        self.breakpoints.contains(&address)
    }

}

impl MockLldbEngine {
    fn dispatch_remote_command(&mut self, command: RemoteCommand) -> (r: Result<(), CoreError>)
        ensures
            final(self)@ == after_dispatch(old(self)@, command),
            match dispatch_outcome(old(self)@, command) {
                Ok(_) => r is Ok,
                Err(m) => r is Err && r->Err_0.message@ == m,
            },
    {
        let config = match &self.remote_config {
            Some(c) => c.clone(),
            None => {
                return Err(CoreError::from_text("Remote config is unavailable"));
            },
        };
        match self.remote_adapter.dispatch(command) {
            Ok(result) => {
                let session_id = match self.remote_adapter.session_id() {
                    Some(id) => String::from_str(id),
                    None => String::from_str("xdbg-session"),
                };
                self.remote_session.mark_connected(&config, session_id);
                self.state =
                if command == RemoteCommand::Continue {
                    ExecutionState::Running
                } else {
                    ExecutionState::Paused
                };
                if !result.success {
                    return Err(CoreError::new(result.message));
                }
                Ok(())
            },
            Err(error) => {
                self.remote_session.mark_failed(&config, error.kind, error.message.clone());
                self.backend = EngineBackend::Local;
                Err(CoreError::new(error.message))
            },
        }
    }

    fn refresh_state_window(&mut self)
        ensures
            final(self)@ == refreshed(old(self)@),
    {
        let address = match self.current_pc() {
            Some(pc) => pc,
            None => base_address(),
        };
        self.memory =
        match self.read_memory(address, 0x100) {
            Ok(m) => m,
            Err(_) => MemorySnapshot { address, bytes: Vec::new() },
        };
    }

    fn advance_one_instruction(&mut self) -> (pc: Option<u64>)
        ensures
            (final(self)@, pc) == advanced(old(self)@),
    {
        if self.instructions.len() == 0 {
            self.state = ExecutionState::Exited;
            return None;
        }
        if self.pc_index >= self.instructions.len() - 1 {
            self.state = ExecutionState::Exited;
            return None;
        }
        self.pc_index = self.pc_index + 1;
        self.state = ExecutionState::Paused;
        self.current_pc()
    }

}

/// The program counter shown: the current instruction's address, or the
/// base address when there is none.
pub open spec fn shown_pc(v: EngineView) -> u64 {
    match current_pc(v) {
        Some(pc) => pc,
        None => base_address_value(),
    }
}

/// The message of a failed remote register read whose failure said `m`.
pub open spec fn register_read_failure(m: Seq<char>) -> Seq<char> {
    "Remote read-register failed ("@ + crate::types::remote_error_label(remote_error_kind_of(m))
        + "): "@ + m
}

fn register_name_string(i: usize) -> (s: String)
    requires
        i < 33,
    ensures
        s@ == register_name(i as int),
{
    if i < 29 {
        concat("x", decimal_string(i as u128).as_str())
    } else if i == 29 {
        String::from_str("fp")
    } else if i == 30 {
        String::from_str("lr")
    } else if i == 31 {
        String::from_str("sp")
    } else {
        String::from_str("pc")
    }
}

fn copy_text(o: &Option<String>) -> (r: Option<String>)
    ensures
        r == *o,
{
    match o {
        Some(s) => Some(s.clone()),
        None => None,
    }
}

fn copy_breakpoints(set: &HashSet<u64>) -> (r: HashSet<u64>)
    ensures
        r@ == set@,
{
    let mut copy: HashSet<u64> = HashSet::new();
    for k in it: set.iter()
        invariant
            it.seq().unref().to_set() == set@,
            copy@ == it.seq().take(it.index()).unref().to_set(),
            it.index() == it.seq().len() ==> copy@ == set@,
    {
        assert(it.seq().take(it.index() + 1).unref() =~= it.seq().take(it.index()).unref().push(*k));
        assert(it.seq().take(it.index()).unref().push(*k).to_set() =~= it.seq().take(
            it.index(),
        ).unref().to_set().insert(*k)) by {
            broadcast use Seq::lemma_push_to_set_commute;
        }
        assert(it.seq().take(it.seq().len() as int) =~= it.seq());
        copy.insert(*k);
    }
    copy
}

impl MockLldbEngine {
    fn computed_registers(&self) -> (regs: Vec<RegisterValue>)
        ensures
            registers_at(shown_pc(self@), regs@),
    {
        let pc = match self.current_pc() {
            Some(pc) => pc,
            None => base_address(),
        };
        let mut regs: Vec<RegisterValue> = Vec::new();
        let mut idx: usize = 0;
        while idx < 33
            invariant
                idx == regs@.len() <= 33,
                pc == shown_pc(self@),
                forall|i: int|
                    0 <= i < idx ==> {
                        &&& (#[trigger] regs@[i]).name@ == register_name(i)
                        &&& regs@[i].value == (if i == 32 {
                            pc
                        } else if pc + 16 * i > u64::MAX {
                            (pc + 16 * i - 0x1_0000_0000_0000_0000) as u64
                        } else {
                            (pc + 16 * i) as u64
                        })
                    },
            decreases 33 - idx,
        {
            let name = register_name_string(idx);
            let value = if idx == 32 {
                pc
            } else {
                pc.wrapping_add((idx as u64) * 0x10)
            };
            regs.push(RegisterValue { name, value });
            idx = idx + 1;
        }
        regs
    }

}

fn seed_from_label(label: &str) -> (bytes: Vec<u8>)
    ensures
        bytes@ == seed_bytes(encode_utf8(label@)),
{
    let source = label.as_bytes();
    let n = source.len();
    let mut bytes: Vec<u8> = Vec::new();
    let mut i: usize = 0;
    while i < 64
        invariant
            i == bytes@.len() <= 64,
            n == source@.len(),
            source@ == encode_utf8(label@),
            forall|k: int|
                0 <= k < i ==> #[trigger] bytes@[k] == seed_bytes(encode_utf8(label@))[k],
        decreases 64 - i,
    {
        let b = if n == 0 {
            0x90u8
        } else {
            source[i % n]
        };
        bytes.push(b);
        i = i + 1;
    }
    assert(bytes@ =~= seed_bytes(encode_utf8(label@)));
    bytes
}

fn line_contains(out: &Vec<char>, a: usize, b: usize, needle: &Vec<char>) -> (r: bool)
    requires
        a <= b <= out@.len(),
    ensures
        r == contains_seq(ascii_lower_seq(trim_seq(out@.subrange(a as int, b as int))), needle@),
{
    let segment = sub_vec(out, a, b);
    let (x, y) = trim_bounds(&segment);
    let trimmed = sub_vec(&segment, x, y);
    let lowered = ascii_lower_vec(&trimmed);
    contains_vec(&lowered, needle)
}

fn any_line_contains(out: &Vec<char>, needle: &Vec<char>) -> (r: bool)
    ensures
        r == some_line_contains(out@, needle@),
{
    let n = out.len();
    let mut start: usize = 0;
    let mut i: usize = 0;
    while i < n
        invariant
            n == out@.len(),
            start <= i <= n,
            start == 0 || out@[start - 1] == '\n',
            forall|k: int| start <= k < i ==> out@[k] != '\n',
            forall|a: int, b: int|
                is_line(out@, a, b) && b < start ==> !contains_seq(
                    ascii_lower_seq(trim_seq(#[trigger] out@.subrange(a, b))),
                    needle@,
                ),
        decreases n - i,
    {
        if out[i] == '\n' {
            if line_contains(out, start, i, needle) {
                assert(is_line(out@, start as int, i as int));
                return true;
            }
            assert forall|a: int, b: int|
                is_line(out@, a, b) && b < i + 1 implies !contains_seq(
                ascii_lower_seq(trim_seq(#[trigger] out@.subrange(a, b))),
                needle@,
            ) by {
                if b >= start {
                    if b < i {
                        assert(out@[b] == '\n');
                    }
                    if a < start {
                        assert(out@[start - 1] == '\n');
                    } else if a > start {
                        assert(out@[a - 1] == '\n');
                    }
                }
            }
            start = i + 1;
        }
        i = i + 1;
    }
    if line_contains(out, start, n, needle) {
        assert(is_line(out@, start as int, n as int));
        return true;
    }
    assert forall|a: int, b: int| is_line(out@, a, b) implies !contains_seq(
        ascii_lower_seq(trim_seq(#[trigger] out@.subrange(a, b))),
        needle@,
    ) by {
        if b >= start {
            if b < n {
                assert(out@[b] == '\n');
            }
            if a < start {
                assert(out@[start - 1] == '\n');
            } else if a > start {
                assert(out@[a - 1] == '\n');
            }
        }
    }
    false
}

fn process_exists(target: &AttachTarget, probe: &AttachProbe) -> (found: bool)
    ensures
        found == process_found(*target, *probe),
{
    match target {
        AttachTarget::Pid(pid) => {
            if *pid == probe.own_pid {
                return true;
            }
            match &probe.process_listing {
                Some(out) => !is_blank_str(out.as_str()),
                None => false,
            }
        },
        AttachTarget::ProcessName(name) => {
            let raw = chars_of(name.as_str());
            let (x, y) = trim_bounds(&raw);
            let needle = ascii_lower_vec(&sub_vec(&raw, x, y));
            if needle.len() == 0 {
                return false;
            }
            match &probe.process_listing {
                Some(out) => any_line_contains(&chars_of(out.as_str()), &needle),
                None => false,
            }
        },
    }
}

fn classify_attach_error(error_message: &str) -> (k: AttachErrorKind)
    ensures
        k == attach_error_kind_of(error_message@),
{
    let normalized = ascii_lower_chars(error_message);
    if contains_text(&normalized, "permission") || contains_text(&normalized, "task_for_pid") {
        AttachErrorKind::PermissionDenied
    } else if contains_text(&normalized, "timeout") {
        AttachErrorKind::Timeout
    } else if contains_text(&normalized, "not found") {
        AttachErrorKind::TargetNotFound
    } else {
        AttachErrorKind::LldbError
    }
}

impl MockLldbEngine {

    /// Starts a remote session with `config`; the attempts to open it follow
    /// with `connect_remote_attempt`.
    pub fn begin_connect_remote(&mut self, config: RemoteConfig) -> (r: Result<(), CoreError>)
        ensures
            match remote_config_problem(config) {
                Some(p) => {
                    &&& r is Err
                    &&& r->Err_0.message@ == "Invalid remote config: "@ + p
                    &&& final(self)@ == old(self)@
                },
                None => {
                    &&& r is Ok
                    &&& final(self)@ == connect_begun(old(self)@, config)
                },
            },
    {
        match validate_remote_config(&config) {
            Ok(()) => {},
            Err(error) => {
                return Err(CoreError::new(concat("Invalid remote config: ", error.as_str())));
            },
        }
        self.remote_session.begin_connect(&config);
        self.remote_config = Some(config);
        Ok(())
    }

    /// One attempt to open the remote session to `config`, given what the
    /// host reports; says whether to try again and after how long.
    pub fn connect_remote_attempt(&mut self, config: &RemoteConfig, probe: &RemoteProbe) -> (r:
        ConnectStep)
        ensures
            final(self)@ == connect_attempted(old(self)@, *config, *probe),
            connect_retries(old(self)@, *config, *probe) ==> r == ConnectStep::RetryAfter(
                old(self)@.retry_delay_ms,
            ),
            !connect_retries(old(self)@, *config, *probe) ==> (r is Finished && r->Finished_0@
                == final(self)@.status),
    {
        match self.remote_adapter.connect(config, probe) {
            Ok(session_id) => {
                self.remote_session.mark_connected(config, session_id);
                self.backend = EngineBackend::Remote;
                self.binary_path = None;
                self.attached_target_label = Some(concat("xdbg-remote@", config.endpoint.as_str()));
                self.binary_bytes = seed_from_label(config.endpoint.as_str());
                self.instructions = decode_disassembly(&self.binary_bytes);
                self.breakpoints.clear();
                self.pc_index = 0;
                self.state = ExecutionState::Paused;
                self.refresh_state_window();
                ConnectStep::Finished(self.remote_session.status())
            },
            Err(error) => {
                self.remote_session.mark_failed(config, error.kind, error.message);
                if self.remote_session.can_retry() {
                    return ConnectStep::RetryAfter(self.remote_session.retry_delay_ms());
                }
                self.backend = EngineBackend::Local;
                ConnectStep::Finished(self.remote_session.status())
            },
        }
    }

}

/// The bytes of `image` for `size` bytes at `address`, the image starting
/// at the base address.
fn image_window(image: &Vec<u8>, address: u64, size: usize) -> (bytes: Vec<u8>)
    ensures
        bytes@ == memory_window(image@, address, size as nat),
{
    let offset: u64 = if address >= 0x1000 {
        address - 0x1000
    } else {
        0
    };
    let mut bytes: Vec<u8> = Vec::new();
    let mut idx: usize = 0;
    while idx < size
        invariant
            idx <= size,
            offset == (if address >= 0x1000 {
                address - 0x1000
            } else {
                0
            }),
            bytes@ == memory_window(image@, address, size as nat).subrange(0, idx as int),
        decreases size - idx,
    {
        let source: u128 = (offset as u128) + (idx as u128);
        let b = if source < image.len() as u128 {
            image[source as usize]
        } else {
            0u8
        };
        proof {
            let off: int = if address >= base_address_value() {
                address - base_address_value()
            } else {
                0
            };
            assert(off == offset as int);
            assert(source as int == off + idx);
            assert(memory_window(image@, address, size as nat)[idx as int] == (if off + idx
                < image@.len() {
                image@[off + idx]
            } else {
                0u8
            }));
        }
        bytes.push(b);
        assert(bytes@ =~= memory_window(image@, address, size as nat).subrange(0, idx + 1));
        idx = idx + 1;
    }
    assert(bytes@ =~= memory_window(image@, address, size as nat));
    bytes
}

fn zero_bytes(n: usize) -> (v: Vec<u8>)
    ensures
        v@ == Seq::new(n as nat, |i: int| 0u8),
{
    let mut v: Vec<u8> = Vec::new();
    while v.len() < n
        invariant
            v@.len() <= n,
            forall|i: int| 0 <= i < v@.len() ==> v@[i] == 0u8,
        decreases n - v@.len(),
    {
        v.push(0);
    }
    assert(v@ =~= Seq::new(n as nat, |i: int| 0u8));
    v
}

impl DebugEngine for MockLldbEngine {
    /// Loads a binary, given what the host found at `binary_path`.
    fn load_binary(&mut self, binary_path: String, read: BinaryRead) -> (r: Result<(), CoreError>)
        ensures
            match read {
                BinaryRead::Missing => {
                    &&& r is Err
                    &&& r->Err_0.message@ == "Binary does not exist: "@ + binary_path@
                    &&& final(self)@ == old(self)@
                },
                BinaryRead::Unreadable(e) => {
                    &&& r is Err
                    &&& r->Err_0.message@ == "Failed to read binary: "@ + e@
                    &&& final(self)@ == old(self)@
                },
                BinaryRead::Contents(bytes) => {
                    &&& r is Ok
                    &&& final(self)@ == loaded(old(self)@, binary_path@, bytes@)
                },
            },
    {
        let bytes = match read {
            BinaryRead::Missing => {
                return Err(CoreError::new(concat("Binary does not exist: ", binary_path.as_str())));
            },
            BinaryRead::Unreadable(e) => {
                return Err(CoreError::new(concat("Failed to read binary: ", e.as_str())));
            },
            BinaryRead::Contents(b) => b,
        };
        match self.session.load_target(binary_path.clone()) {
            Ok(()) => {},
            Err(e) => {
                return Err(e);
            },
        }
        match self.session.launch_process() {
            Ok(()) => {},
            Err(e) => {
                return Err(e);
            },
        }
        self.binary_bytes = if bytes.len() == 0 {
            zero_bytes(64)
        } else {
            bytes
        };
        self.instructions = decode_disassembly(&self.binary_bytes);
        self.breakpoints.clear();
        self.backend = EngineBackend::Local;
        self.remote_config = None;
        self.remote_adapter.disconnect();
        self.remote_session.disconnect();
        self.binary_path = Some(binary_path);
        self.attached_target_label = None;
        self.session.detach();
        self.pc_index = 0;
        self.state = ExecutionState::Paused;
        self.refresh_state_window();
        Ok(())
    }

    /// Attaches to a running process, given what the host reports; the
    /// outcome is always a structured result.
    fn attach_process(&mut self, request: AttachRequest, probe: &AttachProbe) -> (r: Result<
        AttachResult,
        CoreError,
    >)
        ensures
            r is Ok,
            r->Ok_0.target_label@ == attach_target_label(request.target),
            (final(self)@, r->Ok_0.attached, r->Ok_0.error, r->Ok_0.message@) == attach_step(
                old(self)@,
                request,
                *probe,
            ),
    {
        if let Err(error_kind) = validate_attach_request(&request) {
            return Ok(
                AttachResult::failure(
                    describe_attach_target(&request),
                    error_kind,
                    String::from_str("Invalid attach target"),
                ),
            );
        }
        if !process_exists(&request.target, probe) {
            return Ok(
                AttachResult::failure(
                    describe_attach_target(&request),
                    AttachErrorKind::TargetNotFound,
                    String::from_str("Target process not found"),
                ),
            );
        }
        let target_label = describe_attach_target(&request);
        let permitted = has_attach_permission(&probe.permission_override, probe.lldb_available);
        match self.session.attach_to_process(&request, permitted) {
            Ok(attached_target) => {
                self.backend = EngineBackend::Local;
                self.remote_config = None;
                self.remote_adapter.disconnect();
                self.remote_session.disconnect();
                self.attached_target_label = Some(attached_target.clone());
                self.binary_path = None;
                self.binary_bytes = seed_from_label(target_label.as_str());
                self.instructions = decode_disassembly(&self.binary_bytes);
                self.breakpoints.clear();
                self.pc_index = 0;
                self.state = ExecutionState::Paused;
                self.refresh_state_window();
                Ok(AttachResult::success(attached_target))
            },
            Err(error) => {
                let kind = classify_attach_error(error.message.as_str());
                Ok(AttachResult::failure(target_label, kind, error.message))
            },
        }
    }

    /// Opens the remote session to `config`, trying again while attempts
    /// fail and retries are left; attempt `i` finds the network as
    /// `probes[i]` says (the last probe for any further attempts). An
    /// invalid configuration is refused.
    fn connect_remote(&mut self, config: RemoteConfig, probes: &Vec<RemoteProbe>) -> (r: Result<
        RemoteSessionStatus,
        CoreError,
    >)
        ensures
            match remote_config_problem(config) {
                Some(p) => {
                    &&& r is Err
                    &&& r->Err_0.message@ == "Invalid remote config: "@ + p
                    &&& final(self)@ == old(self)@
                },
                None => {
                    &&& r is Ok
                    &&& final(self)@ == connect_settled(
                        connect_begun(old(self)@, config),
                        config,
                        probes@,
                        0,
                    )
                    &&& r->Ok_0@ == final(self)@.status
                },
            },
    {
        match self.begin_connect_remote(config.clone()) {
            Ok(()) => {},
            Err(error) => {
                return Err(error);
            },
        }
        let mut i: usize = 0;
        loop
            invariant
                probes@.len() > 0,
                i + self@.retries_left <= 255,
                remote_config_problem(config) is None,
                connect_settled(self@, config, probes@, i as nat) == connect_settled(
                    connect_begun(old(self)@, config),
                    config,
                    probes@,
                    0,
                ),
            decreases self@.retries_left,
        {
            let ghost before = self@;
            let k = if i < probes.len() {
                i
            } else {
                probes.len() - 1
            };
            assert(probes@[k as int] == probe_at(probes@, i as nat));
            match self.connect_remote_attempt(&config, &probes[k]) {
                ConnectStep::Finished(status) => {
                    return Ok(status);
                },
                ConnectStep::RetryAfter(_) => {
                    assert(self@.retries_left < before.retries_left);
                },
            }
            i = i + 1;
        }
    }

    /// Closes the remote session; a remote target goes with it.
    fn disconnect_remote(&mut self)
        ensures
            final(self)@ == remote_disconnected(old(self)@),
    {
        self.remote_adapter.disconnect();
        self.remote_session.disconnect();
        self.remote_config = None;
        if self.backend == EngineBackend::Remote {
            self.backend = EngineBackend::Local;
            self.attached_target_label = None;
            self.state = ExecutionState::NoTarget;
            self.instructions.clear();
            self.breakpoints.clear();
            self.memory = MemorySnapshot { address: base_address(), bytes: zero_bytes(0x100) };
            assert(instruction_views(self.instructions@) =~= Seq::<InstructionView>::empty());
        }
    }

    /// The remote session status.
    fn remote_session_status(&self) -> (s: RemoteSessionStatus)
        ensures
            s@ == self@.status,
    {
        self.remote_session.status()
    }

    /// The attach lifecycle phase of the local session.
    fn attach_lifecycle(&self) -> (l: SessionLifecycle)
        ensures
            l == self@.phase,
    {
        self.session.lifecycle()
    }

    /// Executes one instruction.
    fn step_in(&mut self) -> (r: Result<Option<u64>, CoreError>)
        ensures
            final(self)@ == stepped(old(self)@).0,
            match stepped(old(self)@).1 {
                Ok(pc) => r == Ok::<Option<u64>, CoreError>(pc),
                Err(m) => r is Err && r->Err_0.message@ == m,
            },
    {
        match self.ensure_target() {
            Ok(()) => {},
            Err(e) => {
                return Err(e);
            },
        }
        if self.backend == EngineBackend::Remote {
            match self.dispatch_remote_command(RemoteCommand::StepIn) {
                Ok(()) => {},
                Err(e) => {
                    return Err(e);
                },
            }
        }
        let pc = self.advance_one_instruction();
        self.refresh_state_window();
        Ok(pc)
    }

    /// Steps over one instruction; the simulated target has no calls to
    /// step over, so this is one step.
    fn step_over(&mut self) -> (r: Result<Option<u64>, CoreError>)
        ensures
            final(self)@ == stepped(old(self)@).0,
            match stepped(old(self)@).1 {
                Ok(pc) => r == Ok::<Option<u64>, CoreError>(pc),
                Err(m) => r is Err && r->Err_0.message@ == m,
            },
    {
        self.step_in()
    }

    /// Runs to the next instruction that carries a breakpoint, or to the end.
    fn continue_exec(&mut self) -> (r: Result<Option<u64>, CoreError>)
        ensures
            final(self)@ == continued(old(self)@).0,
            match continued(old(self)@).1 {
                Ok(pc) => r == Ok::<Option<u64>, CoreError>(pc),
                Err(m) => r is Err && r->Err_0.message@ == m,
            },
    {
        match self.ensure_target() {
            Ok(()) => {},
            Err(e) => {
                return Err(e);
            },
        }
        if self.backend == EngineBackend::Remote {
            match self.dispatch_remote_command(RemoteCommand::Continue) {
                Ok(()) => {},
                Err(e) => {
                    return Err(e);
                },
            }
        }
        self.state = ExecutionState::Running;
        let ghost start = self@;
        assert(continued(old(self)@) == (refreshed(ran(start).0), Ok::<Option<u64>, Seq<char>>(
            ran(start).1,
        )));
        loop
            invariant
                continued(old(self)@) == (refreshed(ran(start).0), Ok::<Option<u64>, Seq<char>>(
                    ran(start).1,
                )),
                self@.code == start.code,
                self@.breakpoints == start.breakpoints,
                start.pc_index <= self@.pc_index,
                self@.pc_index < start.code.len() || self@.pc_index == start.pc_index,
                first_break_from(start.code, start.breakpoints, start.pc_index + 1)
                    == first_break_from(start.code, start.breakpoints, self@.pc_index + 1),
                self@ == (EngineView { pc_index: self@.pc_index, state: self@.state, ..start }),
                self@.state == ExecutionState::Running || self@.state == ExecutionState::Paused,
            decreases start.code.len() - self@.pc_index,
        {
            let ghost before = self@;
            match self.advance_one_instruction() {
                Some(pc) => {
                    assert(first_break_from(start.code, start.breakpoints, before.pc_index + 1) == (
                    if start.breakpoints.contains(pc) {
                        Some(self@.pc_index)
                    } else {
                        first_break_from(start.code, start.breakpoints, self@.pc_index + 1)
                    }));
                    if self.has_breakpoint(pc) {
                        self.state = ExecutionState::Paused;
                        self.refresh_state_window();
                        return Ok(Some(pc));
                    }
                    if self.state == ExecutionState::Exited {
                        self.refresh_state_window();
                        return Ok(None);
                    }
                },
                None => {
                    self.refresh_state_window();
                    return Ok(None);
                },
            }
        }
    }

    /// Stops the target where it is.
    fn pause_exec(&mut self) -> (r: Result<Option<u64>, CoreError>)
        ensures
            final(self)@ == paused(old(self)@).0,
            match paused(old(self)@).1 {
                Ok(pc) => r == Ok::<Option<u64>, CoreError>(pc),
                Err(m) => r is Err && r->Err_0.message@ == m,
            },
    {
        match self.ensure_target() {
            Ok(()) => {},
            Err(e) => {
                return Err(e);
            },
        }
        if self.backend == EngineBackend::Remote {
            match self.dispatch_remote_command(RemoteCommand::Pause) {
                Ok(()) => {},
                Err(e) => {
                    return Err(e);
                },
            }
        }
        self.state = ExecutionState::Paused;
        self.refresh_state_window();
        Ok(self.current_pc())
    }

    /// Sets a breakpoint at `address`, or removes the one there.
    fn toggle_breakpoint(&mut self, address: u64) -> (r: Result<(), CoreError>)
        ensures
            final(self)@ == toggled(old(self)@, address),
            has_target(old(self)@) ==> r is Ok,
            !has_target(old(self)@) ==> (r matches Err(e) && e.message@ == no_target_message()),
    {
        match self.ensure_target() {
            Ok(()) => {},
            Err(e) => {
                return Err(e);
            },
        }
        if self.breakpoints.contains(&address) {
            self.breakpoints.remove(&address);
        } else {
            self.breakpoints.insert(address);
        }
        Ok(())
    }

    /// The register values at the current instruction.
    fn read_registers(&self) -> (r: Result<Vec<RegisterValue>, CoreError>)
        ensures
            !has_target(self@) ==> r is Err && r->Err_0.message@ == no_target_message(),
            has_target(self@) ==> match dispatch_result(
                self@.link_session is Some,
                self@.forced_timeout,
                RemoteCommand::ReadRegisters,
            ) {
                Err((kind, m)) if self@.remote => r is Err && r->Err_0.message@
                    == register_read_failure(m),
                _ => r is Ok && registers_at(shown_pc(self@), r->Ok_0@),
            },
    {
        match self.ensure_target() {
            Ok(()) => {},
            Err(e) => {
                return Err(e);
            },
        }
        if self.backend == EngineBackend::Remote {
            if let Err(error) = self.remote_adapter.dispatch(RemoteCommand::ReadRegisters) {
                let kind = classify_remote_error(error.message.as_str());
                let mut message = concat(
                    "Remote read-register failed (",
                    kind.to_string().as_str(),
                );
                message.append("): ");
                message.append(error.message.as_str());
                return Err(CoreError::new(message));
            }
        }
        Ok(self.computed_registers())
    }

    /// Reads `size` bytes at `address` from the target's image (zeros
    /// outside it); on the remote backend the remote must acknowledge the
    /// read first.
    fn read_memory(&mut self, address: u64, size: usize) -> (r: Result<MemorySnapshot, CoreError>)
        ensures
            final(self)@ == read_memory_step(old(self)@, address, size as nat).0,
            match read_memory_step(old(self)@, address, size as nat).1 {
                Ok(bytes) => r is Ok && r->Ok_0.address == address && r->Ok_0.bytes@ == bytes,
                Err(m) => r is Err && r->Err_0.message@ == m,
            },
    {
        match self.ensure_target() {
            Ok(()) => {},
            Err(e) => {
                return Err(e);
            },
        }
        if self.backend == EngineBackend::Remote {
            match self.dispatch_remote_command(RemoteCommand::ReadMemory { address, size }) {
                Ok(()) => {},
                Err(e) => {
                    return Err(e);
                },
            }
        }
        let bytes = image_window(&self.binary_bytes, address, size);
        Ok(MemorySnapshot { address, bytes })
    }

    /// The disassembly of the target.
    fn fetch_disassembly(&self) -> (r: Result<Vec<AssemblyInstruction>, CoreError>)
        ensures
            has_target(self@) ==> (r matches Ok(ins) && instruction_views(ins@) == self@.code),
            !has_target(self@) ==> (r matches Err(e) && e.message@ == no_target_message()),
    {
        match self.ensure_target() {
            Ok(()) => {},
            Err(e) => {
                return Err(e);
            },
        }
        let ins = self.instructions.clone();
        assert(ins@ =~= self.instructions@);
        Ok(ins)
    }

    /// Everything the user interface shows, at this moment.
    fn snapshot(&self) -> (s: DebuggerSnapshot)
        ensures
            opt_text(s.binary_path) == self@.binary_path,
            opt_text(s.attached_target) == self@.attached_label,
            s.state == self@.state,
            s.current_pc == current_pc(self@),
            instruction_views(s.instructions@) == self@.code,
            s.breakpoints@ == self@.breakpoints,
            registers_at(shown_pc(self@), s.registers@),
            s.memory.address == self@.memory_address,
            s.memory.bytes@ == self@.memory,
            s.remote@ == self@.status,
    {
        let instructions = self.instructions.clone();
        assert(instructions@ =~= self.instructions@);
        DebuggerSnapshot {
            binary_path: copy_text(&self.binary_path),
            attached_target: copy_text(&self.attached_target_label),
            state: self.state,
            current_pc: self.current_pc(),
            instructions,
            breakpoints: copy_breakpoints(&self.breakpoints),
            registers: self.computed_registers(),
            memory: self.memory.clone(),
            remote: self.remote_session.status(),
        }
    }
}

} // verus!
