//! Properties of the engine that span its operations: the disassembly stays
//! ordered, execution moves forward, toggles undo themselves, and remote
//! sessions settle as their configuration says.
use vstd::prelude::*;

use crate::debugger::engine::{
    EngineView, attach_step, base_address_value, connect_attempted, connect_begun,
    connect_retries, connect_settled, probe_at, continued, current_pc, disassembly_of, first_break_from,
    byte_sum, has_target, loaded, max_image_len, memory_window, paused, read_memory_step,
    registers_at, remote_disconnected, remote_label, stepped, toggled,
};
use crate::debugger::remote::xdbg_adapter::{RemoteProbe, connect_result, session_id_text};
use crate::debugger::session::{connected_view, degraded_view};
use crate::debugger::types::{SessionLifecycle, transition_allowed};
use crate::text::{decimal_seq, hex_seq};
use crate::types::{
    AttachProbe, AttachRequest, ExecutionState, InstructionView, RegisterValue, RemoteConfig,
    disconnected_view,
};

verus! {

/// Whether the addresses of `code` increase along it.
pub open spec fn addresses_increase(code: Seq<InstructionView>) -> bool {
    forall|i: int, j: int| 0 <= i < j < code.len() ==> code[i].address < code[j].address
}

/// Whether the disassembly shown is that of the image (or has been cleared),
/// and the image is small enough for its addresses to fit in 64 bits.
pub open spec fn code_consistent(v: EngineView) -> bool {
    &&& v.image.len() <= max_image_len()
    &&& (v.code == disassembly_of(v.image) || v.code.len() == 0)
}

/// The disassembly of an image starts at the base address, its instructions
/// are four bytes apart, and a non-empty image has at least one.
pub proof fn disassembly_layout(bytes: Seq<u8>)
    requires
        bytes.len() <= max_image_len(),
    ensures
        forall|i: int|
            0 <= i < disassembly_of(bytes).len() ==> #[trigger] disassembly_of(bytes)[i].address
                == base_address_value() + 4 * i,
        addresses_increase(disassembly_of(bytes)),
        bytes.len() > 0 <==> disassembly_of(bytes).len() > 0,
{
    let d = disassembly_of(bytes);
    assert forall|i: int| 0 <= i < d.len() implies #[trigger] d[i].address == base_address_value()
        + 4 * i by {
        assert(4 * i < 4 * d.len());
    }
}

/// Every operation of the engine keeps the disassembly consistent with the
/// image; a new engine (no image, no code) is consistent.
pub proof fn operations_keep_code_consistent(
    v: EngineView,
    address: u64,
    size: nat,
    path: Seq<char>,
    bytes: Seq<u8>,
    request: AttachRequest,
    attach_probe: AttachProbe,
    config: RemoteConfig,
    probe: RemoteProbe,
    probes: Seq<RemoteProbe>,
)
    requires
        code_consistent(v),
    ensures
        code_consistent(toggled(v, address)),
        code_consistent(stepped(v).0),
        code_consistent(continued(v).0),
        code_consistent(paused(v).0),
        code_consistent(read_memory_step(v, address, size).0),
        bytes.len() <= max_image_len() ==> code_consistent(loaded(v, path, bytes)),
        code_consistent(attach_step(v, request, attach_probe).0),
        code_consistent(connect_begun(v, config)),
        code_consistent(connect_attempted(v, config, probe)),
        code_consistent(connect_settled(v, config, probes, 0)),
        code_consistent(remote_disconnected(v)),
{
    settled_keeps_code_consistent(v, config, probes, 0);
}

proof fn settled_keeps_code_consistent(
    v: EngineView,
    config: RemoteConfig,
    probes: Seq<RemoteProbe>,
    i: nat,
)
    requires
        code_consistent(v),
    ensures
        code_consistent(connect_settled(v, config, probes, i)),
    decreases v.retries_left,
{
    let probe = probe_at(probes, i);
    if connect_retries(v, config, probe) {
        settled_keeps_code_consistent(connect_attempted(v, config, probe), config, probes, i + 1);
    }
}

proof fn first_break_facts(code: Seq<InstructionView>, breaks: Set<u64>, j: nat)
    ensures
        match first_break_from(code, breaks, j) {
            Some(k) => {
                &&& j <= k < code.len()
                &&& breaks.contains(code[k as int].address)
                &&& forall|i: int| j <= i < k ==> !breaks.contains(#[trigger] code[i].address)
            },
            None => forall|i: int| j <= i < code.len() ==> !breaks.contains(#[trigger] code[i].address),
        },
    decreases code.len() - j,
{
    if j < code.len() && !breaks.contains(code[j as int].address) {
        first_break_facts(code, breaks, j + 1);
    }
}

/// A step that reports an address has moved the program counter to it, and
/// that address is above the one it left.
pub proof fn step_moves_forward(v: EngineView, p: u64)
    requires
        code_consistent(v),
        stepped(v).1 == Ok::<Option<u64>, Seq<char>>(Some(p)),
    ensures
        current_pc(v) matches Some(q) && q < p,
        current_pc(stepped(v).0) == Some(p),
{
    disassembly_layout(v.image);
}

/// Continuing that reports an address has stopped at the first instruction
/// after the current one that carries a breakpoint: that address.
pub proof fn continue_stops_at_first_breakpoint(v: EngineView, p: u64)
    requires
        code_consistent(v),
        continued(v).1 == Ok::<Option<u64>, Seq<char>>(Some(p)),
    ensures
        v.breakpoints.contains(p),
        current_pc(v) matches Some(q) && q < p,
        current_pc(continued(v).0) == Some(p),
        forall|i: int|
            v.pc_index < i < continued(v).0.pc_index ==> !v.breakpoints.contains(
                #[trigger] v.code[i].address,
            ),
{
    disassembly_layout(v.image);
    first_break_facts(v.code, v.breakpoints, v.pc_index + 1);
}

/// Continuing that reports no address has found no breakpoint on any
/// instruction after the current one.
pub proof fn continue_without_breakpoint_runs_to_end(v: EngineView)
    requires
        continued(v).1 == Ok::<Option<u64>, Seq<char>>(None),
    ensures
        forall|i: int|
            v.pc_index < i < v.code.len() ==> !v.breakpoints.contains(#[trigger] v.code[i].address),
{
    first_break_facts(v.code, v.breakpoints, v.pc_index + 1);
}

/// Toggling the same breakpoint twice leaves the engine as it was.
pub proof fn toggle_twice_restores(v: EngineView, address: u64)
    ensures
        toggled(toggled(v, address), address) == v,
{
    if has_target(v) {
        if v.breakpoints.contains(address) {
            assert(v.breakpoints.remove(address).insert(address) =~= v.breakpoints);
        } else {
            assert(v.breakpoints.insert(address).remove(address) =~= v.breakpoints);
        }
    }
}

/// A memory read that succeeds gives exactly the bytes asked for, taken from
/// the image at the base address onwards.
pub proof fn read_memory_gives_requested_bytes(v: EngineView, address: u64, size: nat)
    requires
        read_memory_step(v, address, size).1 is Ok,
    ensures
        read_memory_step(v, address, size).1->Ok_0.len() == size,
        read_memory_step(v, address, size).1->Ok_0 == memory_window(v.image, address, size),
{
}

/// The registers shown hold exactly one named `pc`, the last.
pub proof fn registers_have_one_pc(pc: u64, regs: Seq<RegisterValue>)
    requires
        registers_at(pc, regs),
    ensures
        forall|i: int| 0 <= i < regs.len() ==> ((#[trigger] regs[i]).name@ == "pc"@ <==> i == 32),
        regs[32].value == pc,
{
    reveal_strlit("pc");
    reveal_strlit("fp");
    reveal_strlit("lr");
    reveal_strlit("sp");
    reveal_strlit("x");
    assert forall|i: int| 0 <= i < regs.len() implies ((#[trigger] regs[i]).name@ == "pc"@ <==> i
        == 32) by {
        if i < 29 {
            let name = "x"@ + decimal_seq(i as nat);
            assert(name[0] != "pc"@[0]);
            assert(regs[i].name@ == name);
        } else if i == 29 {
            assert("fp"@[0] != "pc"@[0]);
        } else if i == 30 {
            assert("lr"@[0] != "pc"@[0]);
        } else if i == 31 {
            assert("sp"@[0] != "pc"@[0]);
        }
    }
}

/// Opening a remote session ends connected when the endpoint accepts some
/// attempt `k` within the retry budget after refusing the ones before it,
/// whatever the engine held before, unless remote operations are made to
/// time out: connected to the endpoint, under the id that attempt made.
pub proof fn accepted_connection_connects(
    v: EngineView,
    config: RemoteConfig,
    probes: Seq<RemoteProbe>,
    k: nat,
)
    requires
        !v.forced_timeout,
        probes.len() > 0,
        k <= config.retry_count,
        forall|j: nat|
            j < k ==> connect_result(config, false, (#[trigger] probe_at(probes, j)).network) is Err,
        connect_result(config, false, probe_at(probes, k).network) is Ok,
    ensures
        ({
            let endpoint = connect_result(config, false, probe_at(probes, k).network)->Ok_0;
            let w = connect_settled(connect_begun(v, config), config, probes, 0);
            &&& w.status == connected_view(
                config.endpoint@,
                session_id_text(endpoint, probe_at(probes, k).now_millis),
            )
            &&& w.remote
            &&& w.attached_label == Some(remote_label(config.endpoint@))
            &&& w.binary_path is None
            &&& w.retries_left == config.retry_count
        }),
{
    accepted_after_refusals(connect_begun(v, config), config, probes, 0, k);
}

proof fn accepted_after_refusals(
    v: EngineView,
    config: RemoteConfig,
    probes: Seq<RemoteProbe>,
    i: nat,
    k: nat,
)
    requires
        !v.forced_timeout,
        v.remote_config == Some(config),
        i <= k <= i + v.retries_left,
        forall|j: nat|
            i <= j < k ==> connect_result(config, false, (#[trigger] probe_at(probes, j)).network)
                is Err,
        connect_result(config, false, probe_at(probes, k).network) is Ok,
    ensures
        ({
            let endpoint = connect_result(config, false, probe_at(probes, k).network)->Ok_0;
            let w = connect_settled(v, config, probes, i);
            &&& w.status == connected_view(
                config.endpoint@,
                session_id_text(endpoint, probe_at(probes, k).now_millis),
            )
            &&& w.remote
            &&& w.attached_label == Some(remote_label(config.endpoint@))
            &&& w.binary_path is None
            &&& w.retries_left == config.retry_count
        }),
    decreases v.retries_left,
{
    if i < k {
        let probe = probe_at(probes, i);
        assert(connect_result(config, false, probe.network) is Err);
        accepted_after_refusals(connect_attempted(v, config, probe), config, probes, i + 1, k);
    }
}

/// Disconnecting ends the remote session, and connecting again to an
/// endpoint that accepts restores it (unless remote operations are made to
/// time out).
pub proof fn reconnect_after_disconnect(
    v: EngineView,
    config: RemoteConfig,
    probes: Seq<RemoteProbe>,
)
    requires
        !v.forced_timeout,
        probes.len() > 0,
        connect_result(config, false, probe_at(probes, 0).network) is Ok,
    ensures
        remote_disconnected(v).status == disconnected_view(),
        !remote_disconnected(v).remote,
        connect_settled(connect_begun(remote_disconnected(v), config), config, probes, 0).status
            == connected_view(
            config.endpoint@,
            session_id_text(
                connect_result(config, false, probe_at(probes, 0).network)->Ok_0,
                probe_at(probes, 0).now_millis,
            ),
        ),
{
    accepted_connection_connects(remote_disconnected(v), config, probes, 0);
}

/// Opening a remote session whose every attempt the endpoint refuses spends
/// every retry and ends degraded with the last refusal's kind and message,
/// back on the local backend, with the target untouched.
pub proof fn refused_connection_spends_retries(
    v: EngineView,
    config: RemoteConfig,
    probes: Seq<RemoteProbe>,
)
    requires
        forall|j: nat|
            j <= config.retry_count ==> connect_result(
                config,
                v.forced_timeout,
                (#[trigger] probe_at(probes, j)).network,
            ) is Err,
    ensures
        ({
            let (kind, message) = connect_result(
                config,
                v.forced_timeout,
                probe_at(probes, config.retry_count as nat).network,
            )->Err_0;
            let w = connect_settled(connect_begun(v, config), config, probes, 0);
            &&& w.status == degraded_view(config.endpoint@, kind, message)
            &&& w.retries_left == 0
            &&& !w.remote
            &&& w.code == v.code
            &&& w.breakpoints == v.breakpoints
            &&& w.pc_index == v.pc_index
            &&& w.binary_path == v.binary_path
            &&& w.attached_label == v.attached_label
        }),
{
    refused_attempts(connect_begun(v, config), config, probes, 0);
}

proof fn refused_attempts(v: EngineView, config: RemoteConfig, probes: Seq<RemoteProbe>, i: nat)
    requires
        forall|j: nat|
            i <= j <= i + v.retries_left ==> connect_result(
                config,
                v.forced_timeout,
                (#[trigger] probe_at(probes, j)).network,
            ) is Err,
    ensures
        ({
            let (kind, message) = connect_result(
                config,
                v.forced_timeout,
                probe_at(probes, (i + v.retries_left) as nat).network,
            )->Err_0;
            let w = connect_settled(v, config, probes, i);
            &&& w.status == degraded_view(config.endpoint@, kind, message)
            &&& w.retries_left == 0
            &&& !w.remote
            &&& w == (EngineView { status: w.status, retries_left: 0, remote: false, ..v })
        }),
    decreases v.retries_left,
{
    let probe = probe_at(probes, i);
    assert(connect_result(config, v.forced_timeout, probe.network) is Err);
    if connect_retries(v, config, probe) {
        let w = connect_attempted(v, config, probe);
        assert(i + 1 + w.retries_left == i + v.retries_left);
        refused_attempts(w, config, probes, i + 1);
    }
}

/// A session only becomes attached from the attaching phase (or stays so).
pub proof fn attached_only_after_attaching(from: SessionLifecycle)
    ensures
        transition_allowed(from, SessionLifecycle::Attached) <==> (from
            == SessionLifecycle::Attaching || from == SessionLifecycle::Attached),
{
}


/// The byte sum of the 4-byte chunk `i` of `bytes` (the last chunk may be
/// shorter).
pub open spec fn chunk_sum(bytes: Seq<u8>, i: int) -> nat {
    byte_sum(bytes.subrange(4 * i, if 4 * i + 4 <= bytes.len() { 4 * i + 4 } else { bytes.len() as int }))
}

/// Loading a non-empty binary makes its bytes the image and shows one
/// instruction per 4-byte chunk: instruction `i` sits at `0x1000 + 4 * i`;
/// with `s` the byte sum of its chunk, its mnemonic is entry `s mod 8` of
/// stp, ldr, str, mov, bl, cmp, b.ne, ret, and its operands read
/// `x<r>, #0x<m>` for the register number `r` below 29 with `r = s (mod 29)`
/// and the immediate `m` below 512 with `m = s (mod 512)`. The target
/// starts at its first instruction, paused, with no breakpoints.
pub proof fn loaded_disassembly_follows_chunk_sums(v: EngineView, path: Seq<char>, bytes: Seq<u8>)
    requires
        0 < bytes.len() <= max_image_len(),
    ensures
        ({
            let w = loaded(v, path, bytes);
            &&& w.image == bytes
            &&& w.code.len() == (bytes.len() + 3) / 4
            &&& w.breakpoints == Set::<u64>::empty()
            &&& w.pc_index == 0
            &&& current_pc(w) == Some(0x1000u64)
            &&& w.state == ExecutionState::Paused
            &&& forall|i: int|
                0 <= i < w.code.len() ==> {
                    let s = chunk_sum(bytes, i);
                    &&& (#[trigger] w.code[i]).address == 0x1000 + 4 * i
                    &&& w.code[i].mnemonic == seq![
                        "stp"@,
                        "ldr"@,
                        "str"@,
                        "mov"@,
                        "bl"@,
                        "cmp"@,
                        "b.ne"@,
                        "ret"@,
                    ][(s % 8) as int]
                    &&& exists|r: nat, m: nat|
                        r < 29 && (s - r) % 29 == 0 && m < 512 && (s - m) % 512 == 0
                            && w.code[i].operands == "x"@ + decimal_seq(r) + ", #0x"@ + hex_seq(m)
                }
        }),
{
    let w = loaded(v, path, bytes);
    disassembly_layout(bytes);
    assert(w.code == disassembly_of(bytes));
    assert forall|i: int| 0 <= i < w.code.len() implies {
        let s = chunk_sum(bytes, i);
        &&& (#[trigger] w.code[i]).address == 0x1000 + 4 * i
        &&& w.code[i].mnemonic == seq![
            "stp"@,
            "ldr"@,
            "str"@,
            "mov"@,
            "bl"@,
            "cmp"@,
            "b.ne"@,
            "ret"@,
        ][(s % 8) as int]
        &&& exists|r: nat, m: nat|
            r < 29 && (s - r) % 29 == 0 && m < 512 && (s - m) % 512 == 0
                && w.code[i].operands == "x"@ + decimal_seq(r) + ", #0x"@ + hex_seq(m)
    } by {
        chunk_instruction(bytes, i);
    }
}

proof fn chunk_instruction(bytes: Seq<u8>, i: int)
    requires
        bytes.len() <= max_image_len(),
        0 <= i < disassembly_of(bytes).len(),
    ensures
        ({
            let s = chunk_sum(bytes, i);
            let c = disassembly_of(bytes)[i];
            &&& c.address == 0x1000 + 4 * i
            &&& c.mnemonic == seq![
                "stp"@,
                "ldr"@,
                "str"@,
                "mov"@,
                "bl"@,
                "cmp"@,
                "b.ne"@,
                "ret"@,
            ][(s % 8) as int]
            &&& exists|r: nat, m: nat|
                r < 29 && (s - r) % 29 == 0 && m < 512 && (s - m) % 512 == 0 && c.operands == "x"@
                    + decimal_seq(r) + ", #0x"@ + hex_seq(m)
        }),
{
    disassembly_layout(bytes);
    let s = chunk_sum(bytes, i);
    let c = disassembly_of(bytes)[i];
    let r = s % 29;
    let m = s % 512;
    assert((s - r) % 29 == 0) by (nonlinear_arith)
        requires
            r == s % 29,
    ;
    assert((s - m) % 512 == 0) by (nonlinear_arith)
        requires
            m == s % 512,
    ;
    assert(c.operands == "x"@ + decimal_seq(r) + ", #0x"@ + hex_seq(m));
    let k = s % 8;
    assert(0 <= k < 8);
}

/// Every register but the last holds the program counter plus sixteen times
/// its index, wrapping at 2^64; the last, named `pc`, holds the program
/// counter. The names are `x0`..`x28`, then `fp`, `lr`, `sp` and `pc`.
pub proof fn register_values_step_by_sixteen(pc: u64, regs: Seq<RegisterValue>)
    requires
        registers_at(pc, regs),
    ensures
        regs.len() == 33,
        forall|i: int|
            0 <= i < 32 ==> (#[trigger] regs[i]).value as int == (pc as int + 16 * i)
                % 0x1_0000_0000_0000_0000,
        regs[32].value == pc,
        forall|i: int| 0 <= i < 29 ==> (#[trigger] regs[i]).name@ == "x"@ + decimal_seq(i as nat),
        regs[29].name@ == "fp"@,
        regs[30].name@ == "lr"@,
        regs[31].name@ == "sp"@,
        regs[32].name@ == "pc"@,
{
    assert forall|i: int| 0 <= i < 32 implies (#[trigger] regs[i]).value as int == (pc as int
        + 16 * i) % 0x1_0000_0000_0000_0000 by {
        let x = pc as int + 16 * i;
        if x > u64::MAX {
            assert(x % 0x1_0000_0000_0000_0000 == x - 0x1_0000_0000_0000_0000) by (nonlinear_arith)
                requires
                    0x1_0000_0000_0000_0000 <= x < 0x2_0000_0000_0000_0000,
            ;
        } else {
            assert(x % 0x1_0000_0000_0000_0000 == x) by (nonlinear_arith)
                requires
                    0 <= x < 0x1_0000_0000_0000_0000,
            ;
        }
    }
    assert(regs[29].name@ == "fp"@);
    assert(regs[30].name@ == "lr"@);
    assert(regs[31].name@ == "sp"@);
    assert(regs[32].name@ == "pc"@);
}

/// A memory read that succeeds gives, at each index `i`, the image byte at
/// `address - 0x1000 + i` (the image starts at `0x1000`; addresses below
/// it read from the image's start), and zero past the image's end.
pub proof fn memory_reads_follow_the_image(v: EngineView, address: u64, size: nat)
    requires
        read_memory_step(v, address, size).1 is Ok,
    ensures
        ({
            let b = read_memory_step(v, address, size).1->Ok_0;
            let offset: int = if address >= 0x1000 { address - 0x1000 } else { 0 };
            &&& b.len() == size
            &&& forall|i: int|
                0 <= i < size ==> #[trigger] b[i] == (if offset + i < v.image.len() {
                    v.image[offset + i]
                } else {
                    0u8
                })
        }),
{
}

/// A successful attach makes the process a fresh local target: the loaded
/// binary and every breakpoint of the previous target are gone, and the
/// target is paused at its first instruction, at `0x1000`.
pub proof fn attach_starts_fresh(v: EngineView, request: AttachRequest, probe: AttachProbe)
    requires
        attach_step(v, request, probe).1,
    ensures
        ({
            let w = attach_step(v, request, probe).0;
            &&& w.breakpoints == Set::<u64>::empty()
            &&& w.pc_index == 0
            &&& w.code.len() == 16
            &&& current_pc(w) == Some(0x1000u64)
            &&& w.state == ExecutionState::Paused
            &&& !w.remote
            &&& w.binary_path is None
            &&& w.phase == SessionLifecycle::Attached
        }),
{
    let w = attach_step(v, request, probe).0;
    disassembly_layout(w.image);
}

/// A remote connection attempt that succeeds makes the remote endpoint a
/// fresh target: every breakpoint of the previous target is gone, and the
/// target is at its first instruction, at `0x1000`.
pub proof fn accepted_attempt_starts_fresh(v: EngineView, config: RemoteConfig, probe: RemoteProbe)
    requires
        connect_result(config, v.forced_timeout, probe.network) is Ok,
    ensures
        ({
            let w = connect_attempted(v, config, probe);
            &&& w.breakpoints == Set::<u64>::empty()
            &&& w.pc_index == 0
            &&& w.code.len() == 16
            &&& current_pc(w) == Some(0x1000u64)
            &&& w.binary_path is None
        }),
{
    let w = connect_attempted(v, config, probe);
    disassembly_layout(w.image);
}

} // verus!
