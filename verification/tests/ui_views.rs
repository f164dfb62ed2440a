use std::collections::HashSet;

use rust_lldb_visual_debugger::debugger::types::SessionLifecycle;
use rust_lldb_visual_debugger::types::{AssemblyInstruction, AttachErrorKind, RegisterValue};
use rust_lldb_visual_debugger::ui::assembly_view::{assembly_row, format_address, register_row};
use rust_lldb_visual_debugger::ui::layout::{
    EguiParityAdapter, PANEL_ASSEMBLY, PANEL_CONTROL, PANEL_MEMORY, PANEL_REGISTERS,
};
use rust_lldb_visual_debugger::ui::memory_viewer::{
    MemoryViewerState, format_dump_line, memory_dump, parse_address,
};
use rust_lldb_visual_debugger::types::{RemoteSessionState, RemoteSessionStatus};
use rust_lldb_visual_debugger::ui::status_bar::{lifecycle_badge, remote_badge, status_items};
use rust_lldb_visual_debugger::ui::style::{Rgb, UiPalette, mnemonic_color};

#[test]
fn panel_ids_are_stable_for_ui_acceptance_checks() {
    assert_eq!(PANEL_CONTROL, "panel-control");
    assert_eq!(PANEL_ASSEMBLY, "panel-assembly");
    assert_eq!(PANEL_REGISTERS, "panel-registers");
    assert_eq!(PANEL_MEMORY, "panel-memory");
}

#[test]
fn adapter_theme_name_is_stable() {
    assert_eq!(EguiParityAdapter.theme_name(), "x64dbg-parity-egui");
}

#[test]
fn lifecycle_badge_labels_match_expected_states() {
    let (detached, _) = lifecycle_badge(SessionLifecycle::Detached);
    let (attached, _) = lifecycle_badge(SessionLifecycle::Attached);
    let (failed, _) = lifecycle_badge(SessionLifecycle::Failed);

    assert_eq!(detached, "Attach: Detached");
    assert_eq!(attached, "Attach: Attached");
    assert_eq!(failed, "Attach: Failed");
}

#[test]
fn x64dbg_palette_has_distinct_status_colors() {
    let palette = UiPalette::x64dbg_parity();
    assert_ne!(palette.accent_red, palette.accent_green);
    assert_ne!(palette.accent_blue, palette.accent_orange);
}

#[test]
fn status_items_come_in_order() {
    let items = status_items(Some("ready"), Some(AttachErrorKind::Timeout), Some("pid:3"));
    assert_eq!(items.len(), 3);
    assert_eq!(items[0].0, "Target: pid:3");
    assert_eq!(items[1].0, "Attach error: timeout");
    assert_eq!(items[1].1, Rgb { r: 229, g: 88, b: 88 });
    assert_eq!(items[2].0, "ready");
    assert!(status_items(None, None, None).is_empty());
    assert_eq!(lifecycle_badge(SessionLifecycle::Attaching).1, Rgb { r: 250, g: 210, b: 140 });
}

#[test]
fn mnemonics_are_coloured_by_kind() {
    assert_eq!(mnemonic_color("bl"), Rgb { r: 239, g: 178, b: 67 });
    assert_eq!(mnemonic_color("b.ne"), Rgb { r: 239, g: 178, b: 67 });
    assert_eq!(mnemonic_color("ret"), Rgb { r: 236, g: 125, b: 98 });
    assert_eq!(mnemonic_color("cmp"), Rgb { r: 121, g: 201, b: 176 });
    assert_eq!(mnemonic_color("mov"), Rgb { r: 135, g: 191, b: 249 });
}

#[test]
fn assembly_rows_mark_pc_and_breakpoints() {
    let ins = AssemblyInstruction { address: 0x1004, mnemonic: "bl".to_string(), operands: "x1, #0x2".to_string() };
    let mut breakpoints = HashSet::new();
    let row = assembly_row(&ins, Some(0x1004), &breakpoints);
    assert!(row.highlighted);
    assert_eq!(row.marker, "○");
    assert_eq!(row.address, "0x0000000000001004");
    assert_eq!(row.mnemonic, "bl      ");
    assert_eq!(row.operands, "x1, #0x2");
    breakpoints.insert(0x1004);
    let row = assembly_row(&ins, Some(0x1000), &breakpoints);
    assert!(!row.highlighted);
    assert_eq!(row.marker, "●");
    assert_eq!(row.marker_color, Rgb { r: 225, g: 72, b: 72 });
    let reg = RegisterValue { name: "pc".to_string(), value: 0xdead_beef };
    assert_eq!(register_row(&reg), (" pc".to_string(), "0x00000000deadbeef".to_string()));
    assert_eq!(format_address(u64::MAX), "0xffffffffffffffff");
}

#[test]
fn memory_addresses_parse_in_hex_and_decimal() {
    assert_eq!(parse_address("0x1000"), Some(0x1000));
    assert_eq!(parse_address("  0XfF "), Some(255));
    assert_eq!(parse_address("4096"), Some(4096));
    assert_eq!(parse_address("0x"), None);
    assert_eq!(parse_address("0x10000000000000000"), None);
    assert_eq!(parse_address("zz"), None);
    assert_eq!(parse_address("18446744073709551615"), Some(u64::MAX));
}

#[test]
fn memory_viewer_pages_and_writes_back_the_address() {
    let mut state = MemoryViewerState::new();
    assert_eq!(state.page_size(), 0x100);
    assert_eq!(state.address_input, "0x1000");
    assert_eq!(state.previous_page(0x80), 0);
    assert_eq!(state.address_input, "0x0");
    assert_eq!(state.next_page(0x1000), 0x1100);
    assert_eq!(state.address_input, "0x1100");
    assert_eq!(parse_address(&state.address_input), Some(0x1100));
    assert_eq!(state.next_page(u64::MAX - 1), u64::MAX);
}

#[test]
fn memory_dump_lines_show_hex_and_text() {
    let line = format_dump_line(0x1000, &[0x41, 0x00, 0x7f, 0x7e]);
    assert_eq!(
        line,
        format!("0x0000000000001000  {:<47}  |A..~|", "41 00 7f 7e")
    );
    let bytes: Vec<u8> = (0u8..20).collect();
    let lines = memory_dump(0x2000, &bytes);
    assert_eq!(lines.len(), 2);
    assert!(lines[1].starts_with("0x0000000000002010  10 11 12 13 "));
    assert!(memory_dump(0, &Vec::new()).is_empty());
}

#[test]
fn remote_badge_names_the_session_phase() {
    let mut status = RemoteSessionStatus::disconnected();
    assert_eq!(remote_badge(&status).0, "Remote: Disconnected");
    status.state = RemoteSessionState::Connected;
    assert_eq!(remote_badge(&status), ("Remote: Connected".to_string(), Rgb { r: 121, g: 201, b: 139 }));
    status.state = RemoteSessionState::Degraded;
    assert_eq!(remote_badge(&status).0, "Remote: Degraded");
}
