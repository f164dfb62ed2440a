//! How the disassembly and the registers are laid out, row by row.
use std::collections::HashSet;

use vstd::prelude::*;
use vstd::std_specs::hash::group_hash_axioms;

use crate::text::{concat, hex_padded, hex_seq, pad_left, pad_right, pad_string};
use crate::types::{AssemblyInstruction, RegisterValue};
use crate::ui::style::{Rgb, mnemonic_color, mnemonic_color_of, rgb};

verus! {

broadcast use group_hash_axioms;

/// An address as shown: `0x` and sixteen hexadecimal digits.
pub open spec fn address_text(address: u64) -> Seq<char> {
    "0x"@ + pad_left(hex_seq(address as nat), '0', 16)
}

/// An address as shown: `0x` and sixteen hexadecimal digits.
pub fn format_address(address: u64) -> (s: String)
    ensures
        s@ == address_text(address),
{
    concat("0x", hex_padded(address as u128, 16).as_str())
}

/// One row of the disassembly as shown.
#[derive(Debug)]
pub struct AssemblyRow {
    /// Whether the row is the current instruction, drawn on a highlight.
    pub highlighted: bool,
    /// The breakpoint marker, filled when a breakpoint is set.
    pub marker: String,
    pub marker_color: Rgb,
    pub address: String,
    /// The mnemonic, padded to eight columns.
    pub mnemonic: String,
    pub mnemonic_color: Rgb,
    pub operands: String,
}

/// The colour behind the current instruction.
pub fn current_row_fill() -> (c: Rgb)
    ensures
        c == rgb(42, 58, 74),
{
    Rgb { r: 42, g: 58, b: 74 }
}

/// How the instruction `ins` is shown, given the current instruction and
/// the breakpoints.
pub fn assembly_row(ins: &AssemblyInstruction, current_pc: Option<u64>, breakpoints: &HashSet<u64>) -> (row: AssemblyRow)
    ensures
        row.highlighted == (current_pc == Some(ins.address)),
        row.marker@ == (if breakpoints@.contains(ins.address) {
            "●"@
        } else {
            "○"@
        }),
        row.marker_color == (if breakpoints@.contains(ins.address) {
            rgb(225, 72, 72)
        } else {
            rgb(90, 90, 90)
        }),
        row.address@ == address_text(ins.address),
        row.mnemonic@ == pad_right(ins.mnemonic@, ' ', 8),
        row.mnemonic_color == mnemonic_color_of(ins.mnemonic@),
        row.operands@ == ins.operands@,
{
    let has_breakpoint = breakpoints.contains(&ins.address);
    let mut mnemonic = ins.mnemonic.clone();
    pad_string(&mut mnemonic, ' ', 8, false);
    AssemblyRow {
        highlighted: match current_pc {
            Some(pc) => pc == ins.address,
            None => false,
        },
        marker: if has_breakpoint {
            String::from_str("●")
        } else {
            String::from_str("○")
        },
        marker_color: if has_breakpoint {
            Rgb { r: 225, g: 72, b: 72 }
        } else {
            Rgb { r: 90, g: 90, b: 90 }
        },
        address: format_address(ins.address),
        mnemonic,
        mnemonic_color: mnemonic_color(ins.mnemonic.as_str()),
        operands: ins.operands.clone(),
    }
}

/// One register as shown: its name right-aligned in three columns, and its
/// value as an address.
pub fn register_row(reg: &RegisterValue) -> (row: (String, String))
    ensures
        row.0@ == pad_left(reg.name@, ' ', 3),
        row.1@ == address_text(reg.value),
{
    let mut name = reg.name.clone();
    pad_string(&mut name, ' ', 3, true);
    (name, format_address(reg.value))
}

} // verus!
