//! The identifiers of the main panels and the theme they are drawn with.
use vstd::prelude::*;

verus! {

/// The identifier of the disassembly panel.
pub const PANEL_ASSEMBLY: &'static str = "panel-assembly";

/// The identifier of the register panel.
pub const PANEL_REGISTERS: &'static str = "panel-registers";

/// The identifier of the memory panel.
pub const PANEL_MEMORY: &'static str = "panel-memory";

/// The identifier of the control panel.
pub const PANEL_CONTROL: &'static str = "panel-control";

/// The adapter that draws the x64dbg-like layout with egui.
#[derive(Debug, Clone, Copy, PartialEq, Eq, Structural)]
pub struct EguiParityAdapter;

impl EguiParityAdapter {
    /// The name of the theme the adapter draws with.
    pub fn theme_name(&self) -> (s: &'static str)
        ensures
            s@ == "x64dbg-parity-egui"@,
    {
        "x64dbg-parity-egui"
    }
}

} // verus!
