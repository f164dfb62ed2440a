//! The colours of the x64dbg-like theme.
use vstd::prelude::*;

use crate::text::same_text;

verus! {

/// An opaque colour by its red, green and blue components.
#[derive(Debug, Clone, Copy, PartialEq, Eq, Structural)]
pub struct Rgb {
    pub r: u8,
    pub g: u8,
    pub b: u8,
}

/// The colour with the given components.
pub open spec fn rgb(r: u8, g: u8, b: u8) -> Rgb {
    Rgb { r, g, b }
}

/// The palette of the x64dbg-like theme.
#[derive(Debug, Clone, Copy, PartialEq, Eq, Structural)]
pub struct UiPalette {
    pub panel_bg: Rgb,
    pub panel_border: Rgb,
    pub text_primary: Rgb,
    pub text_muted: Rgb,
    pub accent_blue: Rgb,
    pub accent_red: Rgb,
    pub accent_green: Rgb,
    pub accent_orange: Rgb,
}

impl UiPalette {
    /// The dark palette modelled on x64dbg.
    pub fn x64dbg_parity() -> (p: Self)
        ensures
            p.panel_bg == rgb(26, 30, 36),
            p.panel_border == rgb(54, 62, 70),
            p.text_primary == rgb(214, 221, 230),
            p.text_muted == rgb(141, 153, 167),
            p.accent_blue == rgb(121, 186, 255),
            p.accent_red == rgb(229, 88, 88),
            p.accent_green == rgb(121, 201, 139),
            p.accent_orange == rgb(242, 183, 95),
    {
        UiPalette {
            panel_bg: Rgb { r: 26, g: 30, b: 36 },
            panel_border: Rgb { r: 54, g: 62, b: 70 },
            text_primary: Rgb { r: 214, g: 221, b: 230 },
            text_muted: Rgb { r: 141, g: 153, b: 167 },
            accent_blue: Rgb { r: 121, g: 186, b: 255 },
            accent_red: Rgb { r: 229, g: 88, b: 88 },
            accent_green: Rgb { r: 121, g: 201, b: 139 },
            accent_orange: Rgb { r: 242, g: 183, b: 95 },
        }
    }
}

/// The background behind the text input fields.
pub fn extreme_background() -> (c: Rgb)
    ensures
        c == rgb(19, 22, 28),
{
    Rgb { r: 19, g: 22, b: 28 }
}

/// The colour of a mnemonic: calls and branches orange, returns red,
/// comparisons green, the rest blue.
pub open spec fn mnemonic_color_of(m: Seq<char>) -> Rgb {
    if m == "bl"@ || m == "b.ne"@ {
        rgb(239, 178, 67)
    } else if m == "ret"@ {
        rgb(236, 125, 98)
    } else if m == "cmp"@ {
        rgb(121, 201, 176)
    } else {
        rgb(135, 191, 249)
    }
}

/// The colour of a mnemonic in the disassembly.
pub fn mnemonic_color(mnemonic: &str) -> (c: Rgb)
    ensures
        c == mnemonic_color_of(mnemonic@),
{
    if same_text(mnemonic, "bl") || same_text(mnemonic, "b.ne") {
        Rgb { r: 239, g: 178, b: 67 }
    } else if same_text(mnemonic, "ret") {
        Rgb { r: 236, g: 125, b: 98 }
    } else if same_text(mnemonic, "cmp") {
        Rgb { r: 121, g: 201, b: 176 }
    } else {
        Rgb { r: 135, g: 191, b: 249 }
    }
}

} // verus!
