//! X11 keysyms for the characters the portal is asked to type.

use vstd::prelude::*;

verus! {

/// Keysym of the Return key (`XK_Return`).
pub const XK_RETURN: u32 = 0xFF0D;

/// Keysym of the Tab key (`XK_Tab`).
pub const XK_TAB: u32 = 0xFF09;

/// Keysym of the BackSpace key (`XK_BackSpace`).
pub const XK_BACKSPACE: u32 = 0xFF08;

/// Prefix that turns a Unicode code point into a "Unicode keysym".
pub const UNICODE_KEYSYM_BASE: u32 = 0x0100_0000;

/// The keysym that stands for `ch`.
///
/// Line breaks, tab and backspace map to their function keys; every character
/// of the ISO-8859-1 range is its own keysym; any higher code point is sent as a
/// Unicode keysym, the code point added to `UNICODE_KEYSYM_BASE`.
pub open spec fn keysym_of(ch: char) -> u32 {
    if ch == '\n' || ch == '\r' {
        XK_RETURN
    } else if ch == '\t' {
        XK_TAB
    } else if ch == '\u{8}' {
        XK_BACKSPACE
    } else if (ch as u32) <= 0xFF {
        ch as u32
    } else {
        (UNICODE_KEYSYM_BASE + (ch as u32)) as u32
    }
}

/// Maps a character to the keysym sent for it; every character has one.
pub fn keysym_for_char(ch: char) -> (r: Option<u32>)
    ensures
        r == Some(keysym_of(ch)),
        keysym_of(ch) <= 0x0110_FFFF,
{
    let code: u32 = ch as u32;
    assert(code <= 0x10FFFF);
    if ch == '\n' || ch == '\r' {
        Some(XK_RETURN)
    } else if ch == '\t' {
        Some(XK_TAB)
    } else if ch == '\u{8}' {
        Some(XK_BACKSPACE)
    } else if code <= 0xFF {
        Some(code)
    } else {
        assert(0x0100_0000u32 | code == 0x0100_0000u32 + code) by (bit_vector)
            requires code <= 0x10FFFF;
        Some(UNICODE_KEYSYM_BASE | code)
    }
}

} // verus!
