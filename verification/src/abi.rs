//! Numbers of the engine's C ABI that the seat's decisions compare against, and the packing
//! of mode identifiers (low 15 bits = value, top bit = ANSI flag; 0 = DEC private).

use vstd::prelude::*;

verus! {

/// `GhosttyResult`: the call succeeded.
pub const SUCCESS: i32 = 0;
/// `GhosttyResult`: the caller's buffer was too small; the needed length was written back.
pub const OUT_OF_SPACE: i32 = -3;

/// `GhosttyTerminalScreen`: the alternate screen.
pub const SCREEN_ALTERNATE: i32 = 1;

/// `GhosttyPointTag`: a coordinate on the visible screen.
pub const POINT_TAG_ACTIVE: i32 = 0;
/// `GhosttyPointTag`: a coordinate in the scrollback, 0 = oldest retained row.
pub const POINT_TAG_HISTORY: i32 = 3;

/// `GhosttyCellContentTag`: a codepoint followed by a grapheme cluster.
pub const CONTENT_CODEPOINT_GRAPHEME: i32 = 1;
/// `GhosttyCellContentTag`: a text-less cell whose content is a palette background.
pub const CONTENT_BG_COLOR_PALETTE: i32 = 2;
/// `GhosttyCellContentTag`: a text-less cell whose content is an RGB background.
pub const CONTENT_BG_COLOR_RGB: i32 = 3;

/// `GhosttyCellWide`: a one-column cell.
pub const WIDE_NARROW: i32 = 0;
/// `GhosttyCellWide`: the body of a two-column character.
pub const WIDE_WIDE: i32 = 1;
/// `GhosttyCellWide`: the column after a wide body.
pub const WIDE_SPACER_TAIL: i32 = 2;
/// `GhosttyCellWide`: the last column of a row whose wide character wrapped.
pub const WIDE_SPACER_HEAD: i32 = 3;

/// `GhosttyStyleColorTag`: a palette index.
pub const STYLE_COLOR_PALETTE: i32 = 1;
/// `GhosttyStyleColorTag`: an RGB triple.
pub const STYLE_COLOR_RGB: i32 = 2;

/// `GhosttySgrUnderline`: no underline.
pub const SGR_UNDERLINE_NONE: i32 = 0;

/// The flag bit that marks an ANSI (non-private) mode in a packed identifier.
pub const ANSI_FLAG: u16 = 0x8000;

/// The mask of the value bits of a packed mode identifier.
pub const MODE_VALUE_MASK: u16 = 0x7FFF;

/// The packed identifier of DEC private mode `value`.
pub open spec fn spec_dec_mode(value: u16) -> u16 {
    value & MODE_VALUE_MASK
}

/// The packed identifier of ANSI mode `value`.
pub open spec fn spec_ansi_mode(value: u16) -> u16 {
    (value & MODE_VALUE_MASK) | ANSI_FLAG
}

/// Packs a DEC private mode: its value bits, with the ANSI flag clear.
pub fn dec_mode(value: u16) -> (packed: u16)
    ensures
        packed == spec_dec_mode(value),
{
    value & 0x7FFF
}

/// Packs an ANSI mode: its value bits, with the ANSI flag set.
pub fn ansi_mode(value: u16) -> (packed: u16)
    ensures
        packed == spec_ansi_mode(value),
{
    let flag: u16 = 1u16 << 15u16;
    assert(flag == ANSI_FLAG) by (bit_vector)
        requires
            flag == 1u16 << 15u16,
    ;
    (value & 0x7FFF) | flag
}

/// A packed identifier keeps the mode's value bits and says which family it belongs to:
/// the ANSI flag is clear for a DEC private mode and set for an ANSI mode, so a DEC mode and an
/// ANSI mode never share an identifier, and packing is the identity on a value below 0x8000.
pub proof fn law_mode_packing(a: u16, b: u16)
    ensures
        spec_dec_mode(a) & MODE_VALUE_MASK == a & MODE_VALUE_MASK,
        spec_ansi_mode(a) & MODE_VALUE_MASK == a & MODE_VALUE_MASK,
        spec_dec_mode(a) & ANSI_FLAG == 0,
        spec_ansi_mode(a) & ANSI_FLAG == ANSI_FLAG,
        spec_dec_mode(a) != spec_ansi_mode(b),
        spec_dec_mode(spec_dec_mode(a)) == spec_dec_mode(a),
        a < 0x8000 ==> spec_dec_mode(a) == a,
        a < 0x8000 ==> spec_ansi_mode(a) == a + 0x8000,
{
    assert(
        (a & 0x7FFFu16) & 0x7FFFu16 == a & 0x7FFFu16
        && ((a & 0x7FFFu16) | 0x8000u16) & 0x7FFFu16 == a & 0x7FFFu16
        && (a & 0x7FFFu16) & 0x8000u16 == 0
        && ((a & 0x7FFFu16) | 0x8000u16) & 0x8000u16 == 0x8000u16
        && (a & 0x7FFFu16) != ((b & 0x7FFFu16) | 0x8000u16)
        && (a < 0x8000u16 ==> a & 0x7FFFu16 == a)
        && (a < 0x8000u16 ==> (a & 0x7FFFu16) | 0x8000u16 == a + 0x8000u16)
    ) by (bit_vector);
}

} // verus!
