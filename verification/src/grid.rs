//! Grid reads: what one grid reference of the engine holds, as plain values, and the
//! engine-neutral [`GridCell`] the serializer reads.
//!
//! A cell with a background but no text carries its color in its content, every other cell
//! carries it in its style, so both places are read. Palette colors keep their index (0..16
//! named, 16..256 indexed) instead of being resolved to RGB.

use vstd::prelude::*;

use crate::abi::{
    CONTENT_BG_COLOR_PALETTE, CONTENT_BG_COLOR_RGB, CONTENT_CODEPOINT_GRAPHEME, OUT_OF_SPACE,
    SGR_UNDERLINE_NONE, STYLE_COLOR_PALETTE, STYLE_COLOR_RGB, SUCCESS, WIDE_SPACER_HEAD,
    WIDE_SPACER_TAIL, WIDE_WIDE,
};

verus! {

/// An RGB triple as the engine reports it.
#[derive(Clone, Copy, Debug, PartialEq, Eq, Structural)]
pub struct ColorRgb {
    pub r: u8,
    pub g: u8,
    pub b: u8,
}

/// A color snapshot in the seat's own representation, so that no engine type leaves it.
#[derive(Clone, Copy, Debug, PartialEq, Eq, Structural)]
pub enum ColorSnap {
    Default,
    Named(u8),
    Indexed(u8),
    Rgb(u8, u8, u8),
}

/// A style color as read from the engine: its tag, and both readings of its value.
#[derive(Clone, Copy, Debug)]
pub struct StyleColor {
    pub tag: i32,
    pub palette: u8,
    pub rgb: ColorRgb,
}

/// The part of a cell's style that the seat reads.
#[derive(Clone, Copy, Debug)]
pub struct Style {
    pub fg_color: StyleColor,
    pub bg_color: StyleColor,
    pub bold: bool,
    pub italic: bool,
    pub faint: bool,
    pub inverse: bool,
    pub invisible: bool,
    pub strikethrough: bool,
    pub underline: i32,
}

/// What one grid reference says of its cell: the result of reading the cell, its width tag,
/// its content tag, its codepoint, its content colors (meaningful only for the matching
/// content tag) and its style.
#[derive(Clone, Copy, Debug)]
pub struct RawCell {
    pub cell_result: i32,
    pub wide_tag: i32,
    pub content_tag: i32,
    pub codepoint: u32,
    pub palette: u8,
    pub rgb: ColorRgb,
    pub style: Style,
}

/// What one grid reference says of its row: the result of reading the row, the result of
/// reading its wrap flag, and the flag.
#[derive(Clone, Copy, Debug)]
pub struct RawRow {
    pub row_result: i32,
    pub get_result: i32,
    pub wrap: bool,
}

/// The codepoints of a grapheme cluster as the engine wrote them into a buffer, and the
/// count it reported.
#[derive(Debug)]
pub struct GraphemeBuf {
    pub codepoints: Vec<u32>,
    pub len: usize,
}

/// Everything read through one grid reference: the cell, the row (read at the first column
/// only) and the grapheme cluster (read only where [`needs_graphemes`] says so).
#[derive(Debug)]
pub struct GridRead {
    pub cell: RawCell,
    pub row: Option<RawRow>,
    pub graphemes: Option<GraphemeBuf>,
}

/// The engine-neutral cell the serializer reads: everything serialization needs, spacers,
/// the row's wrap flag and zero-width followers included.
#[derive(Debug)]
pub struct GridCell {
    pub ch: char,
    pub fg: ColorSnap,
    pub bg: ColorSnap,
    pub bold: bool,
    pub dim: bool,
    pub italic: bool,
    pub underline: bool,
    pub inverse: bool,
    pub strikeout: bool,
    pub hidden: bool,
    /// The body of a wide character (the first of its two columns).
    pub wide: bool,
    /// The column after a wide body; the serializer skips it.
    pub spacer: bool,
    /// Meaningful on the last column only: the row continues by wrapping.
    pub wrapline: bool,
    /// Zero-width followers of the cell's character.
    pub zerowidth: Vec<char>,
}

/// The mathematical value of a [`GridCell`].
pub struct CellView {
    pub ch: char,
    pub fg: ColorSnap,
    pub bg: ColorSnap,
    pub bold: bool,
    pub dim: bool,
    pub italic: bool,
    pub underline: bool,
    pub inverse: bool,
    pub strikeout: bool,
    pub hidden: bool,
    pub wide: bool,
    pub spacer: bool,
    pub wrapline: bool,
    pub zerowidth: Seq<char>,
}

impl View for GridCell {
    type V = CellView;

    open spec fn view(&self) -> CellView {
        CellView {
            ch: self.ch,
            fg: self.fg,
            bg: self.bg,
            bold: self.bold,
            dim: self.dim,
            italic: self.italic,
            underline: self.underline,
            inverse: self.inverse,
            strikeout: self.strikeout,
            hidden: self.hidden,
            wide: self.wide,
            spacer: self.spacer,
            wrapline: self.wrapline,
            zerowidth: self.zerowidth@,
        }
    }
}

/// A Unicode scalar value: a code point that is not a surrogate.
pub open spec fn is_scalar(cp: u32) -> bool {
    cp <= 0xD7FF || (0xE000 <= cp && cp <= 0x10FFFF)
}

/// The character whose scalar value is `cp`.
pub open spec fn scalar_char(cp: u32) -> char {
    cp as char
}

/// `core::char::from_u32` gives the character whose value is `i` when `i` is a Unicode scalar
/// value, and `None` for any other `u32` (a surrogate or a value above 0x10FFFF), as its
/// documentation states.
pub assume_specification[ core::char::from_u32 ](i: u32) -> (r: Option<char>)
    ensures
        r is Some <==> is_scalar(i),
        r matches Some(c) ==> c as u32 == i && c == i as char,
;

/// A blank cell: a space in default colors with no attribute.
pub open spec fn spec_blank() -> CellView {
    CellView {
        ch: ' ',
        fg: ColorSnap::Default,
        bg: ColorSnap::Default,
        bold: false,
        dim: false,
        italic: false,
        underline: false,
        inverse: false,
        strikeout: false,
        hidden: false,
        wide: false,
        spacer: false,
        wrapline: false,
        zerowidth: Seq::empty(),
    }
}

/// A blank spacer cell.
pub open spec fn spec_spacer() -> CellView {
    CellView { spacer: true, ..spec_blank() }
}

/// Palette entries 0..16 are named colors, 16..256 indexed ones; the index is kept.
pub open spec fn spec_palette(i: u8) -> ColorSnap {
    if i < 16 {
        ColorSnap::Named(i)
    } else {
        ColorSnap::Indexed(i)
    }
}

/// The color a style color names: its palette entry, its RGB triple, or the default color
/// for any other tag.
pub open spec fn spec_style_color(c: StyleColor) -> ColorSnap {
    if c.tag == STYLE_COLOR_PALETTE {
        spec_palette(c.palette)
    } else if c.tag == STYLE_COLOR_RGB {
        ColorSnap::Rgb(c.rgb.r, c.rgb.g, c.rgb.b)
    } else {
        ColorSnap::Default
    }
}

/// The characters of the valid scalar values of `s`, in order; other values are dropped.
pub open spec fn scalars(s: Seq<u32>) -> Seq<char>
    decreases s.len(),
{
    if s.len() == 0 {
        Seq::empty()
    } else if is_scalar(s.last()) {
        scalars(s.drop_last()).push(scalar_char(s.last()))
    } else {
        scalars(s.drop_last())
    }
}

/// The zero-width followers of a cluster whose engine-written codepoints are the first
/// `min(len, cps.len())` entries of `cps`: the valid characters after the first one, which is
/// the cell's own codepoint.
pub open spec fn spec_zerowidth(cps: Seq<u32>, len: usize) -> Seq<char> {
    let k = if len < cps.len() {
        len as int
    } else {
        cps.len() as int
    };
    if k <= 1 {
        Seq::empty()
    } else {
        scalars(cps.subrange(1, k))
    }
}

/// The zero-width followers in a grapheme read, none where nothing was read.
pub open spec fn spec_grapheme_chars(g: Option<GraphemeBuf>) -> Seq<char> {
    match g {
        Some(b) => spec_zerowidth(b.codepoints@, b.len),
        None => Seq::empty(),
    }
}

/// Whether a cell read is a wide spacer.
pub open spec fn spec_is_spacer(raw: RawCell) -> bool {
    raw.wide_tag == WIDE_SPACER_TAIL || raw.wide_tag == WIDE_SPACER_HEAD
}

/// Whether the seat reads the grapheme cluster of a cell: only a readable, non-spacer cell
/// whose content is a cluster has one.
pub open spec fn spec_needs_graphemes(raw: RawCell) -> bool {
    raw.cell_result == SUCCESS && !spec_is_spacer(raw) && raw.content_tag
        == CONTENT_CODEPOINT_GRAPHEME
}

/// The character of a text cell: a space for codepoint 0 or an invalid codepoint.
pub open spec fn spec_text_char(cp: u32) -> char {
    if cp == 0 {
        ' '
    } else if is_scalar(cp) {
        scalar_char(cp)
    } else {
        ' '
    }
}

/// The engine-neutral cell of a cell read. An unreadable cell is blank; a spacer is a blank
/// spacer; a background-only cell is a space whose background is its content color; any other
/// cell has its codepoint's character and its style's background. Colors and attributes come
/// from the style; zero-width followers only from a grapheme cell.
pub open spec fn spec_cell_of(raw: RawCell, graphemes: Seq<char>) -> CellView {
    if raw.cell_result != SUCCESS {
        spec_blank()
    } else if spec_is_spacer(raw) {
        spec_spacer()
    } else {
        let ch = if raw.content_tag == CONTENT_BG_COLOR_PALETTE || raw.content_tag
            == CONTENT_BG_COLOR_RGB {
            ' '
        } else {
            spec_text_char(raw.codepoint)
        };
        let bg = if raw.content_tag == CONTENT_BG_COLOR_PALETTE {
            spec_palette(raw.palette)
        } else if raw.content_tag == CONTENT_BG_COLOR_RGB {
            ColorSnap::Rgb(raw.rgb.r, raw.rgb.g, raw.rgb.b)
        } else {
            spec_style_color(raw.style.bg_color)
        };
        CellView {
            ch,
            fg: spec_style_color(raw.style.fg_color),
            bg,
            bold: raw.style.bold,
            dim: raw.style.faint,
            italic: raw.style.italic,
            underline: raw.style.underline != SGR_UNDERLINE_NONE,
            inverse: raw.style.inverse,
            strikeout: raw.style.strikethrough,
            hidden: raw.style.invisible,
            wide: raw.wide_tag == WIDE_WIDE,
            spacer: false,
            wrapline: false,
            zerowidth: if raw.content_tag == CONTENT_CODEPOINT_GRAPHEME {
                graphemes
            } else {
                Seq::empty()
            },
        }
    }
}

/// The engine-neutral cell of everything read through one grid reference.
pub open spec fn spec_read_cell(read: GridRead) -> CellView {
    spec_cell_of(read.cell, spec_grapheme_chars(read.graphemes))
}

/// Whether a row read says the row wraps: both reads succeeded and the flag is set.
pub open spec fn spec_row_wrapped(row: RawRow) -> bool {
    row.row_result == SUCCESS && row.get_result == SUCCESS && row.wrap
}

/// What to do after one call that fills a grapheme buffer.
#[derive(Clone, Copy, Debug, PartialEq, Eq, Structural)]
pub enum GraphemeStep {
    /// The buffer holds the cluster: decode it.
    Take,
    /// The buffer was too small: read again into one of the reported length.
    Retry,
    /// Nothing can be read: the cell has no zero-width followers.
    GiveUp,
}

/// The step after a grapheme call: success decodes the buffer, a first call that ran out of
/// space is repeated with a buffer of the reported length, anything else gives up.
pub open spec fn spec_grapheme_step(result: i32, retried: bool) -> GraphemeStep {
    if result == SUCCESS {
        GraphemeStep::Take
    } else if !retried && result == OUT_OF_SPACE {
        GraphemeStep::Retry
    } else {
        GraphemeStep::GiveUp
    }
}

/// A blank cell: a space in default colors with no attribute.
pub fn blank_cell() -> (cell: GridCell)
    ensures
        cell@ == spec_blank(),
{
    GridCell {
        ch: ' ',
        fg: ColorSnap::Default,
        bg: ColorSnap::Default,
        bold: false,
        dim: false,
        italic: false,
        underline: false,
        inverse: false,
        strikeout: false,
        hidden: false,
        wide: false,
        spacer: false,
        wrapline: false,
        zerowidth: Vec::new(),
    }
}

/// Palette entries 0..16 become named colors, 16..256 indexed ones, with their index.
pub fn palette_snap(i: u8) -> (c: ColorSnap)
    ensures
        c == spec_palette(i),
{
    if i < 16 {
        ColorSnap::Named(i)
    } else {
        ColorSnap::Indexed(i)
    }
}

/// The engine-neutral color of a style color.
pub fn style_color_snap(c: &StyleColor) -> (snap: ColorSnap)
    ensures
        snap == spec_style_color(*c),
{
    if c.tag == STYLE_COLOR_PALETTE {
        palette_snap(c.palette)
    } else if c.tag == STYLE_COLOR_RGB {
        ColorSnap::Rgb(c.rgb.r, c.rgb.g, c.rgb.b)
    } else {
        ColorSnap::Default
    }
}

/// Whether a row read says the row wraps.
pub fn row_wrapped(row: &RawRow) -> (wrapped: bool)
    ensures
        wrapped == spec_row_wrapped(*row),
{
    row.row_result == SUCCESS && row.get_result == SUCCESS && row.wrap
}

/// Whether the grapheme cluster of this cell is to be read.
pub fn needs_graphemes(raw: &RawCell) -> (needed: bool)
    ensures
        needed == spec_needs_graphemes(*raw),
{
    raw.cell_result == SUCCESS && !(raw.wide_tag == WIDE_SPACER_TAIL || raw.wide_tag
        == WIDE_SPACER_HEAD) && raw.content_tag == CONTENT_CODEPOINT_GRAPHEME
}

/// The step after a grapheme call (`retried`: this was the second call).
pub fn grapheme_step(result: i32, retried: bool) -> (step: GraphemeStep)
    ensures
        step == spec_grapheme_step(result, retried),
{
    if result == SUCCESS {
        GraphemeStep::Take
    } else if !retried && result == OUT_OF_SPACE {
        GraphemeStep::Retry
    } else {
        GraphemeStep::GiveUp
    }
}

/// The character of a text cell's codepoint: a space for 0 or an invalid codepoint.
fn text_char(cp: u32) -> (ch: char)
    ensures
        ch == spec_text_char(cp),
{
    if cp == 0 {
        ' '
    } else {
        match core::char::from_u32(cp) {
            Some(c) => c,
            None => ' ',
        }
    }
}

/// The zero-width followers in a grapheme buffer of which the engine filled `len` entries:
/// the valid characters after the first codepoint (the cell's own).
pub fn zerowidth_of(codepoints: &Vec<u32>, len: usize) -> (chars: Vec<char>)
    ensures
        chars@ == spec_zerowidth(codepoints@, len),
{
    let k: usize = if len < codepoints.len() {
        len
    } else {
        codepoints.len()
    };
    let mut chars: Vec<char> = Vec::new();
    if k <= 1 {
        return chars;
    }
    let mut i: usize = 1;
    assert(codepoints@.subrange(1, 1) =~= Seq::<u32>::empty());
    while i < k
        invariant
            1 <= i <= k,
            k <= codepoints.len(),
            chars@ == scalars(codepoints@.subrange(1, i as int)),
        decreases k - i,
    {
        let cp = codepoints[i];
        assert(codepoints@.subrange(1, i + 1).drop_last() =~= codepoints@.subrange(1, i as int));
        match core::char::from_u32(cp) {
            Some(c) => {
                chars.push(c);
            },
            None => {},
        }
        i = i + 1;
    }
    chars
}

/// The zero-width followers in a grapheme read, none where nothing was read.
fn grapheme_chars(g: &Option<GraphemeBuf>) -> (chars: Vec<char>)
    ensures
        chars@ == spec_grapheme_chars(*g),
{
    match g {
        Some(b) => zerowidth_of(&b.codepoints, b.len),
        None => Vec::new(),
    }
}

/// Whether a grid-reference call produced a usable reference: it succeeded and the reference
/// points at a page node (`null_node` says it does not).
pub fn grid_ref_usable(result: i32, null_node: bool) -> (usable: bool)
    ensures
        usable == (result == SUCCESS && !null_node),
{
    result == SUCCESS && !null_node
}

/// Which content value of a readable, non-spacer cell the seat uses.
#[derive(Clone, Copy, Debug, PartialEq, Eq, Structural)]
pub enum ContentRead {
    /// The palette index of a background-only cell.
    Palette,
    /// The RGB triple of a background-only cell.
    Rgb,
    /// The codepoint of a text cell.
    Codepoint,
}

/// The content value that a cell with content tag `content_tag` is read for.
pub open spec fn spec_content_read(content_tag: i32) -> ContentRead {
    if content_tag == CONTENT_BG_COLOR_PALETTE {
        ContentRead::Palette
    } else if content_tag == CONTENT_BG_COLOR_RGB {
        ContentRead::Rgb
    } else {
        ContentRead::Codepoint
    }
}

/// Whether a cell's content and style are read: only for a readable cell that is not a spacer.
pub fn reads_content(cell_result: i32, wide_tag: i32) -> (read: bool)
    ensures
        read == (cell_result == SUCCESS && !(wide_tag == WIDE_SPACER_TAIL || wide_tag
            == WIDE_SPACER_HEAD)),
{
    cell_result == SUCCESS && !(wide_tag == WIDE_SPACER_TAIL || wide_tag == WIDE_SPACER_HEAD)
}

/// The content value that a cell with content tag `content_tag` is read for.
pub fn content_read(content_tag: i32) -> (read: ContentRead)
    ensures
        read == spec_content_read(content_tag),
{
    if content_tag == CONTENT_BG_COLOR_PALETTE {
        ContentRead::Palette
    } else if content_tag == CONTENT_BG_COLOR_RGB {
        ContentRead::Rgb
    } else {
        ContentRead::Codepoint
    }
}

/// Two cell reads that agree on what [`reads_content`] and [`content_read`] say is read give
/// the same cell: an unread content value or style never shows in the result, so the seat
/// reads only those.
pub proof fn law_cell_uses_only_what_is_read(a: RawCell, b: RawCell, graphemes: Seq<char>)
    requires
        a.cell_result == b.cell_result,
        a.wide_tag == b.wide_tag,
        a.cell_result == SUCCESS && !spec_is_spacer(a) ==> {
            &&& a.content_tag == b.content_tag
            &&& a.style == b.style
            &&& (spec_content_read(a.content_tag) == ContentRead::Palette ==> a.palette
                == b.palette)
            &&& (spec_content_read(a.content_tag) == ContentRead::Rgb ==> a.rgb == b.rgb)
            &&& (spec_content_read(a.content_tag) == ContentRead::Codepoint ==> a.codepoint
                == b.codepoint)
        },
    ensures
        spec_cell_of(a, graphemes) == spec_cell_of(b, graphemes),
{
}

/// The engine-neutral cell of a cell read and its grapheme read.
pub fn cell_of(raw: &RawCell, graphemes: &Option<GraphemeBuf>) -> (cell: GridCell)
    ensures
        cell@ == spec_cell_of(*raw, spec_grapheme_chars(*graphemes)),
{
    if raw.cell_result != SUCCESS {
        return blank_cell();
    }
    if raw.wide_tag == WIDE_SPACER_TAIL || raw.wide_tag == WIDE_SPACER_HEAD {
        let mut spacer = blank_cell();
        spacer.spacer = true;
        return spacer;
    }
    let content = raw.content_tag;
    let (ch, bg) = if content == CONTENT_BG_COLOR_PALETTE {
        (' ', palette_snap(raw.palette))
    } else if content == CONTENT_BG_COLOR_RGB {
        (' ', ColorSnap::Rgb(raw.rgb.r, raw.rgb.g, raw.rgb.b))
    } else {
        (text_char(raw.codepoint), style_color_snap(&raw.style.bg_color))
    };
    let zerowidth = if content == CONTENT_CODEPOINT_GRAPHEME {
        grapheme_chars(graphemes)
    } else {
        Vec::new()
    };
    let cell = GridCell {
        ch,
        fg: style_color_snap(&raw.style.fg_color),
        bg,
        bold: raw.style.bold,
        dim: raw.style.faint,
        italic: raw.style.italic,
        underline: raw.style.underline != SGR_UNDERLINE_NONE,
        inverse: raw.style.inverse,
        strikeout: raw.style.strikethrough,
        hidden: raw.style.invisible,
        wide: raw.wide_tag == WIDE_WIDE,
        spacer: false,
        wrapline: false,
        zerowidth,
    };
    cell
}

/// The engine-neutral cell of everything read through one grid reference.
pub fn read_cell(read: &GridRead) -> (cell: GridCell)
    ensures
        cell@ == spec_read_cell(*read),
{
    cell_of(&read.cell, &read.graphemes)
}

/// A spacer carries no character: it is a space with no zero-width follower, and it is not a
/// wide body; only a readable, non-spacer grapheme cell has zero-width followers.
pub proof fn law_spacer_carries_no_character(raw: RawCell, graphemes: Seq<char>)
    ensures
        spec_cell_of(raw, graphemes).spacer ==> spec_cell_of(raw, graphemes).ch == ' '
            && spec_cell_of(raw, graphemes).zerowidth.len() == 0 && !spec_cell_of(
            raw,
            graphemes,
        ).wide,
        spec_cell_of(raw, graphemes).spacer <==> (raw.cell_result == SUCCESS && spec_is_spacer(
            raw,
        )),
        spec_cell_of(raw, graphemes).zerowidth.len() > 0 ==> spec_needs_graphemes(raw),
        !spec_cell_of(raw, graphemes).wrapline,
{
}

/// A palette color keeps its index, and it is named exactly for the 16 base entries.
pub proof fn law_palette_keeps_index(i: u8)
    ensures
        spec_palette(i) == ColorSnap::Named(i) <==> i < 16,
        spec_palette(i) == ColorSnap::Indexed(i) <==> i >= 16,
{
}

/// A style color snaps to what its tag names, for every value: a palette color to its entry
/// (named below 16, indexed from 16, index 0 included), an RGB color to its triple, and any
/// other tag to the default color.
pub proof fn law_style_color(c: StyleColor)
    ensures
        c.tag == STYLE_COLOR_PALETTE && c.palette < 16 ==> spec_style_color(c) == ColorSnap::Named(
            c.palette,
        ),
        c.tag == STYLE_COLOR_PALETTE && c.palette >= 16 ==> spec_style_color(c)
            == ColorSnap::Indexed(c.palette),
        c.tag == STYLE_COLOR_RGB ==> spec_style_color(c) == ColorSnap::Rgb(c.rgb.r, c.rgb.g, c.rgb.b),
        c.tag != STYLE_COLOR_PALETTE && c.tag != STYLE_COLOR_RGB ==> spec_style_color(c)
            == ColorSnap::Default,
{
}

/// An unreadable cell is a plain blank space, and a wide spacer is a plain blank space marked
/// as spacer: no character, no color, no attribute, no zero-width follower.
pub proof fn law_unread_and_spacer_cells(raw: RawCell, graphemes: Seq<char>)
    ensures
        ({
            let c = spec_cell_of(raw, graphemes);
            (raw.cell_result != SUCCESS || raw.wide_tag == WIDE_SPACER_TAIL || raw.wide_tag
                == WIDE_SPACER_HEAD) ==> {
                &&& c.ch == ' '
                &&& c.fg == ColorSnap::Default
                &&& c.bg == ColorSnap::Default
                &&& !c.bold && !c.dim && !c.italic && !c.underline
                &&& !c.inverse && !c.strikeout && !c.hidden
                &&& !c.wide && !c.wrapline
                &&& c.zerowidth.len() == 0
                &&& c.spacer == (raw.cell_result == SUCCESS)
            }
        }),
{
}

/// Every SGR attribute of a readable, non-spacer cell is its style's flag: bold, faint (dim),
/// italic, underline (any underline style but none), inverse, strikethrough and invisible
/// (hidden); the cell is a wide body exactly when its width tag says so, and it is neither a
/// spacer nor (before the row's flag is applied) wrapped.
pub proof fn law_cell_attributes(raw: RawCell, graphemes: Seq<char>)
    requires
        raw.cell_result == SUCCESS,
        raw.wide_tag != WIDE_SPACER_TAIL,
        raw.wide_tag != WIDE_SPACER_HEAD,
    ensures
        spec_cell_of(raw, graphemes).bold == raw.style.bold,
        spec_cell_of(raw, graphemes).dim == raw.style.faint,
        spec_cell_of(raw, graphemes).italic == raw.style.italic,
        spec_cell_of(raw, graphemes).underline == (raw.style.underline != SGR_UNDERLINE_NONE),
        spec_cell_of(raw, graphemes).inverse == raw.style.inverse,
        spec_cell_of(raw, graphemes).strikeout == raw.style.strikethrough,
        spec_cell_of(raw, graphemes).hidden == raw.style.invisible,
        spec_cell_of(raw, graphemes).wide == (raw.wide_tag == WIDE_WIDE),
        !spec_cell_of(raw, graphemes).spacer,
        !spec_cell_of(raw, graphemes).wrapline,
{
}

/// The colors of a readable, non-spacer cell: the foreground is the style's; the background of
/// a background-only cell is its content color (palette entry or RGB triple), of any other
/// cell the style's background.
pub proof fn law_cell_colors(raw: RawCell, graphemes: Seq<char>)
    requires
        raw.cell_result == SUCCESS,
        raw.wide_tag != WIDE_SPACER_TAIL,
        raw.wide_tag != WIDE_SPACER_HEAD,
    ensures
        spec_cell_of(raw, graphemes).fg == spec_style_color(raw.style.fg_color),
        raw.content_tag == CONTENT_BG_COLOR_PALETTE && raw.palette < 16 ==> spec_cell_of(
            raw,
            graphemes,
        ).bg == ColorSnap::Named(raw.palette),
        raw.content_tag == CONTENT_BG_COLOR_PALETTE && raw.palette >= 16 ==> spec_cell_of(
            raw,
            graphemes,
        ).bg == ColorSnap::Indexed(raw.palette),
        raw.content_tag == CONTENT_BG_COLOR_RGB ==> spec_cell_of(raw, graphemes).bg
            == ColorSnap::Rgb(raw.rgb.r, raw.rgb.g, raw.rgb.b),
        raw.content_tag != CONTENT_BG_COLOR_PALETTE && raw.content_tag != CONTENT_BG_COLOR_RGB
            ==> spec_cell_of(raw, graphemes).bg == spec_style_color(raw.style.bg_color),
{
}

/// The character of a readable, non-spacer cell: a background-only cell is a space; a text cell
/// holds the character of its codepoint when that is a nonzero Unicode scalar value, and a space
/// for codepoint 0, a surrogate or a value above 0x10FFFF. Zero-width followers are the given
/// cluster's for a grapheme cell and none for any other.
pub proof fn law_cell_character(raw: RawCell, graphemes: Seq<char>)
    requires
        raw.cell_result == SUCCESS,
        raw.wide_tag != WIDE_SPACER_TAIL,
        raw.wide_tag != WIDE_SPACER_HEAD,
    ensures
        raw.content_tag == CONTENT_BG_COLOR_PALETTE || raw.content_tag == CONTENT_BG_COLOR_RGB
            ==> spec_cell_of(raw, graphemes).ch == ' ',
        raw.content_tag != CONTENT_BG_COLOR_PALETTE && raw.content_tag != CONTENT_BG_COLOR_RGB
            ==> {
            &&& raw.codepoint == 0 ==> spec_cell_of(raw, graphemes).ch == ' '
            &&& (1 <= raw.codepoint <= 0xD7FF || 0xE000 <= raw.codepoint <= 0x10FFFF)
                ==> spec_cell_of(raw, graphemes).ch == raw.codepoint as char
            &&& (0xD800 <= raw.codepoint <= 0xDFFF || raw.codepoint > 0x10FFFF)
                ==> spec_cell_of(raw, graphemes).ch == ' '
        },
        raw.content_tag == CONTENT_CODEPOINT_GRAPHEME ==> spec_cell_of(raw, graphemes).zerowidth
            == graphemes,
        raw.content_tag != CONTENT_CODEPOINT_GRAPHEME ==> spec_cell_of(raw, graphemes).zerowidth
            == Seq::<char>::empty(),
{
}

/// A Unicode scalar value: not a surrogate, not above 0x10FFFF.
pub open spec fn unicode_scalar() -> spec_fn(u32) -> bool {
    |c: u32| c <= 0xD7FF || (0xE000 <= c && c <= 0x10FFFF)
}

/// The character of a scalar value.
pub open spec fn char_of_value() -> spec_fn(u32) -> char {
    |c: u32| c as char
}

/// Decoding keeps every Unicode scalar value of the sequence, in order, as its character, and
/// drops exactly the others (surrogates and values above 0x10FFFF).
pub proof fn law_scalars_keep_every_scalar(s: Seq<u32>)
    ensures
        scalars(s) == s.filter(unicode_scalar()).map_values(char_of_value()),
    decreases s.len(),
{
    reveal_with_fuel(Seq::<u32>::filter, 1);
    if s.len() > 0 {
        law_scalars_keep_every_scalar(s.drop_last());
        let kept = s.drop_last().filter(unicode_scalar());
        if (unicode_scalar())(s.last()) {
            assert(kept.push(s.last()).map_values(char_of_value()) =~= kept.map_values(
                char_of_value(),
            ).push((char_of_value())(s.last())));
        }
    } else {
        assert(s.filter(unicode_scalar()).map_values(char_of_value()) =~= Seq::<char>::empty());
    }
}

/// The zero-width followers of a cluster are exactly the Unicode scalar values among the
/// engine-written codepoints after the first (the cell's own), in order: with `k` the smaller of
/// `len` and the buffer's length, none when `k <= 1`, else those of `cps[1..k]`.
pub proof fn law_zerowidth_keeps_every_follower(cps: Seq<u32>, len: usize)
    ensures
        ({
            let k = if len < cps.len() {
                len as int
            } else {
                cps.len() as int
            };
            &&& k <= 1 ==> spec_zerowidth(cps, len) == Seq::<char>::empty()
            &&& k >= 2 ==> spec_zerowidth(cps, len) == cps.subrange(1, k).filter(
                unicode_scalar(),
            ).map_values(char_of_value())
        }),
{
    let k = if len < cps.len() {
        len as int
    } else {
        cps.len() as int
    };
    if k >= 2 {
        law_scalars_keep_every_scalar(cps.subrange(1, k));
    }
}

/// A grapheme read decodes the buffer after a successful call, repeats a first call that ran
/// out of space once, and gives up on anything else.
pub proof fn law_grapheme_steps(result: i32, retried: bool)
    ensures
        result == SUCCESS ==> spec_grapheme_step(result, retried) == GraphemeStep::Take,
        result == OUT_OF_SPACE && !retried ==> spec_grapheme_step(result, retried)
            == GraphemeStep::Retry,
        result == OUT_OF_SPACE && retried ==> spec_grapheme_step(result, retried)
            == GraphemeStep::GiveUp,
        result != SUCCESS && result != OUT_OF_SPACE ==> spec_grapheme_step(result, retried)
            == GraphemeStep::GiveUp,
{
}

/// A cell's grapheme cluster is read exactly when the cell was read, it is not a wide spacer and
/// its content is a codepoint with a cluster.
pub proof fn law_grapheme_read_needed(raw: RawCell)
    ensures
        spec_needs_graphemes(raw) <==> (raw.cell_result == SUCCESS && raw.wide_tag
            != WIDE_SPACER_TAIL && raw.wide_tag != WIDE_SPACER_HEAD && raw.content_tag
            == CONTENT_CODEPOINT_GRAPHEME),
{
}

} // verus!
