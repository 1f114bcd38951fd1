use soksak_sidecar_terminal_ghostty::abi::{
    ansi_mode, dec_mode, CONTENT_BG_COLOR_PALETTE, CONTENT_BG_COLOR_RGB,
    CONTENT_CODEPOINT_GRAPHEME, OUT_OF_SPACE, POINT_TAG_ACTIVE, POINT_TAG_HISTORY,
    SCREEN_ALTERNATE, STYLE_COLOR_PALETTE, STYLE_COLOR_RGB, SUCCESS, WIDE_NARROW,
    WIDE_SPACER_HEAD, WIDE_SPACER_TAIL, WIDE_WIDE,
};
use soksak_sidecar_terminal_ghostty::engine::{
    Engine, LinePoint, ModeRead, ModeSnap, PointCoordinate, TerminalOptions,
    MIRROR_SCROLLBACK_LINES, SCROLLBACK_BUDGET_BYTES,
};
use soksak_sidecar_terminal_ghostty::grid::{
    blank_cell, cell_of, content_read, grapheme_step, grid_ref_usable, needs_graphemes, palette_snap,
    read_cell, reads_content, row_wrapped, style_color_snap, zerowidth_of, ColorRgb, ColorSnap, ContentRead, GraphemeBuf,
    GraphemeStep, GridCell, GridRead, RawCell, RawRow, Style, StyleColor,
};

fn no_color() -> StyleColor {
    StyleColor { tag: 0, palette: 0, rgb: ColorRgb { r: 0, g: 0, b: 0 } }
}

fn plain_style() -> Style {
    Style {
        fg_color: no_color(),
        bg_color: no_color(),
        bold: false,
        italic: false,
        faint: false,
        inverse: false,
        invisible: false,
        strikethrough: false,
        underline: 0,
    }
}

fn text(cp: u32) -> RawCell {
    RawCell {
        cell_result: SUCCESS,
        wide_tag: WIDE_NARROW,
        content_tag: 0,
        codepoint: cp,
        palette: 0,
        rgb: ColorRgb { r: 0, g: 0, b: 0 },
        style: plain_style(),
    }
}

fn read_of(cp: u32, wrap: Option<bool>) -> Option<GridRead> {
    Some(GridRead {
        cell: text(cp),
        row: wrap.map(|w| RawRow { row_result: SUCCESS, get_result: SUCCESS, wrap: w }),
        graphemes: None,
    })
}

fn chars(cells: &[GridCell]) -> String {
    cells.iter().map(|c| c.ch).collect()
}

fn is_blank(c: &GridCell) -> bool {
    c.ch == ' '
        && c.fg == ColorSnap::Default
        && c.bg == ColorSnap::Default
        && !c.bold
        && !c.dim
        && !c.italic
        && !c.underline
        && !c.inverse
        && !c.strikeout
        && !c.hidden
        && !c.wide
        && !c.spacer
        && !c.wrapline
        && c.zerowidth.is_empty()
}

#[test]
fn dec_and_ansi_modes_pack_value_and_family() {
    assert_eq!(dec_mode(2004), 2004);
    assert_eq!(dec_mode(0x8000 | 25), 25);
    assert_eq!(ansi_mode(4), 0x8004);
    assert_eq!(ansi_mode(0x8004), 0x8004);
    assert_ne!(dec_mode(4), ansi_mode(4));
}

#[test]
fn mode_ids_follow_the_snapshot_field_order() {
    let ids = Engine::mode_ids();
    assert_eq!(
        ids,
        vec![2004, 1, 66, 1000, 1002, 1003, 1006, 1005, 1004, 1007, 25, 7, 0x8004]
    );
    for i in 0..ids.len() {
        for j in (i + 1)..ids.len() {
            assert_ne!(ids[i], ids[j]);
        }
    }
}

fn answers(set: &[u16]) -> Vec<ModeRead> {
    Engine::mode_ids()
        .into_iter()
        .map(|id| ModeRead { result: SUCCESS, value: set.contains(&id) })
        .collect()
}

#[test]
fn modes_read_each_field_from_its_own_query() {
    let e = Engine::new(80, 24);
    // focus 1004 and insert 4 set; alternate scroll 1007 and auto-wrap 7 cleared.
    let m = e.modes(&answers(&[1004, 0x8004, 25]));
    assert!(m.focus_in_out, "focus(1004) set");
    assert!(!m.alternate_scroll, "alt-scroll(1007) cleared");
    assert!(!m.line_wrap, "auto-wrap(7) cleared");
    assert!(m.insert, "insert(4) set");
    assert!(m.show_cursor);
    assert!(!m.bracketed_paste && !m.app_cursor && !m.app_keypad);

    let on_by_default = e.modes(&answers(&[7, 25, 1007]));
    assert!(on_by_default.line_wrap && on_by_default.show_cursor && on_by_default.alternate_scroll);
    assert!(!on_by_default.bracketed_paste && !on_by_default.app_cursor && !on_by_default.insert);
}

#[test]
fn failed_or_missing_mode_answers_read_as_off() {
    let e = Engine::new(80, 24);
    let mut reads = answers(&[2004, 1, 66]);
    reads[0].result = -1;
    reads.truncate(2);
    let m = e.modes(&reads);
    assert!(!m.bracketed_paste, "a failed query reads as off");
    assert!(m.app_cursor);
    assert!(!m.app_keypad, "a missing answer reads as off");
    assert_eq!(e.modes(&Vec::new()), ModeSnap::default());
    assert!(!e.mode(&ModeRead { result: -2, value: true }));
    assert!(e.mode(&ModeRead { result: SUCCESS, value: true }));
}

#[test]
fn palette_entries_are_named_below_sixteen_and_indexed_above() {
    assert_eq!(palette_snap(0), ColorSnap::Named(0));
    assert_eq!(palette_snap(15), ColorSnap::Named(15));
    assert_eq!(palette_snap(16), ColorSnap::Indexed(16));
    assert_eq!(palette_snap(255), ColorSnap::Indexed(255));
}

#[test]
fn style_colors_keep_palette_and_rgb() {
    let rgb = ColorRgb { r: 1, g: 2, b: 3 };
    assert_eq!(
        style_color_snap(&StyleColor { tag: STYLE_COLOR_PALETTE, palette: 9, rgb }),
        ColorSnap::Named(9)
    );
    assert_eq!(
        style_color_snap(&StyleColor { tag: STYLE_COLOR_PALETTE, palette: 196, rgb }),
        ColorSnap::Indexed(196)
    );
    assert_eq!(
        style_color_snap(&StyleColor { tag: STYLE_COLOR_RGB, palette: 9, rgb }),
        ColorSnap::Rgb(1, 2, 3)
    );
    assert_eq!(style_color_snap(&StyleColor { tag: 0, palette: 9, rgb }), ColorSnap::Default);
}

#[test]
fn blank_cell_is_a_plain_space() {
    assert!(is_blank(&blank_cell()));
}

#[test]
fn unreadable_cells_are_blank_and_spacers_carry_no_character() {
    let mut raw = text(0x4e00);
    raw.cell_result = -1;
    assert!(is_blank(&cell_of(&raw, &None)));

    for tag in [WIDE_SPACER_TAIL, WIDE_SPACER_HEAD] {
        let mut raw = text(0x4e00);
        raw.wide_tag = tag;
        raw.style.bold = true;
        let c = cell_of(&raw, &None);
        assert!(c.spacer);
        assert_eq!(c.ch, ' ');
        assert!(!c.bold && !c.wide && c.zerowidth.is_empty());
    }
}

#[test]
fn background_only_cells_take_their_color_from_content() {
    let mut raw = text(0x41);
    raw.content_tag = CONTENT_BG_COLOR_PALETTE;
    raw.palette = 4;
    raw.style.bg_color = StyleColor { tag: STYLE_COLOR_PALETTE, palette: 200, rgb: ColorRgb { r: 0, g: 0, b: 0 } };
    let c = cell_of(&raw, &None);
    assert_eq!(c.ch, ' ');
    assert_eq!(c.bg, ColorSnap::Named(4));

    raw.content_tag = CONTENT_BG_COLOR_RGB;
    raw.rgb = ColorRgb { r: 10, g: 20, b: 30 };
    let c = cell_of(&raw, &None);
    assert_eq!(c.ch, ' ');
    assert_eq!(c.bg, ColorSnap::Rgb(10, 20, 30));
}

#[test]
fn text_cells_take_character_and_style() {
    let mut raw = text(0x250c);
    raw.wide_tag = WIDE_WIDE;
    raw.style = Style {
        fg_color: StyleColor { tag: STYLE_COLOR_RGB, palette: 0, rgb: ColorRgb { r: 7, g: 8, b: 9 } },
        bg_color: StyleColor { tag: STYLE_COLOR_PALETTE, palette: 33, rgb: ColorRgb { r: 0, g: 0, b: 0 } },
        bold: true,
        italic: true,
        faint: true,
        inverse: false,
        invisible: true,
        strikethrough: true,
        underline: 2,
    };
    let c = cell_of(&raw, &None);
    assert_eq!(c.ch, '┌');
    assert_eq!(c.fg, ColorSnap::Rgb(7, 8, 9));
    assert_eq!(c.bg, ColorSnap::Indexed(33));
    assert!(c.bold && c.italic && c.dim && c.hidden && c.strikeout && c.underline);
    assert!(!c.inverse && c.wide && !c.spacer && !c.wrapline);
}

#[test]
fn codepoint_zero_and_invalid_codepoints_read_as_space() {
    assert_eq!(cell_of(&text(0), &None).ch, ' ');
    assert_eq!(cell_of(&text(0xD800), &None).ch, ' ');
    assert_eq!(cell_of(&text(0x110000), &None).ch, ' ');
    assert_eq!(cell_of(&text(0x10FFFF), &None).ch, '\u{10FFFF}');
    assert_eq!(cell_of(&text(0x2500), &None).ch, '─');
}

#[test]
fn zero_width_followers_come_only_from_grapheme_cells() {
    let buf = GraphemeBuf { codepoints: vec![0x65, 0x301, 0xD800, 0x308, 0x41], len: 4 };
    let mut raw = text(0x65);
    raw.content_tag = CONTENT_CODEPOINT_GRAPHEME;
    assert!(needs_graphemes(&raw));
    let c = cell_of(&raw, &Some(buf));
    assert_eq!(c.ch, 'e');
    assert_eq!(c.zerowidth, vec!['\u{301}', '\u{308}']);

    let buf = GraphemeBuf { codepoints: vec![0x65, 0x301], len: 2 };
    let plain = text(0x65);
    assert!(!needs_graphemes(&plain));
    assert!(cell_of(&plain, &Some(buf)).zerowidth.is_empty());

    let mut spacer = raw;
    spacer.wide_tag = WIDE_SPACER_TAIL;
    assert!(!needs_graphemes(&spacer));
    assert!(cell_of(&raw, &None).zerowidth.is_empty());
}

#[test]
fn grapheme_buffers_skip_the_cell_codepoint_and_clamp_to_the_buffer() {
    assert_eq!(zerowidth_of(&vec![0x61, 0x300, 0x301], 3), vec!['\u{300}', '\u{301}']);
    assert_eq!(zerowidth_of(&vec![0x61, 0x300, 0x301], 9), vec!['\u{300}', '\u{301}']);
    assert_eq!(zerowidth_of(&vec![0x61, 0x300, 0x301], 2), vec!['\u{300}']);
    assert!(zerowidth_of(&vec![0x61, 0x300], 1).is_empty());
    assert!(zerowidth_of(&vec![], 5).is_empty());
    assert_eq!(zerowidth_of(&vec![0x61, 0xDFFF, 0x20DD], 3), vec!['\u{20DD}']);
}

#[test]
fn grapheme_reads_retry_once_when_out_of_space() {
    assert_eq!(grapheme_step(SUCCESS, false), GraphemeStep::Take);
    assert_eq!(grapheme_step(OUT_OF_SPACE, false), GraphemeStep::Retry);
    assert_eq!(grapheme_step(-1, false), GraphemeStep::GiveUp);
    assert_eq!(grapheme_step(SUCCESS, true), GraphemeStep::Take);
    assert_eq!(grapheme_step(OUT_OF_SPACE, true), GraphemeStep::GiveUp);
}

#[test]
fn history_is_cut_to_the_restore_window() {
    let e = Engine::new(80, 24);
    assert_eq!(MIRROR_SCROLLBACK_LINES, 1000);
    assert_eq!(e.history_size(4), 4);
    assert_eq!(e.history_size(999), 999);
    assert_eq!(e.history_size(1000), MIRROR_SCROLLBACK_LINES);
    assert_eq!(e.history_size(1200), MIRROR_SCROLLBACK_LINES);
    assert_eq!(e.retained_rows(SUCCESS, 1200), 1200);
    assert_eq!(e.retained_rows(-1, 1200), 0);
}

#[test]
fn scrollback_lines_index_newest_at_minus_one() {
    let e = Engine::new(80, 3);
    assert_eq!(e.line_point(-1, 4), LinePoint::At { tag: POINT_TAG_HISTORY, y: 3 });
    assert_eq!(e.line_point(-4, 4), LinePoint::At { tag: POINT_TAG_HISTORY, y: 0 });
    assert_eq!(e.line_point(-5, 4), LinePoint::Blank);
    assert_eq!(e.line_point(0, 4), LinePoint::At { tag: POINT_TAG_ACTIVE, y: 0 });
    assert_eq!(e.line_point(2, 4), LinePoint::At { tag: POINT_TAG_ACTIVE, y: 2 });
    assert_eq!(e.line_point(i32::MIN, 4), LinePoint::Blank);
    assert_eq!(e.line_point(-1, 0), LinePoint::Blank);
    // The index counts from the rows actually retained, not from the window.
    assert_eq!(e.line_point(-1, 1500), LinePoint::At { tag: POINT_TAG_HISTORY, y: 1499 });
}

#[test]
fn line_points_give_column_coordinates() {
    let p = LinePoint::At { tag: POINT_TAG_HISTORY, y: 7 };
    assert_eq!(p.coordinate(5), Some((POINT_TAG_HISTORY, PointCoordinate { x: 5, y: 7 })));
    assert_eq!(LinePoint::Blank.coordinate(5), None);
}

#[test]
fn lines_have_one_cell_per_column_and_the_wrap_flag_on_the_last() {
    let e = Engine::new(3, 2);
    let at = LinePoint::At { tag: POINT_TAG_ACTIVE, y: 0 };
    let reads = vec![read_of(0x4c, Some(true)), read_of(0x34, None), read_of(0x21, None)];
    let line = e.line_cells(&at, &reads);
    assert_eq!(chars(&line), "L4!");
    assert!(!line[0].wrapline && !line[1].wrapline && line[2].wrapline);

    let unwrapped = vec![read_of(0x4c, Some(false)), read_of(0x34, None), read_of(0x21, None)];
    assert!(!e.line_cells(&at, &unwrapped)[2].wrapline);

    let failed_row = vec![
        Some(GridRead {
            cell: text(0x4c),
            row: Some(RawRow { row_result: -1, get_result: SUCCESS, wrap: true }),
            graphemes: None,
        }),
        None,
    ];
    let line = e.line_cells(&at, &failed_row);
    assert_eq!(line.len(), 3);
    assert_eq!(chars(&line), "L  ");
    assert!(!line[2].wrapline);
    assert!(is_blank(&line[1]));
}

#[test]
fn a_line_beyond_the_history_is_a_blank_row() {
    let e = Engine::new(4, 2);
    let reads: Vec<Option<GridRead>> = Vec::new();
    let line = e.line_cells(&LinePoint::Blank, &reads);
    assert_eq!(line.len(), 4);
    assert!(line.iter().all(is_blank));
    let line = e.line_cells(&LinePoint::Blank, &vec![read_of(0x41, Some(true))]);
    assert!(line.iter().all(is_blank));
}

#[test]
fn the_row_is_read_at_the_first_column_only() {
    assert!(Engine::needs_row_read(0));
    assert!(!Engine::needs_row_read(1));
    assert!(row_wrapped(&RawRow { row_result: SUCCESS, get_result: SUCCESS, wrap: true }));
    assert!(!row_wrapped(&RawRow { row_result: SUCCESS, get_result: -1, wrap: true }));
    assert!(!row_wrapped(&RawRow { row_result: SUCCESS, get_result: SUCCESS, wrap: false }));
}

#[test]
fn read_cell_uses_the_grapheme_read() {
    let mut raw = text(0x61);
    raw.content_tag = CONTENT_CODEPOINT_GRAPHEME;
    let read = GridRead {
        cell: raw,
        row: None,
        graphemes: Some(GraphemeBuf { codepoints: vec![0x61, 0x300], len: 2 }),
    };
    assert_eq!(read_cell(&read).zerowidth, vec!['\u{300}']);
}

#[test]
fn grid_refs_need_success_and_a_node() {
    assert!(grid_ref_usable(SUCCESS, false));
    assert!(!grid_ref_usable(SUCCESS, true));
    assert!(!grid_ref_usable(-1, false));
}

#[test]
fn reply_producing_queries_are_counted_and_never_answered() {
    let mut e = Engine::new(80, 24);
    assert_eq!(e.suppressed_replies(), 0);
    e.on_write_pty();
    assert_eq!(e.suppressed_replies(), 1);
    assert!(!e.on_device_attributes());
    assert_eq!(e.suppressed_replies(), 2);
    assert_eq!((e.cols(), e.rows()), (80, 24));
}

#[test]
fn geometry_is_never_below_one() {
    let mut e = Engine::new(0, 0);
    assert_eq!((e.cols(), e.rows()), (1, 1));
    e.on_write_pty();
    assert_eq!(e.resize(120, 0), (120, 1));
    assert_eq!((e.cols(), e.rows()), (120, 1));
    assert_eq!(e.suppressed_replies(), 1, "resize keeps the count");
    assert_eq!(e.resize(0, 40), (1, 40));
}

#[test]
fn terminals_are_made_with_the_byte_budget() {
    let e = Engine::new(80, 0);
    assert_eq!(
        e.terminal_options(),
        TerminalOptions { cols: 80, rows: 1, max_scrollback: SCROLLBACK_BUDGET_BYTES }
    );
    assert_eq!(SCROLLBACK_BUDGET_BYTES, 8 * 1024 * 1024);
}

#[test]
fn empty_feeds_are_not_forwarded() {
    assert!(!Engine::forwards_feed(b""));
    assert!(Engine::forwards_feed(b"\x1b[c"));
}

#[test]
fn alternate_screen_and_cursor_reads() {
    let e = Engine::new(80, 24);
    assert!(e.alt_active(SUCCESS, SCREEN_ALTERNATE));
    assert!(!e.alt_active(SUCCESS, 0));
    assert!(!e.alt_active(-1, SCREEN_ALTERNATE));
    assert_eq!(e.cursor(5, 2), (2, 5));
}

#[test]
fn content_is_read_only_for_readable_non_spacer_cells() {
    assert!(reads_content(SUCCESS, WIDE_NARROW));
    assert!(reads_content(SUCCESS, WIDE_WIDE));
    assert!(!reads_content(SUCCESS, WIDE_SPACER_TAIL));
    assert!(!reads_content(SUCCESS, WIDE_SPACER_HEAD));
    assert!(!reads_content(-1, WIDE_NARROW));
    assert_eq!(content_read(CONTENT_BG_COLOR_PALETTE), ContentRead::Palette);
    assert_eq!(content_read(CONTENT_BG_COLOR_RGB), ContentRead::Rgb);
    assert_eq!(content_read(CONTENT_CODEPOINT_GRAPHEME), ContentRead::Codepoint);
    assert_eq!(content_read(0), ContentRead::Codepoint);
}

#[test]
fn geometry_follows_the_latest_resize_and_replies_accumulate() {
    let mut e = Engine::new(100, 30);
    for _ in 0..3 {
        e.on_write_pty();
    }
    assert!(!e.on_device_attributes());
    e.resize(0, 12);
    e.on_write_pty();
    assert_eq!((e.cols(), e.rows()), (1, 12));
    assert_eq!(e.suppressed_replies(), 5);
    let _ = e.line_cells(&LinePoint::Blank, &Vec::new());
    let _ = e.modes(&Vec::new());
    assert_eq!((e.cols(), e.rows(), e.suppressed_replies()), (1, 12, 5));
}
