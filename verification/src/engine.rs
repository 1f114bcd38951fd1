//! The engine seat: the geometry the engine was made and resized with, the count of replies it
//! swallowed, and the decisions the seat takes on what the engine reports (active screen,
//! cursor, scrollback window, private modes, grid lines).
//!
//! The engine is fed by the program around this library; each reading method here takes the
//! values that the engine call returned and states what the seat makes of them.

use vstd::prelude::*;

use crate::abi::{
    ansi_mode, dec_mode, law_mode_packing, spec_ansi_mode, spec_dec_mode, POINT_TAG_ACTIVE,
    POINT_TAG_HISTORY, SCREEN_ALTERNATE, SUCCESS,
};
use crate::grid::{
    blank_cell, law_spacer_carries_no_character, read_cell, row_wrapped, spec_blank,
    spec_grapheme_chars, spec_read_cell, spec_row_wrapped, CellView, GridCell, GridRead,
};

verus! {

/// The scrollback rows the seat exposes: the restore window is the newest this many rows.
pub const MIRROR_SCROLLBACK_LINES: usize = 1000;

/// The scrollback budget handed to the engine, in bytes. The engine's limit is a byte budget
/// and pruning drops a whole page, so the budget covers the window with a page to spare.
pub const SCROLLBACK_BUDGET_BYTES: usize = 8 * 1024 * 1024;

/// The options a terminal is made with.
#[derive(Clone, Copy, Debug, PartialEq, Eq, Structural)]
pub struct TerminalOptions {
    pub cols: u16,
    pub rows: u16,
    pub max_scrollback: usize,
}

/// A grid coordinate: column, and row within the screen or the history.
#[derive(Clone, Copy, Debug, PartialEq, Eq, Structural)]
pub struct PointCoordinate {
    pub x: u16,
    pub y: u32,
}

/// The private modes that a rehydrate reproduces.
#[derive(Clone, Copy, Debug, PartialEq, Eq, Structural)]
pub struct ModeSnap {
    pub bracketed_paste: bool,
    pub app_cursor: bool,
    pub app_keypad: bool,
    pub mouse_click: bool,
    pub mouse_drag: bool,
    pub mouse_motion: bool,
    pub sgr_mouse: bool,
    pub utf8_mouse: bool,
    pub focus_in_out: bool,
    pub alternate_scroll: bool,
    pub show_cursor: bool,
    pub line_wrap: bool,
    pub insert: bool,
}

/// Every mode off.
pub open spec fn spec_modes_off() -> ModeSnap {
    ModeSnap {
        bracketed_paste: false,
        app_cursor: false,
        app_keypad: false,
        mouse_click: false,
        mouse_drag: false,
        mouse_motion: false,
        sgr_mouse: false,
        utf8_mouse: false,
        focus_in_out: false,
        alternate_scroll: false,
        show_cursor: false,
        line_wrap: false,
        insert: false,
    }
}

impl Default for ModeSnap {
    fn default() -> (m: ModeSnap)
        ensures
            m == spec_modes_off(),
    {
        ModeSnap {
            bracketed_paste: false,
            app_cursor: false,
            app_keypad: false,
            mouse_click: false,
            mouse_drag: false,
            mouse_motion: false,
            sgr_mouse: false,
            utf8_mouse: false,
            focus_in_out: false,
            alternate_scroll: false,
            show_cursor: false,
            line_wrap: false,
            insert: false,
        }
    }
}

/// One mode query: the call's result and the value it wrote.
#[derive(Clone, Copy, Debug)]
pub struct ModeRead {
    pub result: i32,
    pub value: bool,
}

/// The packed identifiers of the restored modes, in the field order of [`ModeSnap`]:
/// bracketed paste 2004, application cursor 1, keypad keys 66 (set by DECKPAM), mouse click
/// 1000, drag 1002, motion 1003, SGR mouse 1006, UTF-8 mouse 1005, focus 1004, alternate
/// scroll 1007, cursor visible 25, auto-wrap 7 (all DEC private), and ANSI insert 4.
pub open spec fn spec_mode_ids() -> Seq<u16> {
    seq![
        spec_dec_mode(2004),
        spec_dec_mode(1),
        spec_dec_mode(66),
        spec_dec_mode(1000),
        spec_dec_mode(1002),
        spec_dec_mode(1003),
        spec_dec_mode(1006),
        spec_dec_mode(1005),
        spec_dec_mode(1004),
        spec_dec_mode(1007),
        spec_dec_mode(25),
        spec_dec_mode(7),
        spec_ansi_mode(4),
    ]
}

/// The number of restored modes.
pub const MODE_COUNT: usize = 13;

/// A mode is on when its query succeeded and reported it set.
pub open spec fn spec_mode_on(read: ModeRead) -> bool {
    read.result == SUCCESS && read.value
}

/// The mode at position `k` of the query answers, off where there is no answer.
pub open spec fn spec_mode_at(reads: Seq<ModeRead>, k: int) -> bool {
    k < reads.len() && spec_mode_on(reads[k])
}

/// The mode snapshot of the answers to the queries of [`spec_mode_ids`], in that order.
pub open spec fn spec_modes(reads: Seq<ModeRead>) -> ModeSnap {
    ModeSnap {
        bracketed_paste: spec_mode_at(reads, 0),
        app_cursor: spec_mode_at(reads, 1),
        app_keypad: spec_mode_at(reads, 2),
        mouse_click: spec_mode_at(reads, 3),
        mouse_drag: spec_mode_at(reads, 4),
        mouse_motion: spec_mode_at(reads, 5),
        sgr_mouse: spec_mode_at(reads, 6),
        utf8_mouse: spec_mode_at(reads, 7),
        focus_in_out: spec_mode_at(reads, 8),
        alternate_scroll: spec_mode_at(reads, 9),
        show_cursor: spec_mode_at(reads, 10),
        line_wrap: spec_mode_at(reads, 11),
        insert: spec_mode_at(reads, 12),
    }
}

/// Where a line of the grid is read.
#[derive(Clone, Copy, Debug, PartialEq, Eq, Structural)]
pub enum LinePoint {
    /// The line lies beyond the retained history: it reads as a blank row.
    Blank,
    /// The line is row `y` of the coordinate space `tag`.
    At { tag: i32, y: u32 },
}

/// Where line `line` is read when the engine retains `retained` history rows: lines 0.. are
/// the visible screen; negative lines count back through the history from its newest row
/// (-1), whose history coordinates run from 0 (the oldest retained row).
pub open spec fn spec_line_point(line: i32, retained: usize) -> LinePoint {
    if line >= 0 {
        LinePoint::At { tag: POINT_TAG_ACTIVE, y: line as u32 }
    } else if retained + line < 0 {
        LinePoint::Blank
    } else {
        LinePoint::At { tag: POINT_TAG_HISTORY, y: (retained + line) as u32 }
    }
}

/// The coordinate of column `x` of a line, none for a blank line.
pub open spec fn spec_coordinate(point: LinePoint, x: u16) -> Option<(i32, PointCoordinate)> {
    match point {
        LinePoint::Blank => None,
        LinePoint::At { tag, y } => Some((tag, PointCoordinate { x, y })),
    }
}

impl LinePoint {
    /// The coordinate of column `x` of this line, none for a blank line.
    pub fn coordinate(&self, x: u16) -> (c: Option<(i32, PointCoordinate)>)
        ensures
            c == spec_coordinate(*self, x),
    {
        match self {
            LinePoint::Blank => None,
            LinePoint::At { tag, y } => Some((*tag, PointCoordinate { x, y: *y })),
        }
    }
}

/// The row is wrapped when the first column was read and its row read says so.
pub open spec fn spec_line_wrapped(reads: Seq<Option<GridRead>>) -> bool {
    reads.len() > 0 && match reads[0] {
        Some(read) => match read.row {
            Some(row) => spec_row_wrapped(row),
            None => false,
        },
        None => false,
    }
}

/// The cell at column `i` of the reads before the row's wrap flag is applied: the cell of the
/// read, blank where the column has no grid reference.
pub open spec fn spec_column_cell(reads: Seq<Option<GridRead>>, i: int) -> CellView {
    if i < reads.len() {
        match reads[i] {
            Some(read) => spec_read_cell(read),
            None => spec_blank(),
        }
    } else {
        spec_blank()
    }
}

/// A cell with its wrap flag set to `wrapline`.
pub open spec fn with_wrapline(c: CellView, wrapline: bool) -> CellView {
    CellView { wrapline, ..c }
}

/// Column `i` of a line of `cols` columns read at `point` from `reads`: a blank row for a blank
/// point; else each column's cell, the last one carrying the row's wrap flag.
pub open spec fn spec_line_cell(
    point: LinePoint,
    reads: Seq<Option<GridRead>>,
    cols: u16,
    i: int,
) -> CellView {
    match point {
        LinePoint::Blank => spec_blank(),
        LinePoint::At { .. } => if i == cols - 1 {
            with_wrapline(spec_column_cell(reads, i), spec_line_wrapped(reads))
        } else {
            spec_column_cell(reads, i)
        },
    }
}

/// The number of history rows exposed when the engine retains `retained`: at most the window.
pub open spec fn spec_history_size(retained: usize) -> usize {
    if retained < MIRROR_SCROLLBACK_LINES {
        retained
    } else {
        MIRROR_SCROLLBACK_LINES
    }
}

/// A screen dimension as the seat keeps it: at least 1.
pub open spec fn spec_dimension(v: u16) -> u16 {
    if v == 0 {
        1
    } else {
        v
    }
}

/// One more swallowed reply, saturating at the counter's maximum.
pub open spec fn spec_bumped(n: u64) -> u64 {
    if n < u64::MAX {
        (n + 1) as u64
    } else {
        u64::MAX
    }
}

/// A change of the seat's state. Every other method of [`Engine`] takes `&self` and changes
/// nothing.
pub enum SeatEvent {
    /// The terminal is resized to the given columns and rows.
    Resize(u16, u16),
    /// The engine produced a reply (through `write_pty` or `device_attributes`) while it parsed
    /// fed bytes; the seat counted and dropped it.
    Reply,
}

/// The state of a seat made for a `cols` x `rows` terminal.
pub open spec fn spec_fresh(cols: u16, rows: u16) -> SeatView {
    SeatView { cols: spec_dimension(cols), rows: spec_dimension(rows), suppressed: 0 }
}

/// The state after one event.
pub open spec fn spec_step(s: SeatView, e: SeatEvent) -> SeatView {
    match e {
        SeatEvent::Resize(cols, rows) => SeatView {
            cols: spec_dimension(cols),
            rows: spec_dimension(rows),
            suppressed: s.suppressed,
        },
        SeatEvent::Reply => SeatView {
            cols: s.cols,
            rows: s.rows,
            suppressed: spec_bumped(s.suppressed),
        },
    }
}

/// The state after a sequence of events, in order.
pub open spec fn spec_run(s: SeatView, events: Seq<SeatEvent>) -> SeatView
    decreases events.len(),
{
    if events.len() == 0 {
        s
    } else {
        spec_step(spec_run(s, events.drop_last()), events.last())
    }
}

/// The number of replies among the events.
pub open spec fn spec_replies(events: Seq<SeatEvent>) -> nat
    decreases events.len(),
{
    if events.len() == 0 {
        0
    } else {
        spec_replies(events.drop_last()) + match events.last() {
            SeatEvent::Reply => 1nat,
            SeatEvent::Resize(..) => 0nat,
        }
    }
}

/// The column argument of the latest resize among the events, `cols` if there is none.
pub open spec fn spec_latest_cols(cols: u16, events: Seq<SeatEvent>) -> u16
    decreases events.len(),
{
    if events.len() == 0 {
        cols
    } else {
        match events.last() {
            SeatEvent::Resize(c, _) => c,
            SeatEvent::Reply => spec_latest_cols(cols, events.drop_last()),
        }
    }
}

/// The row argument of the latest resize among the events, `rows` if there is none.
pub open spec fn spec_latest_rows(rows: u16, events: Seq<SeatEvent>) -> u16
    decreases events.len(),
{
    if events.len() == 0 {
        rows
    } else {
        match events.last() {
            SeatEvent::Resize(_, r) => r,
            SeatEvent::Reply => spec_latest_rows(rows, events.drop_last()),
        }
    }
}

/// `n` plus `k`, saturating at the counter's maximum.
pub open spec fn spec_saturating_sum(n: u64, k: nat) -> u64 {
    if n + k < u64::MAX {
        (n + k) as u64
    } else {
        u64::MAX
    }
}

/// The count of reply-producing queries whose replies were dropped.
struct Counters {
    suppressed: u64,
}

/// The state of the seat: the terminal's geometry and the swallowed replies.
pub struct SeatView {
    pub cols: u16,
    pub rows: u16,
    pub suppressed: u64,
}

/// The seat of the headless VT engine: its geometry (never below one column and one row) and
/// the count of replies it swallowed. A mirror renders bytes into a screen state and never
/// writes a byte back: each reply the engine would send is counted and dropped.
pub struct Engine {
    cols: u16,
    rows: u16,
    counters: Counters,
}

impl View for Engine {
    type V = SeatView;

    closed spec fn view(&self) -> SeatView {
        SeatView { cols: self.cols, rows: self.rows, suppressed: self.counters.suppressed }
    }
}

impl Engine {
    #[verifier::type_invariant]
    spec fn geometry_is_positive(self) -> bool {
        self.cols >= 1 && self.rows >= 1
    }

    /// A seat for a `cols` x `rows` terminal (each at least 1) that has swallowed nothing.
    pub fn new(cols: u16, rows: u16) -> (e: Engine)
        ensures
            e@.cols == spec_dimension(cols),
            e@.rows == spec_dimension(rows),
            e@.suppressed == 0,
            e@ == spec_fresh(cols, rows),
    {
        let cols = if cols == 0 {
            1
        } else {
            cols
        };
        let rows = if rows == 0 {
            1
        } else {
            rows
        };
        Engine { cols, rows, counters: Counters { suppressed: 0 } }
    }

    /// The options the terminal is made with: the seat's geometry and the scrollback budget.
    pub fn terminal_options(&self) -> (o: TerminalOptions)
        ensures
            o == (TerminalOptions {
                cols: self@.cols,
                rows: self@.rows,
                max_scrollback: SCROLLBACK_BUDGET_BYTES,
            }),
    {
        TerminalOptions { cols: self.cols, rows: self.rows, max_scrollback: SCROLLBACK_BUDGET_BYTES }
    }

    /// Whether fed bytes are handed to the engine: an empty feed is not.
    pub fn forwards_feed(bytes: &[u8]) -> (forwarded: bool)
        ensures
            forwarded == (bytes@.len() > 0),
    {
        bytes.len() > 0
    }

    /// Resizes the seat to `cols` x `rows` (each at least 1) and returns the size to hand to the
    /// engine; the swallowed-reply count is kept.
    pub fn resize(&mut self, cols: u16, rows: u16) -> (size: (u16, u16))
        ensures
            final(self)@.cols == spec_dimension(cols),
            final(self)@.rows == spec_dimension(rows),
            final(self)@.suppressed == old(self)@.suppressed,
            size == (final(self)@.cols, final(self)@.rows),
            final(self)@ == spec_step(old(self)@, SeatEvent::Resize(cols, rows)),
    {
        proof {
            use_type_invariant(&*self);
        }
        self.cols = if cols == 0 {
            1
        } else {
            cols
        };
        self.rows = if rows == 0 {
            1
        } else {
            rows
        };
        (self.cols, self.rows)
    }

    /// The number of columns, at least 1.
    pub fn cols(&self) -> (c: u16)
        ensures
            c == self@.cols,
            c >= 1,
    {
        proof {
            use_type_invariant(self);
        }
        self.cols
    }

    /// The number of rows, at least 1.
    pub fn rows(&self) -> (r: u16)
        ensures
            r == self@.rows,
            r >= 1,
    {
        proof {
            use_type_invariant(self);
        }
        self.rows
    }

    /// Whether the alternate screen is active, from the active-screen query's result and value:
    /// only a successful query that names the alternate screen says so.
    pub fn alt_active(&self, result: i32, screen: i32) -> (alt: bool)
        ensures
            alt == (result == SUCCESS && screen == SCREEN_ALTERNATE),
    {
        result == SUCCESS && screen == SCREEN_ALTERNATE
    }

    /// The cursor position as (row, column) on the screen, from its column `x` and row `y`.
    pub fn cursor(&self, x: u16, y: u16) -> (pos: (usize, usize))
        ensures
            pos == (y as usize, x as usize),
    {
        (y as usize, x as usize)
    }

    /// The history rows the engine actually retains, from the scrollback query's result and
    /// value: none when the query failed.
    pub fn retained_rows(&self, result: i32, n: usize) -> (retained: usize)
        ensures
            retained == (if result == SUCCESS {
                n
            } else {
                0
            }),
    {
        if result == SUCCESS {
            n
        } else {
            0
        }
    }

    /// The history rows of the restore window: the newest [`MIRROR_SCROLLBACK_LINES`] of the
    /// `retained` rows.
    pub fn history_size(&self, retained: usize) -> (n: usize)
        ensures
            n == spec_history_size(retained),
    {
        if retained < MIRROR_SCROLLBACK_LINES {
            retained
        } else {
            MIRROR_SCROLLBACK_LINES
        }
    }

    /// The packed identifiers to query, in the order [`Engine::modes`] reads their answers.
    pub fn mode_ids() -> (ids: Vec<u16>)
        ensures
            ids@ == spec_mode_ids(),
    {
        let mut ids: Vec<u16> = Vec::new();
        ids.push(dec_mode(2004));
        ids.push(dec_mode(1));
        ids.push(dec_mode(66));
        ids.push(dec_mode(1000));
        ids.push(dec_mode(1002));
        ids.push(dec_mode(1003));
        ids.push(dec_mode(1006));
        ids.push(dec_mode(1005));
        ids.push(dec_mode(1004));
        ids.push(dec_mode(1007));
        ids.push(dec_mode(25));
        ids.push(dec_mode(7));
        ids.push(ansi_mode(4));
        assert(ids@ =~= spec_mode_ids());
        ids
    }

    /// Whether one mode query says the mode is set.
    pub fn mode(&self, read: &ModeRead) -> (on: bool)
        ensures
            on == spec_mode_on(*read),
    {
        read.result == SUCCESS && read.value
    }

    /// The mode snapshot of the answers to the queries of [`Engine::mode_ids`], in that order;
    /// a missing or failed answer reads as off.
    pub fn modes(&self, reads: &Vec<ModeRead>) -> (m: ModeSnap)
        ensures
            m == spec_modes(reads@),
    {
        ModeSnap {
            bracketed_paste: self.mode_at(reads, 0),
            app_cursor: self.mode_at(reads, 1),
            app_keypad: self.mode_at(reads, 2),
            mouse_click: self.mode_at(reads, 3),
            mouse_drag: self.mode_at(reads, 4),
            mouse_motion: self.mode_at(reads, 5),
            sgr_mouse: self.mode_at(reads, 6),
            utf8_mouse: self.mode_at(reads, 7),
            focus_in_out: self.mode_at(reads, 8),
            alternate_scroll: self.mode_at(reads, 9),
            show_cursor: self.mode_at(reads, 10),
            line_wrap: self.mode_at(reads, 11),
            insert: self.mode_at(reads, 12),
        }
    }

    fn mode_at(&self, reads: &Vec<ModeRead>, k: usize) -> (on: bool)
        ensures
            on == spec_mode_at(reads@, k as int),
    {
        if k < reads.len() {
            self.mode(&reads[k])
        } else {
            false
        }
    }

    /// The number of reply-producing queries the engine swallowed; no reply byte ever left.
    pub fn suppressed_replies(&self) -> (n: u64)
        ensures
            n == self@.suppressed,
    {
        self.counters.suppressed
    }

    /// The engine wants to write reply bytes back (DSR, DECRQM, ENQ, color queries): count the
    /// reply; its bytes are dropped.
    pub fn on_write_pty(&mut self)
        ensures
            final(self)@.suppressed == spec_bumped(old(self)@.suppressed),
            final(self)@.cols == old(self)@.cols,
            final(self)@.rows == old(self)@.rows,
            final(self)@ == spec_step(old(self)@, SeatEvent::Reply),
    {
        proof {
            use_type_invariant(&*self);
        }
        self.counters.suppressed = self.counters.suppressed.saturating_add(1);
    }

    /// The engine asks whether to answer a device-attributes query (DA1/DA2/DA3): count it and
    /// answer nothing.
    pub fn on_device_attributes(&mut self) -> (answered: bool)
        ensures
            !answered,
            final(self)@.suppressed == spec_bumped(old(self)@.suppressed),
            final(self)@.cols == old(self)@.cols,
            final(self)@.rows == old(self)@.rows,
            final(self)@ == spec_step(old(self)@, SeatEvent::Reply),
    {
        proof {
            use_type_invariant(&*self);
        }
        self.counters.suppressed = self.counters.suppressed.saturating_add(1);
        false
    }

    /// Where line `line` is read when the engine retains `retained` history rows.
    pub fn line_point(&self, line: i32, retained: usize) -> (p: LinePoint)
        ensures
            p == spec_line_point(line, retained),
    {
        if line >= 0 {
            LinePoint::At { tag: POINT_TAG_ACTIVE, y: line as u32 }
        } else {
            let back: u64 = (0i64 - line as i64) as u64;
            let total: u64 = retained as u64;
            if back > total {
                LinePoint::Blank
            } else {
                let y: u64 = total - back;
                LinePoint::At { tag: POINT_TAG_HISTORY, y: y as u32 }
            }
        }
    }

    /// Whether the row of column `col` is read: the row's wrap flag belongs to the whole row,
    /// so only the first column reads it.
    pub fn needs_row_read(col: u16) -> (needed: bool)
        ensures
            needed == (col == 0),
    {
        col == 0
    }

    /// One line of the grid as engine-neutral cells, from its point and from what was read
    /// through the grid reference of each column (none where the column had no reference).
    /// The line is always `cols` cells long, spacers included; a blank point gives a blank row;
    /// the last cell carries the row's wrap flag.
    pub fn line_cells(&self, point: &LinePoint, reads: &Vec<Option<GridRead>>) -> (out: Vec<
        GridCell,
    >)
        ensures
            out@.len() == self@.cols,
            forall|i: int|
                0 <= i < self@.cols ==> (#[trigger] out@[i])@ == spec_line_cell(
                    *point,
                    reads@,
                    self@.cols,
                    i,
                ),
    {
        let cols = self.cols();
        let mut out: Vec<GridCell> = Vec::new();
        let blank_line = match point {
            LinePoint::Blank => true,
            LinePoint::At { .. } => false,
        };
        let wrapped = if reads.len() > 0 {
            match &reads[0] {
                Some(read) => match &read.row {
                    Some(row) => row_wrapped(row),
                    None => false,
                },
                None => false,
            }
        } else {
            false
        };
        let mut col: u16 = 0;
        while col < cols
            invariant
                col <= cols,
                cols == self@.cols,
                blank_line == (*point is Blank),
                wrapped == spec_line_wrapped(reads@),
                out@.len() == col,
                forall|i: int|
                    0 <= i < col ==> (#[trigger] out@[i])@ == spec_line_cell(
                        *point,
                        reads@,
                        cols,
                        i,
                    ),
            decreases cols - col,
        {
            let mut cell = if blank_line {
                blank_cell()
            } else if (col as usize) < reads.len() {
                match &reads[col as usize] {
                    Some(read) => read_cell(read),
                    None => blank_cell(),
                }
            } else {
                blank_cell()
            };
            if !blank_line && col == cols - 1 {
                cell.wrapline = wrapped;
            }
            out.push(cell);
            col = col + 1;
        }
        out
    }
}

/// The restored modes are queried under pairwise distinct identifiers, so each field of a
/// [`ModeSnap`] reads its own mode.
pub proof fn law_mode_ids_distinct()
    ensures
        spec_mode_ids().len() == MODE_COUNT,
        forall|i: int, j: int|
            0 <= i < j < spec_mode_ids().len() ==> spec_mode_ids()[i] != spec_mode_ids()[j],
{
    law_mode_packing(2004, 0);
    law_mode_packing(1, 0);
    law_mode_packing(66, 0);
    law_mode_packing(1000, 0);
    law_mode_packing(1002, 0);
    law_mode_packing(1003, 0);
    law_mode_packing(1006, 0);
    law_mode_packing(1005, 0);
    law_mode_packing(1004, 0);
    law_mode_packing(1007, 0);
    law_mode_packing(25, 0);
    law_mode_packing(7, 0);
    law_mode_packing(4, 0);
}

/// The seat never exposes more history than the restore window, and exposes every retained
/// row while they fit in it.
pub proof fn law_history_window(retained: usize)
    ensures
        spec_history_size(retained) <= MIRROR_SCROLLBACK_LINES,
        spec_history_size(retained) <= retained,
        retained <= MIRROR_SCROLLBACK_LINES ==> spec_history_size(retained) == retained,
        retained >= MIRROR_SCROLLBACK_LINES ==> spec_history_size(retained)
            == MIRROR_SCROLLBACK_LINES,
{
}

/// Line -1 is the newest retained history row and line -retained the oldest; a line further
/// back than the retained history reads as blank; of two history lines the later one has the
/// larger history coordinate; non-negative lines name screen rows.
pub proof fn law_scrollback_indexing(retained: usize, line: i32, other: i32)
    requires
        retained <= u32::MAX,
    ensures
        retained >= 1 ==> spec_line_point(-1i32, retained) == (LinePoint::At {
            tag: POINT_TAG_HISTORY,
            y: (retained - 1) as u32,
        }),
        1 <= retained <= i32::MAX ==> spec_line_point((0 - retained) as i32, retained) == (
        LinePoint::At { tag: POINT_TAG_HISTORY, y: 0 }),
        line < 0 && retained + line < 0 ==> spec_line_point(line, retained) == LinePoint::Blank,
        line >= 0 ==> spec_line_point(line, retained) == (LinePoint::At {
            tag: POINT_TAG_ACTIVE,
            y: line as u32,
        }),
        0 - retained <= line < other < 0 ==> spec_line_point(line, retained)->y
            < spec_line_point(other, retained)->y,
        0 - spec_history_size(retained) <= line < 0 ==> spec_line_point(line, retained) is At,
        0 - retained <= line < 0 ==> spec_line_point(line, retained) == (LinePoint::At {
            tag: POINT_TAG_HISTORY,
            y: (retained + line) as u32,
        }),
{
}

/// After any sequence of events, the swallowed-reply count is the earlier count plus the number
/// of replies, saturating at the counter's maximum, and it never decreased; the geometry is
/// the latest resize's, or the earlier one where there was none.
pub proof fn law_run(s: SeatView, events: Seq<SeatEvent>)
    ensures
        spec_run(s, events).suppressed == spec_saturating_sum(s.suppressed, spec_replies(events)),
        spec_run(s, events).suppressed >= s.suppressed,
        spec_replies(events) == 0 ==> spec_run(s, events).suppressed == s.suppressed,
        (forall|i: int| 0 <= i < events.len() ==> events[i] is Reply) ==> spec_run(s, events).cols
            == s.cols && spec_run(s, events).rows == s.rows,
    decreases events.len(),
{
    if events.len() > 0 {
        law_run(s, events.drop_last());
        assert forall|i: int|
            0 <= i < events.drop_last().len() implies events.drop_last()[i] == events[i] by {}
    }
}

/// A seat made for `cols` x `rows` and then taken through any sequence of events has the
/// column and row arguments of the latest `new` or `resize`, each at least 1, and counts
/// exactly the replies the engine produced, saturating at the counter's maximum; a fresh
/// seat counts none.
pub proof fn law_seat_history(cols: u16, rows: u16, events: Seq<SeatEvent>)
    ensures
        spec_run(spec_fresh(cols, rows), events).cols == spec_dimension(
            spec_latest_cols(cols, events),
        ),
        spec_run(spec_fresh(cols, rows), events).rows == spec_dimension(
            spec_latest_rows(rows, events),
        ),
        spec_run(spec_fresh(cols, rows), events).cols >= 1,
        spec_run(spec_fresh(cols, rows), events).rows >= 1,
        spec_run(spec_fresh(cols, rows), events).suppressed == spec_saturating_sum(
            0,
            spec_replies(events),
        ),
        events.len() == 0 ==> spec_run(spec_fresh(cols, rows), events).suppressed == 0,
    decreases events.len(),
{
    law_run(spec_fresh(cols, rows), events);
    if events.len() > 0 {
        law_seat_history(cols, rows, events.drop_last());
    }
}

/// Whether `on` is the answer to the query of the mode packed as `id`: `id` is queried, and
/// at each position where it is queried the answer is a successful query that reports the mode
/// set (a missing answer reads as off).
pub open spec fn answers_mode(reads: Seq<ModeRead>, id: u16, on: bool) -> bool {
    &&& exists|k: int| 0 <= k < spec_mode_ids().len() && spec_mode_ids()[k] == id
    &&& forall|k: int|
        0 <= k < spec_mode_ids().len() && spec_mode_ids()[k] == id ==> on == (k < reads.len()
            && reads[k].result == SUCCESS && reads[k].value)
}

/// Every field of the mode snapshot is the answer to the query of its own mode: bracketed paste
/// DEC 2004, application cursor DEC 1, keypad keys DEC 66, mouse click DEC 1000, drag DEC 1002,
/// motion DEC 1003, SGR mouse DEC 1006, UTF-8 mouse DEC 1005, focus DEC 1004, alternate scroll
/// DEC 1007, cursor visible DEC 25, auto-wrap DEC 7, insert ANSI 4 (packed 0x8004).
pub proof fn law_modes_answer_their_own_queries(reads: Seq<ModeRead>)
    ensures
        answers_mode(reads, 2004, spec_modes(reads).bracketed_paste),
        answers_mode(reads, 1, spec_modes(reads).app_cursor),
        answers_mode(reads, 66, spec_modes(reads).app_keypad),
        answers_mode(reads, 1000, spec_modes(reads).mouse_click),
        answers_mode(reads, 1002, spec_modes(reads).mouse_drag),
        answers_mode(reads, 1003, spec_modes(reads).mouse_motion),
        answers_mode(reads, 1006, spec_modes(reads).sgr_mouse),
        answers_mode(reads, 1005, spec_modes(reads).utf8_mouse),
        answers_mode(reads, 1004, spec_modes(reads).focus_in_out),
        answers_mode(reads, 1007, spec_modes(reads).alternate_scroll),
        answers_mode(reads, 25, spec_modes(reads).show_cursor),
        answers_mode(reads, 7, spec_modes(reads).line_wrap),
        answers_mode(reads, 0x8004, spec_modes(reads).insert),
{
    law_mode_ids_distinct();
    law_mode_packing(2004, 0);
    law_mode_packing(1, 0);
    law_mode_packing(66, 0);
    law_mode_packing(1000, 0);
    law_mode_packing(1002, 0);
    law_mode_packing(1003, 0);
    law_mode_packing(1006, 0);
    law_mode_packing(1005, 0);
    law_mode_packing(1004, 0);
    law_mode_packing(1007, 0);
    law_mode_packing(25, 0);
    law_mode_packing(7, 0);
    law_mode_packing(4, 0);
    let ids = spec_mode_ids();
    assert(ids[0] == 2004 && ids[1] == 1 && ids[2] == 66 && ids[3] == 1000 && ids[4] == 1002);
    assert(ids[5] == 1003 && ids[6] == 1006 && ids[7] == 1005 && ids[8] == 1004);
    assert(ids[9] == 1007 && ids[10] == 25 && ids[11] == 7 && ids[12] == 0x8004);
}

/// A line read at any point that is not blank, screen or history alike, holds at each column
/// the cell read at that column (blank where the column had no grid reference), and its last
/// cell carries the wrap flag of the row read at the first column: set exactly when the first
/// column was read, its row was read, both row calls succeeded and the flag is set.
pub proof fn law_line_columns_and_wrap(
    point: LinePoint,
    reads: Seq<Option<GridRead>>,
    cols: u16,
    i: int,
)
    requires
        point is At,
        0 <= i < cols,
    ensures
        ({
            let cell = spec_line_cell(point, reads, cols, i);
            let read = if i < reads.len() {
                match reads[i] {
                    Some(r) => spec_read_cell(r),
                    None => spec_blank(),
                }
            } else {
                spec_blank()
            };
            let wrapped = reads.len() > 0 && match reads[0] {
                Some(r) => match r.row {
                    Some(row) => row.row_result == SUCCESS && row.get_result == SUCCESS
                        && row.wrap,
                    None => false,
                },
                None => false,
            };
            &&& i < cols - 1 ==> cell == read
            &&& i == cols - 1 ==> cell == (CellView { wrapline: wrapped, ..read })
        }),
{
}

/// Column `x` of a line that is not blank lies at that column of the line's row in the line's
/// coordinate space; a blank line has no coordinate.
pub proof fn law_coordinate(point: LinePoint, x: u16)
    ensures
        point matches LinePoint::At { tag, y } ==> spec_coordinate(point, x) == Some(
            (tag, PointCoordinate { x, y }),
        ),
        point is Blank ==> spec_coordinate(point, x) is None,
{
}

/// A requested dimension is kept as given, except 0, which becomes 1.
pub proof fn law_dimension(v: u16)
    ensures
        v == 0 ==> spec_dimension(v) == 1,
        v >= 1 ==> spec_dimension(v) == v,
{
}

/// The swallowed-reply count never decreases: each swallowed reply adds one until the counter
/// saturates.
pub proof fn law_count_never_decreases(n: u64)
    ensures
        spec_bumped(n) >= n,
        n < u64::MAX ==> spec_bumped(n) == n + 1,
        n == u64::MAX ==> spec_bumped(n) == n,
{
}

/// Every line read has exactly `cols` cells, only its last cell can carry the wrap flag, and a
/// blank point gives a blank row.
pub proof fn law_line_shape(
    point: LinePoint,
    reads: Seq<Option<GridRead>>,
    cols: u16,
    i: int,
)
    requires
        0 <= i < cols,
    ensures
        i < cols - 1 ==> !spec_line_cell(point, reads, cols, i).wrapline,
        point is Blank ==> spec_line_cell(point, reads, cols, i) == spec_blank(),
{
    if i < reads.len() {
        match reads[i] {
            Some(r) => {
                law_spacer_carries_no_character(
                    r.cell,
                    spec_grapheme_chars(r.graphemes),
                );
            },
            None => {},
        }
    }
}

} // verus!
