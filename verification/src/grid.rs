//! The grid of a terminal: its points, what moves over it, and the mathematical picture of the
//! emulator that the contracts of this crate speak of.
use vstd::prelude::*;

verus! {

/// A cell of the grid. Line 0 is the topmost line of the screen; the scrollback has the lines
/// below zero.
#[derive(Clone, Copy, Debug, PartialEq, Eq, Structural)]
pub struct GridPoint {
    pub line: i32,
    pub column: usize,
}

/// A run of cells, both ends included.
#[derive(Clone, Copy, Debug, PartialEq, Eq, Structural)]
pub struct GridRange {
    pub start: GridPoint,
    pub end: GridPoint,
}

/// The side of a cell.
#[derive(Clone, Copy, Debug, PartialEq, Eq, Structural)]
pub enum Side {
    Left,
    Right,
}

/// A movement of the display over the scrollback; a positive delta goes up.
#[derive(Clone, Copy, Debug, PartialEq, Eq, Structural)]
pub enum Scroll {
    Delta(i32),
    PageUp,
    PageDown,
    Top,
    Bottom,
}

/// A movement of the vi mode cursor.
#[derive(Clone, Copy, Debug, PartialEq, Eq, Structural)]
pub enum ViMotion {
    Up,
    Down,
    Left,
    Right,
    First,
    Last,
    FirstOccupied,
    High,
    Middle,
    Low,
    WordLeft,
    WordRight,
    WordRightEnd,
    Bracket,
}

/// How far a selection reaches out from the points it was given.
#[derive(Clone, Copy, Debug, PartialEq, Eq, Structural)]
pub enum SelectionType {
    Simple,
    Block,
    Semantic,
    Lines,
}

/// The cells a selection covers.
#[derive(Clone, Copy, Debug, PartialEq, Eq, Structural)]
pub struct SelectionRange {
    pub start: GridPoint,
    pub end: GridPoint,
    pub is_block: bool,
}

/// The shape in which the cursor is drawn.
#[derive(Clone, Copy, Debug, PartialEq, Eq, Structural)]
pub enum CursorShape {
    Block,
    Underline,
    Beam,
    HollowBlock,
    Hidden,
}

/// The shape of the cursor, and whether it blinks.
#[derive(Clone, Copy, Debug, PartialEq, Eq, Structural)]
pub struct CursorStyle {
    pub shape: CursorShape,
    pub blinking: bool,
}

/// The cursor as it is to be drawn.
#[derive(Clone, Copy, Debug, PartialEq, Eq, Structural)]
pub struct RenderableCursor {
    pub shape: CursorShape,
    pub point: GridPoint,
}

/// A colour in red, green and blue.
#[derive(Clone, Copy, Debug, PartialEq, Eq, Structural)]
pub struct Rgb {
    pub r: u8,
    pub g: u8,
    pub b: u8,
}

/// What this library sets of the emulator's configuration; the rest keeps its default.
#[derive(Clone, Copy, Debug, PartialEq, Eq, Structural)]
pub struct TermConfig {
    pub scrolling_history: usize,
    pub default_cursor_style: CursorStyle,
}

impl TermConfig {
    /// Whether the lines of a scrollback of this length and of any screen can be counted together.
    pub open spec fn is_limited(self) -> bool {
        self.scrolling_history + i32::MAX <= usize::MAX
    }
}

/// The modes of a terminal, one bit each.
#[derive(Clone, Copy, Debug, PartialEq, Eq, Structural)]
pub struct TermMode {
    pub bits: u32,
}

/// The cursor is shown.
pub const SHOW_CURSOR: u32 = 1;

/// Mouse clicks are reported to the program.
pub const MOUSE_REPORT_CLICK: u32 = 8;

/// A line that is full goes on in the next.
pub const LINE_WRAP: u32 = 128;

/// Pasted text is put in brackets.
pub const BRACKETED_PASTE: u32 = 16;

/// Mouse movements are reported to the program.
pub const MOUSE_MOTION: u32 = 64;

/// Focus changes are reported to the program.
pub const FOCUS_IN_OUT: u32 = 2048;

/// The alternate screen is shown.
pub const ALT_SCREEN: u32 = 4096;

/// Mouse drags are reported to the program.
pub const MOUSE_DRAG: u32 = 8192;

/// On the alternate screen, the wheel sends arrow keys.
pub const ALTERNATE_SCROLL: u32 = 32768;

/// Vi mode.
pub const VI: u32 = 65536;

/// Any of the modes in which the mouse belongs to the program.
pub const MOUSE_MODE: u32 = MOUSE_REPORT_CLICK | MOUSE_MOTION | MOUSE_DRAG;

/// The modes of a new terminal: cursor shown, lines wrapped, alternate scroll, urgency hints.
pub const DEFAULT_MODE: u32 = 163969;

/// The cell's line goes on in the next line of the grid.
pub const WRAPLINE: u16 = 16;

/// The cell holds a character two columns wide.
pub const WIDE_CHAR: u16 = 32;

/// The cell is the second column of a wide character.
pub const WIDE_CHAR_SPACER: u16 = 64;

/// The cell was left free because a wide character did not fit.
pub const LEADING_WIDE_CHAR_SPACER: u16 = 1024;

impl TermMode {
    /// Whether every mode of `modes` is on.
    pub open spec fn has(self, modes: u32) -> bool {
        self.bits & modes == modes
    }

    /// Whether any mode of `modes` is on.
    pub open spec fn has_any(self, modes: u32) -> bool {
        self.bits & modes != 0
    }

    /// Whether every mode of `modes` is on.
    pub fn contains(&self, modes: u32) -> (r: bool)
        ensures
            r == self.has(modes),
    {
        self.bits & modes == modes
    }

    /// Whether any mode of `modes` is on.
    pub fn intersects(&self, modes: u32) -> (r: bool)
        ensures
            r == self.has_any(modes),
    {
        self.bits & modes != 0
    }
}

impl GridPoint {
    /// Whether the point comes before another one, line by line.
    pub open spec fn precedes(self, other: GridPoint) -> bool {
        self.line < other.line || (self.line == other.line && self.column < other.column)
    }
}

/// One end of a selection.
pub struct AnchorView {
    pub point: GridPoint,
    pub side: Side,
}

/// A selection: its kind, where it was started and where it ends.
pub struct SelectionView {
    pub ty: SelectionType,
    pub start: AnchorView,
    pub end: AnchorView,
}

impl SelectionView {
    /// The higher of the lines in which the selection starts and ends.
    pub open spec fn top_line(self) -> int {
        smaller(self.start.point.line as int, self.end.point.line as int)
    }

    /// Whether it can be told which cells are selected: those of no block of columns, and not those
    /// from the right side of a cell to its left side in the last column that can be counted.
    pub open spec fn is_sound(self) -> bool {
        &&& self.ty != SelectionType::Block
        &&& !(self.ty == SelectionType::Simple && self.start.point == self.end.point
            && self.start.point.column == usize::MAX && self.start.side == Side::Right
            && self.end.side == Side::Left)
    }

    /// Whether there is no cell between the ends of a sound selection.
    pub open spec fn is_empty(self) -> bool {
        let backwards = self.end.point.precedes(self.start.point);
        let first = if backwards {
            self.end
        } else {
            self.start
        };
        let last = if backwards {
            self.start
        } else {
            self.end
        };
        self.ty == SelectionType::Simple && (first == last || (first.side == Side::Right
            && last.side == Side::Left && first.point.line == last.point.line && first.point.column
            + 1 == last.point.column))
    }

    /// The selection from and to the outer sides of the cells in which it starts and ends.
    pub open spec fn all_included(self) -> SelectionView {
        let backwards = self.end.point.precedes(self.start.point);
        let (start, end) = if backwards {
            (Side::Right, Side::Left)
        } else {
            (Side::Left, Side::Right)
        };
        SelectionView {
            start: AnchorView { side: start, ..self.start },
            end: AnchorView { side: end, ..self.end },
            ..self
        }
    }

    /// The selection with its end moved.
    pub open spec fn with_end(self, point: GridPoint, side: Side) -> SelectionView {
        SelectionView { end: AnchorView { point, side }, ..self }
    }

    /// The selection once the vi mode cursor is at the given cell: one that is not empty ends
    /// there.
    pub open spec fn following(self, p: GridPoint) -> SelectionView {
        if self.is_empty() {
            self
        } else {
            self.with_end(p, Side::Left).all_included()
        }
    }
}

/// A cell of the grid: its character, its flags, the address of its hyperlink, and, in `look`,
/// what decides about its looks alone.
#[verifier::ext_equal]
pub struct CellView {
    pub c: char,
    pub flags: u16,
    pub link: Option<Seq<char>>,
    pub look: Seq<int>,
}

impl CellView {
    /// Whether there is nothing in the cell, whatever its colour.
    pub open spec fn is_blank(self) -> bool {
        self.c == ' ' && self.flags == 0 && self.link is None
    }

    /// Whether the cell counts as white space for the vi mode cursor.
    pub open spec fn is_space(self) -> bool {
        &&& self.flags & WIDE_CHAR_SPACER == 0
        &&& self.flags & LEADING_WIDE_CHAR_SPACER == 0
        &&& self.c == ' ' || self.c == '\t'
    }
}

/// A terminal emulator.
///
/// `lines` has the lines from `-history` up to the one before `screen_lines`, each with a cell per
/// column. `dirt` is the emulator's account of which cells have been written since they were last
/// blank. `limit` is how many lines the scrollback may grow to. `hidden_wide` says whether a wide
/// character is on the screen that is not shown, and `rest` is what else the emulator's answers
/// depend on (tab stops, scroll region, colours, configuration, the rest of that screen). What is
/// kept for drawing alone, such as the damage since the last frame, is left out.
#[verifier::ext_equal]
pub struct TermView {
    pub columns: nat,
    pub screen_lines: nat,
    pub history: nat,
    pub display_offset: nat,
    pub cursor: GridPoint,
    pub vi_cursor: GridPoint,
    pub selection: Option<SelectionView>,
    pub mode: TermMode,
    pub lines: Map<int, Seq<CellView>>,
    pub dirt: Seq<int>,
    pub limit: nat,
    pub hidden_wide: bool,
    pub rest: Seq<int>,
}

/// The smaller of two numbers.
pub open spec fn smaller(a: int, b: int) -> int {
    if a <= b {
        a
    } else {
        b
    }
}

/// The larger of two numbers.
pub open spec fn larger(a: int, b: int) -> int {
    if a >= b {
        a
    } else {
        b
    }
}

/// The number brought into the range from `low` to `high`.
pub open spec fn clamped(n: int, low: int, high: int) -> int {
    smaller(high, larger(low, n))
}

impl TermView {
    /// The topmost line of the scrollback.
    pub open spec fn topmost(self) -> int {
        -self.history
    }

    /// The lowest line of the screen.
    pub open spec fn bottommost(self) -> int {
        self.screen_lines - 1
    }

    /// Whether the point lies on the grid, scrollback included.
    pub open spec fn on_grid(self, p: GridPoint) -> bool {
        &&& self.topmost() <= p.line <= self.bottommost()
        &&& p.column < self.columns
    }

    /// Whether the point lies on the screen, as it is when not scrolled back.
    pub open spec fn on_screen(self, p: GridPoint) -> bool {
        &&& 0 <= p.line <= self.bottommost()
        &&& p.column < self.columns
    }

    /// A grid with at least one cell, whose lines can be counted in an `i32` with a page to spare.
    pub open spec fn sized(self) -> bool {
        &&& 1 <= self.columns
        &&& 1 <= self.screen_lines
        &&& self.history + 2 * self.screen_lines <= i32::MAX
        &&& self.display_offset <= self.history
    }

    /// Whether the lines of the longest scrollback and of any screen can be counted together.
    pub open spec fn is_limited(self) -> bool {
        self.limit + i32::MAX <= usize::MAX
    }

    /// Whether it can be told which cells the selection, if there is one, covers.
    pub open spec fn selection_sound(self) -> bool {
        self.selection is Some ==> self.selection->0.is_sound()
    }

    /// Whether the selection, if there is one, can move up by so many lines in `i32` arithmetic.
    pub open spec fn room_above(self, lines: int) -> bool {
        self.selection is Some ==> self.selection->0.top_line() - lines >= i32::MIN
    }

    /// Whether the selection, if there is still one, has moved up by no more than so many lines
    /// since `before`.
    pub open spec fn rises_from(self, before: TermView, lines: int) -> bool {
        self.selection is Some ==> before.selection is Some && self.selection->0.top_line()
            >= before.selection->0.top_line() - lines
    }

    /// Whether the character can be written: in a single column a wide one cannot, where full lines
    /// go on in the next.
    pub open spec fn takes_char(self, c: char) -> bool {
        self.columns >= 2 || !self.mode.has(LINE_WRAP) || !crate::alac::is_wide(c)
    }

    /// Whether the delta of a scroll, if it has one, can be counted from where the display is.
    pub open spec fn scroll_fits(self, scroll: Scroll) -> bool {
        scroll matches Scroll::Delta(count) ==> self.display_offset + count <= i32::MAX
    }

    /// Whether a display can be scrolled to the line of the point in `i32` arithmetic.
    pub open spec fn reaches(self, p: GridPoint) -> bool {
        i32::MIN < p.line && p.line + self.display_offset <= i32::MAX
    }

    /// The flags of a cell.
    pub open spec fn flags_at(self, line: int, column: int) -> u16 {
        self.lines[line][column].flags
    }

    /// Whether a cell is the second column of a wide character that has no first.
    pub open spec fn orphaned(self, p: GridPoint) -> bool {
        p.column == 0 && self.flags_at(p.line as int, 0) & WIDE_CHAR_SPACER != 0
    }

    /// Whether a cell points at a wide character on the next line, and there is none to point at:
    /// no such line, or no second column.
    pub open spec fn points_nowhere(self, p: GridPoint) -> bool {
        self.flags_at(p.line as int, p.column as int) & LEADING_WIDE_CHAR_SPACER != 0 && (p.line
            == self.bottommost() || self.columns < 2)
    }

    /// Where the end of the line is looked for from a cell: behind the wide character that stands
    /// there or that the cell points at.
    pub open spec fn behind_wide(self, p: GridPoint) -> (int, int) {
        let flags = self.flags_at(p.line as int, p.column as int);
        if flags & LEADING_WIDE_CHAR_SPACER != 0 {
            (p.line + 1, 1)
        } else if flags & WIDE_CHAR != 0 {
            (p.line as int, smaller(p.column + 1, self.columns - 1))
        } else {
            (p.line as int, p.column as int)
        }
    }

    /// Whether the emulator, searching backwards, passes over a cell: it stands between one that
    /// was left free for a wide character and the second column of one.
    pub open spec fn passed_over(self, p: GridPoint) -> bool {
        let before = if p.column > 0 {
            (p.line as int, p.column - 1)
        } else {
            (p.line - 1, self.columns - 1)
        };
        let after = if p.column < self.columns - 1 {
            (p.line as int, p.column + 1)
        } else {
            (p.line + 1, 0int)
        };
        &&& self.topmost() <= before.0
        &&& after.0 <= self.bottommost()
        &&& self.flags_at(before.0, before.1) & LEADING_WIDE_CHAR_SPACER != 0
        &&& self.flags_at(after.0, after.1) & WIDE_CHAR_SPACER != 0
    }

    /// Whether the lines from `line` on claim, at the given column, to go on past the lowest one.
    pub open spec fn runs_off(self, line: int, column: int) -> bool {
        forall|l: int|
            line <= l <= self.bottommost() ==> (#[trigger] self.lines[l])[column].flags & WRAPLINE
                != 0
    }

    /// Whether a line of the grid goes on in the next.
    pub open spec fn wraps(self, line: int) -> bool {
        self.flags_at(line, self.columns - 1) & WRAPLINE != 0
    }

    /// Whether there is but white space on a line.
    pub open spec fn is_spaces(self, line: int) -> bool {
        forall|i: int| 0 <= i < self.columns ==> (#[trigger] self.lines[line][i]).is_space()
    }

    /// Whether the lines from the given one down are all white space, and claim to go on past the
    /// lowest one.
    pub open spec fn trails_off(self, line: int) -> bool {
        forall|l: int|
            line <= l <= self.bottommost() ==> #[trigger] self.is_spaces(l) && self.wraps(l)
    }

    /// Whether a line above the given one, of those that go on in it, is not all white space.
    pub open spec fn occupied_above(self, line: int) -> bool {
        exists|l: int|
            {
                &&& self.topmost() <= l < line
                &&& !#[trigger] self.is_spaces(l)
                &&& forall|k: int| l <= k < line ==> #[trigger] self.wraps(k)
            }
    }

    /// Whether a cell holds a wide character for which the last cell of the line above was left
    /// free.
    pub open spec fn leads_back(self, p: GridPoint) -> bool {
        &&& p.column == 0
        &&& self.flags_at(p.line as int, 0) & WIDE_CHAR != 0
        &&& p.line > self.topmost()
        &&& self.flags_at(p.line - 1, self.columns - 1) & LEADING_WIDE_CHAR_SPACER != 0
    }

    /// Whether the first cell that is no white space would be looked for past the lowest line.
    pub open spec fn first_occupied_is_off(self, p: GridPoint) -> bool {
        &&& p.column == self.columns - 1
        &&& !self.leads_back(p)
        &&& self.trails_off(p.line as int)
        &&& !self.occupied_above(p.line as int)
    }

    /// Whether a cell of the line to the right of a column is no white space.
    pub open spec fn occupied_right_of(self, line: int, column: int) -> bool {
        exists|i: int| column < i < self.columns && !(#[trigger] self.lines[line][i]).is_space()
    }

    /// Whether the last cell that is no white space would be looked for past the lowest line.
    pub open spec fn last_occupied_is_off(self, p: GridPoint) -> bool {
        let (line, column) = self.behind_wide(p);
        self.points_nowhere(p) || (!self.occupied_right_of(line, column) && self.runs_off(
            line,
            column,
        ))
    }

    /// The cell above, or the same one where there is no line above.
    pub open spec fn above(self, p: GridPoint) -> GridPoint {
        if p.line > self.topmost() {
            GridPoint { line: (p.line - 1) as i32, column: p.column }
        } else {
            p
        }
    }

    /// The cell below, or the same one where there is no line below.
    pub open spec fn below(self, p: GridPoint) -> GridPoint {
        if p.line < self.bottommost() {
            GridPoint { line: (p.line + 1) as i32, column: p.column }
        } else {
            p
        }
    }

    /// Whether the emulator can move the vi mode cursor so: in vi mode no cell off the grid is
    /// looked at, lines can be counted in an `i32`, and the selection can follow. Outside of vi
    /// mode nothing moves.
    pub open spec fn motion_fits(self, motion: ViMotion) -> bool {
        let p = self.vi_cursor;
        self.mode.has(VI) ==> {
            &&& self.selection_sound()
            &&& match motion {
                ViMotion::Up => self.reaches(self.above(p)),
                ViMotion::Down => p.line < i32::MAX && self.reaches(self.below(p)),
                ViMotion::High | ViMotion::Low => true,
                ViMotion::Middle => self.screen_lines >= 2 || self.display_offset < self.history,
                ViMotion::Left | ViMotion::First | ViMotion::WordLeft => self.on_grid(p)
                    && !self.orphaned(p),
                ViMotion::FirstOccupied => self.on_grid(p) && !self.orphaned(p)
                    && !self.first_occupied_is_off(p),
                ViMotion::Right => self.on_grid(p) && !self.points_nowhere(p),
                ViMotion::WordRight => self.on_grid(p) && (!self.points_nowhere(p) || p.line + 1
                    == self.bottommost()),
                ViMotion::Last => self.on_grid(p) && !self.last_occupied_is_off(p),
                ViMotion::WordRightEnd | ViMotion::Bracket => self.on_grid(p),
            }
        }
    }

    /// Whether the text from one cell to another can be read: no line that is read from its first
    /// column starts with the second column of a wide character, and the topmost line is not read
    /// up to a cell that was left free for one.
    pub open spec fn legible_between(self, start: GridPoint, end: GridPoint) -> bool {
        &&& forall|l: int|
            self.topmost() <= l <= self.bottommost() && start.line <= l <= end.line && (l
                > start.line || start.column == 0) ==> (#[trigger] self.lines[l])[0].flags
                & WIDE_CHAR_SPACER == 0
        &&& end.line == self.topmost() && end.column >= self.columns - 1 && self.columns >= 2
            ==> self.flags_at(self.topmost(), self.columns - 1) & LEADING_WIDE_CHAR_SPACER == 0
    }

    /// The emulator with its display not scrolled and its vi mode cursor at the top left.
    pub open spec fn unscrolled(self) -> TermView {
        TermView { display_offset: 0, vi_cursor: GridPoint { line: 0, column: 0 }, ..self }
    }

    /// The cells under the selection, where there is one.
    pub open spec fn selected(self) -> Option<SelectionRange> {
        if self.selection is Some {
            crate::alac::selected_range(self.unscrolled())
        } else {
            None
        }
    }

    /// Whether the text under the selection, if there is one, can be read.
    pub open spec fn selection_legible(self) -> bool {
        &&& self.selection_sound()
        &&& self.selected() matches Some(range) ==> self.legible_between(range.start, range.end)
    }

    /// The emulator with another selection.
    pub open spec fn selecting(self, selection: SelectionView) -> TermView {
        TermView { selection: Some(selection), ..self }
    }

    /// Whether a cell of the grid holds a wide character.
    pub open spec fn has_wide_char(self) -> bool {
        exists|l: int, i: int|
            #![trigger self.lines[l][i]]
            self.topmost() <= l <= self.bottommost() && 0 <= i < self.columns
                && self.lines[l][i].flags & WIDE_CHAR != 0
    }

    /// How far the cursors and the selection move down with the text when the screen gets the given
    /// number of lines: as far as there is scrollback, or up as far as the cursor's line needs it.
    pub open spec fn resize_delta(self, lines: nat) -> int {
        smaller(
            larger(lines - self.screen_lines, smaller(0, lines - self.cursor.line - 1)),
            self.history as int,
        )
    }

    /// Whether a wide character is on the screen whose lines are reflowed when the width changes:
    /// the one with the scrollback, shown or not.
    pub open spec fn reflows_wide(self) -> bool {
        if self.mode.has(ALT_SCREEN) {
            self.hidden_wide
        } else {
            self.has_wide_char()
        }
    }

    /// Whether the emulator can be brought to the given size: its lines can be counted in an `i32`,
    /// as can those of the vi mode cursor and of the selection as they move with the text, and
    /// where lines get shorter, those of the longest scrollback in a `usize`. A single column holds
    /// no wide character, so there must be none to reflow.
    pub open spec fn resize_fits(self, columns: nat, lines: nat) -> bool {
        &&& self.sized()
        &&& (columns == self.columns && lines == self.screen_lines) || {
            &&& self.on_screen(self.cursor)
            &&& 1 <= lines
            &&& lines + self.history <= i32::MAX
            &&& i32::MIN <= self.vi_cursor.line + self.resize_delta(lines) <= i32::MAX
            &&& columns == self.columns ==> self.room_above(-self.resize_delta(lines))
            &&& columns < self.columns ==> self.limit + lines <= usize::MAX
            &&& columns >= 2 || columns == self.columns || (columns == 1 && !self.reflows_wide())
        }
    }

    /// Whether the lines of the screen that is not shown can be reflowed into a width: into a
    /// single column none with a wide character can. The emulator does not tell what is on that
    /// screen.
    pub open spec fn hidden_fits(self, columns: nat) -> bool {
        columns == 1 && self.mode.has(ALT_SCREEN) ==> !self.hidden_wide
    }

    /// How far the display is scrolled back after a scroll.
    pub open spec fn scrolled_offset(self, scroll: Scroll) -> int {
        match scroll {
            Scroll::Delta(count) => smaller(
                larger(self.display_offset + count, 0),
                self.history as int,
            ),
            Scroll::PageUp => smaller(
                (self.display_offset + self.screen_lines) as int,
                self.history as int,
            ),
            Scroll::PageDown => larger(self.display_offset - self.screen_lines, 0),
            Scroll::Top => self.history as int,
            Scroll::Bottom => 0,
        }
    }

    /// How far the display is scrolled back once a point has been brought into sight.
    pub open spec fn offset_showing(self, p: GridPoint) -> int {
        if p.line < -self.display_offset {
            clamped(-p.line, 0, self.history as int)
        } else if p.line >= self.screen_lines - self.display_offset {
            clamped(self.bottommost() - p.line, 0, self.history as int)
        } else {
            self.display_offset as int
        }
    }

    /// Whether a line is in sight.
    pub open spec fn in_sight(self, line: int) -> bool {
        -self.display_offset <= line < self.screen_lines - self.display_offset
    }

    /// The vi mode cursor brought into the viewport that is scrolled back by `offset` lines.
    pub open spec fn vi_cursor_within(self, offset: int) -> GridPoint {
        GridPoint {
            line: clamped(self.vi_cursor.line as int, -offset, self.bottommost() - offset) as i32,
            column: self.vi_cursor.column,
        }
    }

    /// The emulator with its display scrolled: the vi mode cursor stays in sight, and in vi mode
    /// the selection follows it.
    pub open spec fn display_scrolled(self, scroll: Scroll) -> TermView {
        let offset = self.scrolled_offset(scroll);
        let p = self.vi_cursor_within(offset);
        TermView {
            display_offset: offset as nat,
            vi_cursor: p,
            selection: if self.mode.has(VI) {
                self.selection_following(p)
            } else {
                self.selection
            },
            ..self
        }
    }

    /// The selection, where there is one, once the vi mode cursor is at the given cell.
    pub open spec fn selection_following(self, p: GridPoint) -> Option<SelectionView> {
        match self.selection {
            Some(s) => Some(s.following(p)),
            None => None,
        }
    }

    /// The emulator with its display scrolled, as far as needed, to bring a line into sight.
    pub open spec fn scrolled_to(self, p: GridPoint) -> TermView {
        if p.line < -self.display_offset {
            self.display_scrolled(Scroll::Delta((-(p.line + self.display_offset)) as i32))
        } else if p.line >= self.screen_lines - self.display_offset {
            self.display_scrolled(
                Scroll::Delta((-(p.line + self.display_offset - self.screen_lines + 1)) as i32),
            )
        } else {
            self
        }
    }

    /// Whether `p` is where the vi mode cursor goes when moved up by `lines` lines: it stays on the
    /// grid, and goes to the first cell of its new line that is no white space, or to the first
    /// cell where there is no such.
    pub open spec fn vi_scrolled(self, lines: int, p: GridPoint) -> bool {
        let row = self.lines[p.line as int];
        &&& p.line == clamped(self.vi_cursor.line - lines, self.topmost(), self.bottommost())
        &&& p.column < self.columns
        &&& forall|i: int| 0 <= i < p.column ==> (#[trigger] row[i]).is_space()
        &&& !row[p.column as int].is_space() || (p.column == 0 && forall|i: int|
            0 <= i < self.columns ==> (#[trigger] row[i]).is_space())
    }

    /// Whether every line of the grid is there, with a cell per column.
    pub open spec fn whole(self) -> bool {
        &&& forall|l: int|
            #[trigger] self.lines.dom().contains(l) <==> self.topmost() <= l <= self.bottommost()
        &&& forall|l: int|
            self.topmost() <= l <= self.bottommost() ==> (#[trigger] self.lines[l]).len()
                == self.columns
    }

    /// Whether there is nothing on a line.
    pub open spec fn is_blank_line(self, row: Seq<CellView>) -> bool {
        &&& row.len() == self.columns
        &&& forall|i: int| 0 <= i < row.len() ==> (#[trigger] row[i]).is_blank()
    }

    /// Whether this is the emulator `before` with the lines from `start` to the one before `end`
    /// made blank.
    pub open spec fn resets_lines(self, before: TermView, start: int, end: int) -> bool {
        &&& self == (TermView { lines: self.lines, dirt: self.dirt, ..before })
        &&& self.lines.dom() == before.lines.dom()
        &&& forall|l: int|
            self.lines.dom().contains(l) ==> if start <= l < end {
                self.is_blank_line(#[trigger] self.lines[l])
            } else {
                self.lines[l] == before.lines[l]
            }
    }

    /// The scrollback gone: nothing to scroll back to, the vi mode cursor back on the screen, and
    /// no selection that reached into it. `dirt` is what is left of the account of written cells.
    pub open spec fn without_history(self, dirt: Seq<int>) -> TermView {
        if self.history == 0 {
            self
        } else {
            TermView {
                history: 0,
                display_offset: 0,
                vi_cursor: GridPoint {
                    line: clamped(self.vi_cursor.line as int, 0, self.bottommost()) as i32,
                    column: self.vi_cursor.column,
                },
                selection: if self.selection is Some && smaller(
                    self.selection->0.start.point.line as int,
                    self.selection->0.end.point.line as int,
                ) < 0 {
                    None
                } else {
                    self.selection
                },
                lines: self.lines.restrict(Set::new(|l: int| 0 <= l)),
                dirt,
                ..self
            }
        }
    }

    /// Vi mode switched on or off; switched on, its cursor starts at the terminal's own, or at the
    /// top left of the viewport where that one is scrolled out of sight.
    pub open spec fn with_vi_toggled(self) -> TermView {
        let mode = TermMode { bits: self.mode.bits ^ VI };
        TermView {
            mode,
            vi_cursor: if !mode.has(VI) {
                self.vi_cursor
            } else if self.cursor.line > self.bottommost() - self.display_offset {
                GridPoint { line: (-self.display_offset) as i32, column: 0 }
            } else {
                self.cursor
            },
            ..self
        }
    }

    /// The point brought onto the grid: above it to its first cell, below it to its last.
    pub open spec fn grid_clamped(self, p: GridPoint) -> GridPoint {
        if p.line < self.topmost() {
            GridPoint { line: self.topmost() as i32, column: 0 }
        } else if p.line > self.bottommost() {
            GridPoint {
                line: self.bottommost() as i32,
                column: (self.columns - 1) as usize,
            }
        } else {
            GridPoint {
                line: p.line,
                column: smaller(p.column as int, self.columns - 1) as usize,
            }
        }
    }

    /// The cells in sight, line by line: the screen moved up by the display offset.
    pub open spec fn displayed(self) -> Seq<(GridPoint, CellView)> {
        Seq::new(
            self.screen_lines * self.columns,
            |i: int|
                {
                    let line = i / self.columns as int - self.display_offset;
                    let column = i % self.columns as int;
                    (
                        GridPoint { line: line as i32, column: column as usize },
                        self.lines[line][column],
                    )
                },
        )
    }

    /// The cell that the cursor stands on: the vi mode cursor's in vi mode, else the terminal's
    /// own.
    pub open spec fn active_cursor(self) -> GridPoint {
        if self.mode.has(VI) {
            self.vi_cursor
        } else {
            self.cursor
        }
    }

    /// Whether the cursor stands on a cell, and not on a second column that has no first.
    pub open spec fn has_cursor_cell(self) -> bool {
        self.on_grid(self.active_cursor()) && !self.orphaned(self.active_cursor())
    }

    /// Where the cursor is drawn: on the wide character, where it stands on its second column.
    pub open spec fn drawn_cursor(self) -> GridPoint {
        let p = self.active_cursor();
        if self.flags_at(p.line as int, p.column as int) & WIDE_CHAR_SPACER != 0 {
            GridPoint { line: p.line, column: (p.column - 1) as usize }
        } else {
            p
        }
    }
}

} // verus!
