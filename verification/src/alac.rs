//! The terminal emulator: `alacritty_terminal`'s types and, one function each, the calls into it.
//!
//! Nothing in this module is proved. Each contract says, over the view of the emulator in the
//! module `grid`, what the called function does.
use crate::content::{IndexedCell, RenderableContent};
use crate::events::{TermEvent, TermEventView};
use crate::geometry::{TerminalBounds, WindowSize};
use crate::grid::{
    AnchorView, CellView, CursorShape, CursorStyle, GridPoint, GridRange, RenderableCursor, Rgb,
    Scroll, SelectionRange, SelectionType, SelectionView, Side, TermConfig, TermMode, TermView,
    ViMotion, ALTERNATE_SCROLL, DEFAULT_MODE, VI,
};
use alacritty_terminal::event::Event as AlacTermEvent;
use alacritty_terminal::event::EventListener;
use alacritty_terminal::event::WindowSize as AlacWindowSize;
use alacritty_terminal::grid::Dimensions;
use alacritty_terminal::grid::Scroll as AlacScroll;
use alacritty_terminal::index::{Boundary, Column, Direction, Line, Point};
use alacritty_terminal::selection::Selection;
use alacritty_terminal::selection::SelectionType as AlacSelectionType;
use alacritty_terminal::term::cell::Cell;
use alacritty_terminal::term::search::RegexSearch;
use alacritty_terminal::term::{Config, Term};
use alacritty_terminal::vi_mode::ViModeCursor;
use alacritty_terminal::vi_mode::ViMotion as AlacViMotion;
use alacritty_terminal::vte::ansi::CursorShape as AlacCursorShape;
use alacritty_terminal::vte::ansi::CursorStyle as AlacCursorStyle;
use alacritty_terminal::vte::ansi::Rgb as AlacRgb;
use alacritty_terminal::vte::ansi::{ClearMode, Handler, NamedPrivateMode, PrivateMode};
use futures::channel::mpsc::UnboundedSender;
use unicode_width::UnicodeWidthChar;
use vstd::prelude::*;

verus! {

/// `alacritty_terminal::term::Term`: the emulator.
#[verifier::external_type_specification]
#[verifier::external_body]
#[verifier::reject_recursive_types(T)]
pub struct ExTerm<T>(Term<T>);

/// `alacritty_terminal::term::cell::Cell`: a cell of its grid.
#[verifier::external_type_specification]
#[verifier::external_body]
pub struct ExCell(Cell);

/// `alacritty_terminal::selection::Selection`: a selection on its grid.
#[verifier::external_type_specification]
#[verifier::external_body]
pub struct ExSelection(Selection);

/// `alacritty_terminal::event::Event`: what the emulator tells its listener.
#[verifier::external_type_specification]
#[verifier::external_body]
pub struct ExAlacTermEvent(AlacTermEvent);

/// `alacritty_terminal::term::search::RegexSearch`: a compiled search.
#[verifier::external_type_specification]
#[verifier::external_body]
pub struct ExRegexSearch(RegexSearch);

/// `futures::channel::mpsc::UnboundedSender`: the sending end of a queue.
#[verifier::external_type_specification]
#[verifier::external_body]
#[verifier::reject_recursive_types(T)]
pub struct ExUnboundedSender<T>(UnboundedSender<T>);

/// Hands the emulator's events on to the application.
pub struct ZedListener(pub UnboundedSender<AlacTermEvent>);

/// `UnboundedSender::unbounded_send`: queues the event, or drops it where the receiver is gone.
/// Whether it arrives is up to the receiving end, so nothing is said of it.
#[verifier::external_body]
fn unbounded_send(queue: &UnboundedSender<AlacTermEvent>, event: AlacTermEvent) {
    queue.unbounded_send(event).ok();
}

impl EventListener for ZedListener {
    fn send_event(&self, event: AlacTermEvent) {
        unbounded_send(&self.0, event);
    }
}

/// What the emulator holds.
pub uninterp spec fn term_view(term: Term<ZedListener>) -> TermView;

/// What a cell holds.
pub uninterp spec fn cell_view(cell: Cell) -> CellView;

/// What a selection holds.
pub uninterp spec fn selection_view(selection: Selection) -> SelectionView;

/// `Clone` of `Cell`: the copy holds what the cell holds.
pub assume_specification[ <Cell as Clone>::clone ](cell: &Cell) -> (copy: Cell)
    ensures
        cell_view(copy) == cell_view(*cell),
;

/// The views of a run of cells.
pub open spec fn cell_views(cells: Seq<Cell>) -> Seq<CellView> {
    cells.map_values(|c: Cell| cell_view(c))
}

/// The view of a selection, where there is one.
pub open spec fn selection_views(selection: Option<Selection>) -> Option<SelectionView> {
    match selection {
        Some(s) => Some(selection_view(s)),
        None => None,
    }
}

/// `Dimensions::screen_lines`: the height of the screen.
#[verifier::external_body]
pub(crate) fn screen_lines(term: &Term<ZedListener>) -> (n: usize)
    ensures
        n == term_view(*term).screen_lines,
{
    term.screen_lines()
}

/// `Dimensions::columns`: the width of the grid.
#[verifier::external_body]
pub(crate) fn columns(term: &Term<ZedListener>) -> (n: usize)
    ensures
        n == term_view(*term).columns,
{
    term.columns()
}

/// `Dimensions::total_lines`: the lines of the screen and of the scrollback together.
#[verifier::external_body]
pub(crate) fn total_lines(term: &Term<ZedListener>) -> (n: usize)
    ensures
        n == term_view(*term).screen_lines + term_view(*term).history,
{
    term.total_lines()
}

/// `Grid::display_offset`: how many lines the display is scrolled back.
#[verifier::external_body]
pub(crate) fn display_offset(term: &Term<ZedListener>) -> (n: usize)
    ensures
        n == term_view(*term).display_offset,
{
    term.grid().display_offset()
}

/// `Term::mode`: the modes that are on.
#[verifier::external_body]
pub(crate) fn mode(term: &Term<ZedListener>) -> (m: TermMode)
    ensures
        m == term_view(*term).mode,
{
    TermMode { bits: term.mode().bits() }
}

/// The field `Grid::cursor`: where the next character goes.
#[verifier::external_body]
pub(crate) fn cursor_point(term: &Term<ZedListener>) -> (p: GridPoint)
    ensures
        p == term_view(*term).cursor,
{
    let point = term.grid().cursor.point;
    GridPoint { line: point.line.0, column: point.column.0 }
}

/// The field `Grid::cursor`, written: the next character goes to the given cell.
#[verifier::external_body]
pub(crate) fn set_cursor_point(term: &mut Term<ZedListener>, p: GridPoint)
    ensures
        term_view(*final(term)) == (TermView { cursor: p, ..term_view(*old(term)) }),
{
    term.grid_mut().cursor.point = Point::new(Line(p.line), Column(p.column));
}

/// The field `Term::vi_mode_cursor`.
#[verifier::external_body]
pub(crate) fn vi_cursor_point(term: &Term<ZedListener>) -> (p: GridPoint)
    ensures
        p == term_view(*term).vi_cursor,
{
    let point = term.vi_mode_cursor.point;
    GridPoint { line: point.line.0, column: point.column.0 }
}

/// The field `Term::vi_mode_cursor`, written with `ViModeCursor::new`.
#[verifier::external_body]
pub(crate) fn set_vi_cursor_point(term: &mut Term<ZedListener>, p: GridPoint)
    ensures
        term_view(*final(term)) == (TermView { vi_cursor: p, ..term_view(*old(term)) }),
{
    term.vi_mode_cursor = ViModeCursor::new(Point::new(Line(p.line), Column(p.column)));
}

/// `ViModeCursor::scroll`: where a vi mode cursor is when moved up by `lines` lines. It stays on
/// the grid, and goes to the first cell of its new line that is no white space, or to the first
/// cell where there is no such.
#[verifier::external_body]
pub(crate) fn vi_cursor_scrolled(term: &Term<ZedListener>, from: GridPoint, lines: i32) -> (p:
    GridPoint)
    requires
        term_view(*term).sized(),
        i32::MIN <= from.line - lines <= i32::MAX,
    ensures
        (TermView { vi_cursor: from, ..term_view(*term) }).vi_scrolled(lines as int, p),
{
    let cursor = ViModeCursor::new(Point::new(Line(from.line), Column(from.column)));
    let point = cursor.scroll(term, lines).point;
    GridPoint { line: point.line.0, column: point.column.0 }
}

/// `Index<Line>` of `Grid`: the cells of a line, one per column.
#[verifier::external_body]
pub(crate) fn row_cells(term: &Term<ZedListener>, line: i32) -> (cells: Vec<Cell>)
    requires
        term_view(*term).topmost() <= line <= term_view(*term).bottommost(),
    ensures
        cells@.len() == term_view(*term).columns,
        cell_views(cells@) == term_view(*term).lines[line as int],
{
    term.grid()[Line(line)][..Column(term.columns())].to_vec()
}

/// `Index<Point>` of `Grid`: a copy of a cell.
#[verifier::external_body]
pub(crate) fn cell_of(term: &Term<ZedListener>, p: GridPoint) -> (cell: Cell)
    requires
        term_view(*term).on_grid(p),
    ensures
        cell_view(cell) == term_view(*term).lines[p.line as int][p.column as int],
{
    term.grid()[Point::new(Line(p.line), Column(p.column))].clone()
}

/// `IndexMut<Point>` of `Grid`: puts a cell into the grid.
#[verifier::external_body]
pub(crate) fn set_cell(term: &mut Term<ZedListener>, p: GridPoint, cell: Cell)
    requires
        term_view(*old(term)).on_grid(p),
    ensures
        term_view(*final(term)) == (TermView {
            lines: term_view(*old(term)).lines.insert(
                p.line as int,
                term_view(*old(term)).lines[p.line as int].update(
                    p.column as int,
                    cell_view(cell),
                ),
            ),
            dirt: term_view(*final(term)).dirt,
            ..term_view(*old(term))
        }),
{
    term.grid_mut()[Line(p.line)][Column(p.column)] = cell;
}

/// The field `Cell::c`.
#[verifier::external_body]
pub(crate) fn cell_char(cell: &Cell) -> (c: char)
    ensures
        c == cell_view(*cell).c,
{
    cell.c
}

/// The field `Cell::flags`.
#[verifier::external_body]
pub(crate) fn cell_flags(cell: &Cell) -> (flags: u16)
    ensures
        flags == cell_view(*cell).flags,
{
    cell.flags.bits()
}

/// `Cell::hyperlink`: the address of the cell's hyperlink, where it has one.
#[verifier::external_body]
pub(crate) fn cell_link(cell: &Cell) -> (link: Option<String>)
    ensures
        match link {
            Some(uri) => cell_view(*cell).link == Some(uri@),
            None => cell_view(*cell).link is None,
        },
{
    cell.hyperlink().map(|link| link.uri().to_owned())
}

/// `Grid::reset_region`: makes the lines from `start` to the one before `end` blank. In what colour
/// is left open: the emulator skips cells that it takes for blank already.
#[verifier::external_body]
pub(crate) fn reset_region(term: &mut Term<ZedListener>, start: i32, end: i32)
    requires
        0 <= start <= term_view(*old(term)).bottommost(),
        end <= term_view(*old(term)).screen_lines,
    ensures
        term_view(*final(term)).resets_lines(term_view(*old(term)), start as int, end as int),
{
    term.grid_mut().reset_region(Line(start)..Line(end));
}

/// `Term::clear_screen` with `ClearMode::Saved`: drops the scrollback. Every line of the screen is
/// there, with a cell per column.
#[verifier::external_body]
pub(crate) fn clear_saved(term: &mut Term<ZedListener>)
    requires
        term_view(*old(term)).sized(),
    ensures
        term_view(*final(term)) == term_view(*old(term)).without_history(
            term_view(*final(term)).dirt,
        ),
        term_view(*final(term)).whole(),
{
    term.clear_screen(ClearMode::Saved);
}

/// The emulator brought to another size.
pub uninterp spec fn resized(v: TermView, columns: nat, lines: nat) -> TermView;

/// `Term::resize`: brings the emulator to the given size, reflowing what it shows. The modes and
/// the limit of the scrollback stay, and no wide character comes onto the screen that is not
/// shown. Where the emulator has that size already, nothing happens.
#[verifier::external_body]
pub(crate) fn resize(term: &mut Term<ZedListener>, bounds: TerminalBounds)
    requires
        term_view(*old(term)).resize_fits(bounds.columns as nat, bounds.lines as nat),
    ensures
        term_view(*final(term)) == resized(
            term_view(*old(term)),
            bounds.columns as nat,
            bounds.lines as nat,
        ),
        term_view(*final(term)).columns == bounds.columns,
        term_view(*final(term)).screen_lines == bounds.lines,
        term_view(*final(term)).mode == term_view(*old(term)).mode,
        term_view(*final(term)).limit == term_view(*old(term)).limit,
        term_view(*final(term)).hidden_wide ==> term_view(*old(term)).hidden_wide,
        bounds.columns == term_view(*old(term)).columns && bounds.lines == term_view(
            *old(term),
        ).screen_lines ==> term_view(*final(term)) == term_view(*old(term)),
{
    term.resize(bounds);
}

/// `Term::scroll_display`: moves the display over the scrollback and keeps the vi mode cursor in
/// sight. In vi mode a selection that is not empty ends at that cursor afterwards, from and to the
/// outer sides of its cells.
#[verifier::external_body]
pub(crate) fn scroll_display(term: &mut Term<ZedListener>, scroll: Scroll)
    requires
        term_view(*old(term)).sized(),
        term_view(*old(term)).scroll_fits(scroll),
        term_view(*old(term)).mode.has(VI) ==> term_view(*old(term)).selection_sound(),
    ensures
        term_view(*final(term)) == term_view(*old(term)).display_scrolled(scroll),
{
    term.scroll_display(
        match scroll {
            Scroll::Delta(count) => AlacScroll::Delta(count),
            Scroll::PageUp => AlacScroll::PageUp,
            Scroll::PageDown => AlacScroll::PageDown,
            Scroll::Top => AlacScroll::Top,
            Scroll::Bottom => AlacScroll::Bottom,
        },
    );
}

/// `Term::scroll_to_point`: scrolls the display, where the point is out of sight, until it is at
/// the edge of the viewport, as far as there is scrollback.
#[verifier::external_body]
pub(crate) fn scroll_to_point(term: &mut Term<ZedListener>, p: GridPoint)
    requires
        term_view(*old(term)).sized(),
        term_view(*old(term)).reaches(p),
        term_view(*old(term)).mode.has(VI) && !term_view(*old(term)).in_sight(p.line as int)
            ==> term_view(*old(term)).selection_sound(),
    ensures
        term_view(*final(term)) == term_view(*old(term)).scrolled_to(p),
{
    term.scroll_to_point(Point::new(Line(p.line), Column(p.column)));
}

/// The field `Term::selection`, taken out.
#[verifier::external_body]
pub(crate) fn take_selection(term: &mut Term<ZedListener>) -> (selection: Option<Selection>)
    ensures
        selection_views(selection) == term_view(*old(term)).selection,
        term_view(*final(term)) == (TermView { selection: None, ..term_view(*old(term)) }),
{
    term.selection.take()
}

/// The field `Term::selection`, written.
#[verifier::external_body]
pub(crate) fn put_selection(term: &mut Term<ZedListener>, selection: Option<Selection>)
    ensures
        term_view(*final(term)) == (TermView {
            selection: selection_views(selection),
            ..term_view(*old(term))
        }),
{
    term.selection = selection;
}

/// The field `Term::selection`, copied.
#[verifier::external_body]
pub(crate) fn active_selection(term: &Term<ZedListener>) -> (selection: Option<Selection>)
    ensures
        selection_views(selection) == term_view(*term).selection,
{
    term.selection.clone()
}

/// The field `Selection::ty`.
#[verifier::external_body]
pub(crate) fn selection_type(selection: &Selection) -> (ty: SelectionType)
    ensures
        ty == selection_view(*selection).ty,
{
    match selection.ty {
        AlacSelectionType::Simple => SelectionType::Simple,
        AlacSelectionType::Block => SelectionType::Block,
        AlacSelectionType::Semantic => SelectionType::Semantic,
        AlacSelectionType::Lines => SelectionType::Lines,
    }
}

/// `Selection::new`: a selection that starts and ends at the given side of a cell.
#[verifier::external_body]
pub(crate) fn new_selection(ty: SelectionType, p: GridPoint, side: Side) -> (s: Selection)
    ensures
        selection_view(s) == (SelectionView {
            ty,
            start: AnchorView { point: p, side },
            end: AnchorView { point: p, side },
        }),
{
    let ty = match ty {
        SelectionType::Simple => AlacSelectionType::Simple,
        SelectionType::Block => AlacSelectionType::Block,
        SelectionType::Semantic => AlacSelectionType::Semantic,
        SelectionType::Lines => AlacSelectionType::Lines,
    };
    let side = match side {
        Side::Left => Direction::Left,
        Side::Right => Direction::Right,
    };
    Selection::new(ty, Point::new(Line(p.line), Column(p.column)), side)
}

/// `Selection::update`: moves the end of the selection.
#[verifier::external_body]
pub(crate) fn update_selection(selection: &mut Selection, p: GridPoint, side: Side)
    ensures
        selection_view(*final(selection)) == (SelectionView {
            end: AnchorView { point: p, side },
            ..selection_view(*old(selection))
        }),
{
    let side = match side {
        Side::Left => Direction::Left,
        Side::Right => Direction::Right,
    };
    selection.update(Point::new(Line(p.line), Column(p.column)), side);
}

/// `Selection::include_all`: brings both ends to the outer sides of their cells.
#[verifier::external_body]
pub(crate) fn include_all(selection: &mut Selection)
    requires
        selection_view(*old(selection)).ty != SelectionType::Block,
    ensures
        selection_view(*final(selection)) == selection_view(*old(selection)).all_included(),
{
    selection.include_all();
}

/// `Selection::is_empty`: whether there is no cell between the ends.
#[verifier::external_body]
pub(crate) fn selection_is_empty(selection: &Selection) -> (r: bool)
    requires
        selection_view(*selection).is_sound(),
    ensures
        r == selection_view(*selection).is_empty(),
{
    selection.is_empty()
}

/// `Selection::intersects_range` with the lines up to the given one: whether the selection starts
/// or ends in one of them.
#[verifier::external_body]
pub(crate) fn selection_begins_by(selection: &Selection, line: i32) -> (r: bool)
    ensures
        r == (selection_view(*selection).top_line() <= line),
{
    selection.intersects_range(..=Line(line))
}

/// `PartialEq` of `Selection`: whether two selections have the same kind, start and end.
#[verifier::external_body]
pub(crate) fn same_selection(a: &Selection, b: &Selection) -> (r: bool)
    ensures
        r == (selection_view(*a) == selection_view(*b)),
{
    a == b
}

/// The text under the active selection.
pub uninterp spec fn selected_text(v: TermView) -> Option<Seq<char>>;

/// `Term::selection_to_string`: the text under the active selection; none where there is no
/// selection.
#[verifier::external_body]
pub(crate) fn selection_to_string(term: &Term<ZedListener>) -> (text: Option<String>)
    requires
        term_view(*term).sized(),
        term_view(*term).selection_legible(),
    ensures
        match text {
            Some(text) => selected_text(term_view(*term)) == Some(text@),
            None => selected_text(term_view(*term)) is None,
        },
        term_view(*term).selection is None ==> text is None,
{
    term.selection_to_string()
}

/// The cells under the active selection.
pub uninterp spec fn selected_range(v: TermView) -> Option<SelectionRange>;

/// `Selection::to_range`: the cells that a selection covers on the grid of the emulator, wherever
/// its display and its vi mode cursor are.
#[verifier::external_body]
pub(crate) fn selection_range(selection: &Selection, term: &Term<ZedListener>) -> (range: Option<
    SelectionRange,
>)
    requires
        term_view(*term).sized(),
        selection_view(*selection).is_sound(),
    ensures
        range == selected_range(
            term_view(*term).selecting(selection_view(*selection)).unscrolled(),
        ),
{
    selection.to_range(term).map(
        |r|
            SelectionRange {
                start: GridPoint { line: r.start.line.0, column: r.start.column.0 },
                end: GridPoint { line: r.end.line.0, column: r.end.column.0 },
                is_block: r.is_block,
            },
    )
}

/// `Term::toggle_vi_mode`: switches vi mode on or off.
#[verifier::external_body]
pub(crate) fn toggle_vi_mode(term: &mut Term<ZedListener>)
    requires
        term_view(*old(term)).sized(),
    ensures
        term_view(*final(term)) == term_view(*old(term)).with_vi_toggled(),
{
    term.toggle_vi_mode();
}

/// The emulator with the vi mode cursor moved.
pub uninterp spec fn vi_moved(v: TermView, motion: ViMotion) -> TermView;

/// `Term::vi_motion`: moves the vi mode cursor, scrolls the display to it and lets a selection that
/// is not empty end there; does nothing outside vi mode. The rest of the emulator stays as it is.
/// Where exactly the cursor goes is left to the name.
#[verifier::external_body]
pub(crate) fn vi_motion(term: &mut Term<ZedListener>, motion: ViMotion)
    requires
        term_view(*old(term)).sized(),
        term_view(*old(term)).motion_fits(motion),
    ensures
        term_view(*final(term)) == vi_moved(term_view(*old(term)), motion),
        term_view(*final(term)) == (TermView {
            display_offset: term_view(*final(term)).display_offset,
            vi_cursor: term_view(*final(term)).vi_cursor,
            selection: term_view(*final(term)).selection,
            ..term_view(*old(term))
        }),
        !term_view(*old(term)).mode.has(VI) ==> term_view(*final(term)) == term_view(*old(term)),
        term_view(*old(term)).mode.has(VI) ==> term_view(*final(term)).selection == term_view(
            *old(term),
        ).selection_following(term_view(*final(term)).vi_cursor),
{
    term.vi_motion(match motion {
        ViMotion::Up => AlacViMotion::Up, ViMotion::Down => AlacViMotion::Down,
        ViMotion::Left => AlacViMotion::Left, ViMotion::Right => AlacViMotion::Right,
        ViMotion::First => AlacViMotion::First, ViMotion::Last => AlacViMotion::Last,
        ViMotion::FirstOccupied => AlacViMotion::FirstOccupied,
        ViMotion::High => AlacViMotion::High, ViMotion::Middle => AlacViMotion::Middle,
        ViMotion::Low => AlacViMotion::Low, ViMotion::Bracket => AlacViMotion::Bracket,
        ViMotion::WordLeft => AlacViMotion::WordLeft,
        ViMotion::WordRight => AlacViMotion::WordRight,
        ViMotion::WordRightEnd => AlacViMotion::WordRightEnd,
    });
}

/// The style of the cursor.
pub uninterp spec fn style_of_cursor(v: TermView) -> CursorStyle;

/// `Term::cursor_style`: the shape of the cursor and whether it blinks, as the program or the
/// configuration has it.
#[verifier::external_body]
pub(crate) fn cursor_style(term: &Term<ZedListener>) -> (style: CursorStyle)
    ensures
        style == style_of_cursor(term_view(*term)),
{
    let style = term.cursor_style();
    let shape = match style.shape {
        AlacCursorShape::Block => CursorShape::Block,
        AlacCursorShape::Underline => CursorShape::Underline,
        AlacCursorShape::Beam => CursorShape::Beam,
        AlacCursorShape::HollowBlock => CursorShape::HollowBlock,
        AlacCursorShape::Hidden => CursorShape::Hidden,
    };
    CursorStyle { shape, blinking: style.blinking }
}

/// `Term::renderable_content`: the cells in sight, line by line, how far the display is scrolled
/// back, the cells under the selection, and the cursor: the cell in which it is drawn, and its
/// shape, which is that of its style unless it is hidden.
#[verifier::external_body]
pub(crate) fn renderable_content(term: &Term<ZedListener>) -> (content: RenderableContent)
    requires
        term_view(*term).sized(),
        term_view(*term).has_cursor_cell(),
        term_view(*term).selection_sound(),
    ensures
        content.cell_views() == term_view(*term).displayed(),
        content.display_offset == term_view(*term).display_offset,
        content.selection == term_view(*term).selected(),
        content.cursor.point == term_view(*term).drawn_cursor(),
        content.cursor.shape == crate::content::drawn_shape(term_view(*term)),
{
    let content = term.renderable_content();
    let place = |p: Point| GridPoint { line: p.line.0, column: p.column.0 };
    let shape = match content.cursor.shape {
        AlacCursorShape::Block => CursorShape::Block, AlacCursorShape::Beam => CursorShape::Beam,
        AlacCursorShape::Underline => CursorShape::Underline,
        AlacCursorShape::HollowBlock => CursorShape::HollowBlock,
        AlacCursorShape::Hidden => CursorShape::Hidden };
    RenderableContent {
        display_offset: content.display_offset,
        selection: content.selection.map(|r| SelectionRange {
            start: place(r.start), end: place(r.end), is_block: r.is_block }),
        cursor: RenderableCursor { shape, point: place(content.cursor.point) },
        cells: content.display_iter.map(|ic| IndexedCell {
            point: place(ic.point), cell: ic.cell.clone() }).collect(),
    }
}

/// The text from one cell of the grid to another.
pub uninterp spec fn text_between(v: TermView, start: GridPoint, end: GridPoint) -> Seq<char>;

/// `Term::bounds_to_string`: the text from one cell to another, both included.
#[verifier::external_body]
pub(crate) fn bounds_to_string(
    term: &Term<ZedListener>,
    start: GridPoint,
    end: GridPoint,
) -> (text: String)
    requires
        term_view(*term).on_grid(start),
        term_view(*term).on_grid(end),
        term_view(*term).legible_between(start, end),
    ensures
        text@ == text_between(term_view(*term), start, end),
{
    term.bounds_to_string(
        Point::new(Line(start.line), Column(start.column)),
        Point::new(Line(end.line), Column(end.column)),
    )
}

/// The emulator after a new line.
pub uninterp spec fn new_lined(v: TermView) -> TermView;

/// `Handler::newline`: goes to the next line, scrolling the screen up where there is none; a
/// selection moves up with the text. The cursor stays on the screen, and the size of the grid, the
/// limit of the scrollback, the modes and the screen that is not shown stay.
#[verifier::external_body]
pub(crate) fn newline(term: &mut Term<ZedListener>)
    requires
        term_view(*old(term)).on_screen(term_view(*old(term)).cursor),
        term_view(*old(term)).room_above(1),
    ensures
        term_view(*final(term)) == new_lined(term_view(*old(term))),
        term_view(*final(term)).mode == term_view(*old(term)).mode,
        term_view(*final(term)).columns == term_view(*old(term)).columns,
        term_view(*final(term)).screen_lines == term_view(*old(term)).screen_lines,
        term_view(*final(term)).on_screen(term_view(*final(term)).cursor),
        term_view(*final(term)).rises_from(term_view(*old(term)), 1),
        term_view(*final(term)).limit == term_view(*old(term)).limit,
        term_view(*final(term)).hidden_wide == term_view(*old(term)).hidden_wide,
{
    term.newline();
}

/// How many columns a character takes; none where it is a control character.
pub uninterp spec fn char_columns(c: char) -> Option<nat>;

/// Whether a character takes more than one column.
pub open spec fn is_wide(c: char) -> bool {
    char_columns(c) is Some && char_columns(c)->0 > 1
}

/// `UnicodeWidthChar::width`: how many columns a character takes. The emulator goes by it.
#[verifier::external_body]
pub(crate) fn char_width(c: char) -> (columns: Option<usize>)
    ensures
        columns is Some == char_columns(c) is Some,
        columns is Some ==> columns->0 == char_columns(c)->0,
{
    c.width()
}

/// The emulator after a character was written.
pub uninterp spec fn inputted(v: TermView, c: char) -> TermView;

/// `Handler::input`: writes a character at the cursor and moves the cursor behind it, to the next
/// line where the last one is full; a selection moves up with the text. The cursor stays on the
/// screen, and the size of the grid, the limit of the scrollback, the modes and the screen that is
/// not shown stay.
#[verifier::external_body]
pub(crate) fn input(term: &mut Term<ZedListener>, c: char)
    requires
        term_view(*old(term)).on_screen(term_view(*old(term)).cursor),
        term_view(*old(term)).room_above(1),
        term_view(*old(term)).takes_char(c),
    ensures
        term_view(*final(term)) == inputted(term_view(*old(term)), c),
        term_view(*final(term)).mode == term_view(*old(term)).mode,
        term_view(*final(term)).columns == term_view(*old(term)).columns,
        term_view(*final(term)).screen_lines == term_view(*old(term)).screen_lines,
        term_view(*final(term)).on_screen(term_view(*final(term)).cursor),
        term_view(*final(term)).rises_from(term_view(*old(term)), 1),
        term_view(*final(term)).limit == term_view(*old(term)).limit,
        term_view(*final(term)).hidden_wide == term_view(*old(term)).hidden_wide,
{
    term.input(c);
}

/// The colour that a program has set for an index.
pub uninterp spec fn color_set(v: TermView, index: nat) -> Option<Rgb>;

/// `Term::colors`: the colour that a program has set for the index, where it has set one.
#[verifier::external_body]
pub(crate) fn color(term: &Term<ZedListener>, index: usize) -> (color: Option<Rgb>)
    requires
        index < 269,
    ensures
        color == color_set(term_view(*term), index as nat),
{
    term.colors()[index].map(|c| Rgb { r: c.r, g: c.g, b: c.b })
}

/// The emulator under another configuration.
pub uninterp spec fn configured(v: TermView, config: TermConfig) -> TermView;

/// `Term::set_options`: puts the emulator under the configuration, which limits the scrollback. Vi
/// mode stays on or off.
#[verifier::external_body]
pub(crate) fn set_options(term: &mut Term<ZedListener>, config: TermConfig)
    ensures
        term_view(*final(term)) == configured(term_view(*old(term)), config),
        term_view(*final(term)).limit == config.scrolling_history,
        term_view(*final(term)).mode.has(VI) == term_view(*old(term)).mode.has(VI),
{
    let shape = match config.default_cursor_style.shape {
        CursorShape::Block => AlacCursorShape::Block,
        CursorShape::Underline => AlacCursorShape::Underline,
        CursorShape::Beam => AlacCursorShape::Beam,
        CursorShape::HollowBlock => AlacCursorShape::HollowBlock,
        CursorShape::Hidden => AlacCursorShape::Hidden,
    };
    let blinking = config.default_cursor_style.blinking;
    let default_cursor_style = AlacCursorStyle { shape, blinking };
    let scrolling_history = config.scrolling_history;
    term.set_options(Config { scrolling_history, default_cursor_style, ..Config::default() });
}

/// `Term::unset_private_mode` with `NamedPrivateMode::AlternateScroll`: switches that mode off.
#[verifier::external_body]
pub(crate) fn unset_alternate_scroll(term: &mut Term<ZedListener>)
    ensures
        term_view(*final(term)) == (TermView {
            mode: TermMode { bits: term_view(*old(term)).mode.bits & !ALTERNATE_SCROLL },
            ..term_view(*old(term))
        }),
{
    term.unset_private_mode(PrivateMode::Named(NamedPrivateMode::AlternateScroll));
}

/// A new emulator.
pub uninterp spec fn fresh(config: TermConfig, columns: nat, lines: nat) -> TermView;

/// `Term::new`: a new emulator of the given size: nothing to scroll back to, nothing selected, the
/// cursors at the top left, the default modes.
#[verifier::external_body]
pub(crate) fn new_term(
    config: TermConfig,
    bounds: &TerminalBounds,
    listener: ZedListener,
) -> (term: Term<ZedListener>)
    requires
        1 <= bounds.columns,
        1 <= bounds.lines <= i32::MAX,
    ensures
        term_view(term) == fresh(config, bounds.columns as nat, bounds.lines as nat),
        term_view(term).columns == bounds.columns,
        term_view(term).screen_lines == bounds.lines,
        term_view(term).history == 0,
        term_view(term).display_offset == 0,
        term_view(term).cursor == (GridPoint { line: 0, column: 0 }),
        term_view(term).vi_cursor == (GridPoint { line: 0, column: 0 }),
        term_view(term).selection is None,
        term_view(term).mode == (TermMode { bits: DEFAULT_MODE }),
        term_view(term).limit == config.scrolling_history,
        !term_view(term).hidden_wide,
{
    let shape = match config.default_cursor_style.shape {
        CursorShape::Block => AlacCursorShape::Block,
        CursorShape::Underline => AlacCursorShape::Underline,
        CursorShape::Beam => AlacCursorShape::Beam,
        CursorShape::HollowBlock => AlacCursorShape::HollowBlock,
        CursorShape::Hidden => AlacCursorShape::Hidden,
    };
    let blinking = config.default_cursor_style.blinking;
    let default_cursor_style = AlacCursorStyle { shape, blinking };
    let scrolling_history = config.scrolling_history;
    let config = Config { scrolling_history, default_cursor_style, ..Config::default() };
    Term::new(config, bounds, listener)
}

/// `Point::grid_clamp` with `Boundary::Grid`: brings the point onto the grid.
#[verifier::external_body]
pub(crate) fn grid_clamp(term: &Term<ZedListener>, p: GridPoint) -> (q: GridPoint)
    requires
        term_view(*term).sized(),
    ensures
        q == term_view(*term).grid_clamped(p),
{
    let q = Point::new(Line(p.line), Column(p.column)).grid_clamp(term, Boundary::Grid);
    GridPoint { line: q.line.0, column: q.column.0 }
}

/// The search for a pattern, where the pattern can be compiled.
pub uninterp spec fn compiled(pattern: Seq<char>) -> Option<RegexSearch>;

/// `RegexSearch::new`: compiles a pattern; none where it is no regular expression, or too large.
#[verifier::external_body]
pub(crate) fn new_search(pattern: &str) -> (regex: Option<RegexSearch>)
    ensures
        regex == compiled(pattern@),
{
    RegexSearch::new(pattern).ok()
}

/// The first match of a search from a cell of the grid on.
pub uninterp spec fn first_match(v: TermView, regex: RegexSearch, start: GridPoint) -> Option<
    GridRange,
>;

/// `Term::regex_search_right`, with a copy of a search that has not been used yet: the first match
/// from a cell up to the last one of the grid. A match lies on the grid.
#[verifier::external_body]
pub(crate) fn regex_search_right(
    term: &Term<ZedListener>,
    regex: &RegexSearch,
    start: GridPoint,
    end: GridPoint,
) -> (found: Option<GridRange>)
    requires
        term_view(*term).sized(),
        term_view(*term).on_grid(start),
        !term_view(*term).passed_over(start),
        end.line == term_view(*term).bottommost(),
        end.column == term_view(*term).columns - 1,
        exists|pattern: Seq<char>| #[trigger] compiled(pattern) == Some(*regex),
    ensures
        found == first_match(term_view(*term), *regex, start),
        found is Some ==> term_view(*term).on_grid(found->0.start),
        found is Some ==> term_view(*term).on_grid(found->0.end),
{
    let start = Point::new(Line(start.line), Column(start.column));
    let end = Point::new(Line(end.line), Column(end.column));
    term.regex_search_right(&mut regex.clone(), start, end).map(|m| GridRange {
        start: GridPoint { line: m.start().line.0, column: m.start().column.0 },
        end: GridPoint { line: m.end().line.0, column: m.end().column.0 },
    })
}

/// What an event of the emulator tells.
pub uninterp spec fn told_by(event: AlacTermEvent) -> TermEventView;

/// The variants of `Event`, with what they hold but for the functions in them.
#[verifier::external_body]
pub(crate) fn term_event(event: &AlacTermEvent) -> (told: TermEvent)
    ensures
        told@ == told_by(*event),
{
    match event {
        AlacTermEvent::Title(title) => TermEvent::Title(title.clone()),
        AlacTermEvent::ResetTitle => TermEvent::ResetTitle,
        AlacTermEvent::ClipboardStore(_, text) => TermEvent::ClipboardStore(text.clone()),
        AlacTermEvent::ClipboardLoad(..) => TermEvent::ClipboardLoad,
        AlacTermEvent::PtyWrite(text) => TermEvent::PtyWrite(text.clone()),
        AlacTermEvent::TextAreaSizeRequest(_) => TermEvent::TextAreaSizeRequest,
        AlacTermEvent::CursorBlinkingChange => TermEvent::CursorBlinkingChange,
        AlacTermEvent::Bell => TermEvent::Bell,
        AlacTermEvent::Exit => TermEvent::Exit,
        AlacTermEvent::MouseCursorDirty => TermEvent::MouseCursorDirty,
        AlacTermEvent::Wakeup => TermEvent::Wakeup,
        AlacTermEvent::ColorRequest(index, _) => TermEvent::ColorRequest(*index),
        AlacTermEvent::ChildExit(code) => TermEvent::ChildExit(*code),
    }
}

/// The answer to a request for the clipboard, which holds the given text.
pub uninterp spec fn clipboard_reply(event: AlacTermEvent, text: Seq<char>) -> Seq<char>;

/// The function in the variant `Event::ClipboardLoad`: puts the text into the form that the program
/// asked for.
#[verifier::external_body]
pub(crate) fn format_clipboard(event: &AlacTermEvent, text: &str) -> (reply: String)
    requires
        told_by(*event) is ClipboardLoad,
    ensures
        reply@ == clipboard_reply(*event, text@),
{
    match event {
        AlacTermEvent::ClipboardLoad(_, format) => format(text),
        _ => String::new(),
    }
}

/// The answer to a request for the size of the terminal.
pub uninterp spec fn size_reply(event: AlacTermEvent, size: WindowSize) -> Seq<char>;

/// The function in the variant `Event::TextAreaSizeRequest`: writes the size in pixels, counted in
/// 16 bits, down in the form that the program asked for.
#[verifier::external_body]
pub(crate) fn format_size(event: &AlacTermEvent, size: WindowSize) -> (reply:
    String)
    requires
        told_by(*event) is TextAreaSizeRequest,
        size.counts_pixels(),
    ensures
        reply@ == size_reply(*event, size),
{
    let size = AlacWindowSize {
        num_lines: size.num_lines,
        num_cols: size.num_cols,
        cell_width: size.cell_width,
        cell_height: size.cell_height,
    };
    match event {
        AlacTermEvent::TextAreaSizeRequest(format) => format(size),
        _ => String::new(),
    }
}

/// The answer to a request for a colour.
pub uninterp spec fn color_reply(event: AlacTermEvent, color: Rgb) -> Seq<char>;

/// The function in the variant `Event::ColorRequest`: writes the colour down in the form that the
/// program asked for.
#[verifier::external_body]
pub(crate) fn format_color(event: &AlacTermEvent, color: Rgb) -> (reply: String)
    requires
        told_by(*event) is ColorRequest,
    ensures
        reply@ == color_reply(*event, color),
{
    let color = AlacRgb { r: color.r, g: color.g, b: color.b };
    match event {
        AlacTermEvent::ColorRequest(_, format) => format(color),
        _ => String::new(),
    }
}

} // verus!
