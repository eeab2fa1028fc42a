//! Whether an emulator can carry out what is asked of it, found out at run time.
use crate::alac;
use crate::alac::ZedListener;
use crate::events::InternalEvent;
use crate::grid::{
    GridPoint, Scroll, SelectionType, Side, TermView, ViMotion, ALT_SCREEN,
    LEADING_WIDE_CHAR_SPACER, VI, WIDE_CHAR, WIDE_CHAR_SPACER, WRAPLINE,
};
use crate::sync::{vi_cursor_target, EventInputs};
use crate::terminal::{grid_range, is_sized};
use alacritty_terminal::selection::Selection;
use alacritty_terminal::term::cell::Cell;
use alacritty_terminal::term::Term;
use vstd::prelude::*;

verus! {

/// Whether the point lies on the screen, as it is when not scrolled back.
pub fn is_on_screen(term: &Term<ZedListener>, p: GridPoint) -> (r: bool)
    ensures
        r == alac::term_view(*term).on_screen(p),
{
    0 <= p.line && (p.line as u64) < alac::screen_lines(term) as u64 && p.column < alac::columns(
        term,
    )
}

/// Whether the point lies on the grid, scrollback included.
pub fn is_on_grid(term: &Term<ZedListener>, p: GridPoint) -> (r: bool)
    ensures
        r == alac::term_view(*term).on_grid(p),
{
    let lines: usize = alac::screen_lines(term);
    let history: usize = alac::total_lines(term) - lines;
    -(history as i128) <= p.line as i128 && (p.line as i128) < lines as i128 && p.column
        < alac::columns(term)
}

/// Whether none of the lines from `first` to `last` starts with the second column of a wide
/// character, as far as they are on the grid.
fn is_free_of_orphans(term: &Term<ZedListener>, first: i32, last: i32) -> (r: bool)
    requires
        alac::term_view(*term).sized(),
    ensures
        r == forall|l: int|
            alac::term_view(*term).topmost() <= l <= alac::term_view(*term).bottommost() && first
                <= l <= last ==> (#[trigger] alac::term_view(*term).lines[l])[0].flags
                & WIDE_CHAR_SPACER == 0,
{
    let ghost v = alac::term_view(*term);
    let range = grid_range(term);
    let top: i32 = if first > range.start.line {
        first
    } else {
        range.start.line
    };
    let bottom: i32 = if last < range.end.line {
        last
    } else {
        range.end.line
    };
    let mut line: i32 = top;
    while line <= bottom
        invariant
            v == alac::term_view(*term),
            v.sized(),
            v.topmost() <= top <= line,
            line <= bottom + 1 || line == top,
            bottom <= v.bottommost(),
            forall|l: int|
                top <= l < line ==> (#[trigger] v.lines[l])[0].flags & WIDE_CHAR_SPACER == 0,
            first <= top,
            bottom <= last,
        decreases bottom + 1 - line,
    {
        let cell = alac::cell_of(term, GridPoint { line, column: 0 });
        if alac::cell_flags(&cell) & WIDE_CHAR_SPACER != 0 {
            assert(v.lines[line as int][0].flags & WIDE_CHAR_SPACER != 0);
            return false;
        }
        line = line + 1;
    }
    true
}

/// Whether the topmost line ends in a cell that was left free for a wide character.
fn is_top_end_left_free(term: &Term<ZedListener>) -> (r: bool)
    requires
        alac::term_view(*term).sized(),
    ensures
        r == (alac::term_view(*term).flags_at(
            alac::term_view(*term).topmost(),
            alac::term_view(*term).columns - 1,
        ) & LEADING_WIDE_CHAR_SPACER != 0),
{
    let range = grid_range(term);
    let end = GridPoint { line: range.start.line, column: range.end.column };
    alac::cell_flags(&alac::cell_of(term, end)) & LEADING_WIDE_CHAR_SPACER != 0
}

/// Whether the text from one cell to another can be read.
pub fn is_legible_between(term: &Term<ZedListener>, start: GridPoint, end: GridPoint) -> (r: bool)
    requires
        alac::term_view(*term).sized(),
    ensures
        r == alac::term_view(*term).legible_between(start, end),
{
    let range = grid_range(term);
    if start.column == 0 {
        if !is_free_of_orphans(term, start.line, end.line) {
            return false;
        }
    } else if start.line < i32::MAX {
        if !is_free_of_orphans(term, start.line + 1, end.line) {
            return false;
        }
    }
    !(end.line == range.start.line && end.column >= range.end.column && range.end.column >= 1
        && is_top_end_left_free(term))
}

/// The higher of the lines in which a selection starts and ends.
pub fn top_line(selection: &Selection) -> (line: i32)
    ensures
        line == alac::selection_view(*selection).top_line(),
{
    let mut low: i32 = i32::MIN;
    let mut high: i32 = i32::MAX;
    while low < high
        invariant
            low <= alac::selection_view(*selection).top_line() <= high,
        decreases high - low,
    {
        let middle: i32 = (low as i64 + (high as i64 - low as i64) / 2) as i32;
        if alac::selection_begins_by(selection, middle) {
            high = middle;
        } else {
            low = middle + 1;
        }
    }
    low
}

/// Whether it can be told which cells a selection covers.
pub fn is_sound(selection: &Selection) -> (r: bool)
    ensures
        r == alac::selection_view(*selection).is_sound(),
{
    match alac::selection_type(selection) {
        SelectionType::Block => false,
        SelectionType::Simple => {
            let p = GridPoint { line: top_line(selection), column: usize::MAX };
            let mut uncountable = alac::new_selection(SelectionType::Simple, p, Side::Right);
            alac::update_selection(&mut uncountable, p, Side::Left);
            !alac::same_selection(selection, &uncountable)
        },
        _ => true,
    }
}

/// Whether it can be told which cells the selection, if there is one, covers.
fn is_selection_sound(term: &Term<ZedListener>) -> (r: bool)
    ensures
        r == alac::term_view(*term).selection_sound(),
{
    match alac::active_selection(term) {
        Some(selection) => is_sound(&selection),
        None => true,
    }
}

/// Whether the selection, if there is one, can move up by so many lines in `i32` arithmetic.
pub fn has_room_above(term: &Term<ZedListener>, lines: i64) -> (r: bool)
    requires
        -0xffff_ffff <= lines <= 0xffff_ffff,
    ensures
        r == alac::term_view(*term).room_above(lines as int),
{
    match alac::active_selection(term) {
        Some(selection) => top_line(&selection) as i64 - lines >= -0x8000_0000,
        None => true,
    }
}

/// Whether the text under a selection could be read, were it the active one.
fn is_readable(term: &Term<ZedListener>, selection: &Selection) -> (r: bool)
    requires
        alac::term_view(*term).sized(),
    ensures
        r == alac::term_view(*term).selecting(
            alac::selection_view(*selection),
        ).selection_legible(),
{
    let ghost v = alac::term_view(*term);
    let ghost w = v.selecting(alac::selection_view(*selection));
    if !is_sound(selection) {
        return false;
    }
    match alac::selection_range(selection, term) {
        Some(range) => {
            assert(w.legible_between(range.start, range.end) == v.legible_between(
                range.start,
                range.end,
            )) by {
                assert(w.lines == v.lines);
            }
            is_legible_between(term, range.start, range.end)
        },
        None => true,
    }
}

/// Whether the text under the selection, if there is one, can be read.
pub fn is_selection_legible(term: &Term<ZedListener>) -> (r: bool)
    requires
        alac::term_view(*term).sized(),
    ensures
        r == alac::term_view(*term).selection_legible(),
{
    match alac::active_selection(term) {
        Some(selection) => {
            assert(alac::term_view(*term).selecting(alac::selection_view(selection))
                == alac::term_view(*term));
            is_readable(term, &selection)
        },
        None => true,
    }
}

/// Whether a cell of the grid holds a wide character.
fn any_wide_char(term: &Term<ZedListener>) -> (r: bool)
    requires
        alac::term_view(*term).sized(),
    ensures
        r == alac::term_view(*term).has_wide_char(),
{
    let ghost v = alac::term_view(*term);
    let lines: usize = alac::screen_lines(term);
    let history: usize = alac::total_lines(term) - lines;
    let top: i32 = -(history as i32);
    let end: i32 = lines as i32;
    for line in top..end
        invariant
            v == alac::term_view(*term),
            top == v.topmost(),
            end == v.screen_lines,
            forall|l: int, i: int|
                #![trigger v.lines[l][i]]
                v.topmost() <= l < line && 0 <= i < v.columns ==> v.lines[l][i].flags & WIDE_CHAR
                    == 0,
    {
        let row = alac::row_cells(term, line);
        for i in 0..row.len()
            invariant
                v == alac::term_view(*term),
                v.topmost() <= line <= v.bottommost(),
                row@.len() == v.columns,
                alac::cell_views(row@) == v.lines[line as int],
                forall|j: int|
                    #![trigger v.lines[line as int][j]]
                    0 <= j < i ==> v.lines[line as int][j].flags & WIDE_CHAR == 0,
        {
            assert(v.lines[line as int][i as int] == alac::cell_view(row@[i as int]));
            let flags: u16 = alac::cell_flags(&row[i]);
            if flags & WIDE_CHAR != 0 {
                assert(v.lines[line as int][i as int].flags & WIDE_CHAR != 0);
                return true;
            }
        }
    }
    false
}

fn resize_is_fit(term: &Term<ZedListener>, columns: usize, lines: usize) -> (r: bool)
    requires
        alac::term_view(*term).sized(),
        alac::term_view(*term).is_limited(),
        alac::term_view(*term).hidden_fits(columns as nat),
    ensures
        r == alac::term_view(*term).resize_fits(columns as nat, lines as nat),
{
    let same_columns = columns == alac::columns(term);
    let old_lines: usize = alac::screen_lines(term);
    if same_columns && lines == old_lines {
        return true;
    }
    let history: usize = alac::total_lines(term) - old_lines;
    let cursor = alac::cursor_point(term);
    if !is_on_screen(term, cursor) || lines < 1 || lines > 0x7fff_ffff || lines as i64
        + history as i64 > 0x7fff_ffff {
        return false;
    }
    let wanted: i64 = lines as i64 - old_lines as i64;
    let needed: i64 = lines as i64 - cursor.line as i64 - 1;
    let least: i64 = if needed < 0 {
        needed
    } else {
        0
    };
    let moved: i64 = if wanted < least {
        least
    } else {
        wanted
    };
    let delta: i64 = if moved > history as i64 {
        history as i64
    } else {
        moved
    };
    assert(delta == alac::term_view(*term).resize_delta(lines as nat));
    let vi_line: i64 = alac::vi_cursor_point(term).line as i64 + delta;
    -0x8000_0000 <= vi_line && vi_line <= 0x7fff_ffff && (!same_columns || has_room_above(
        term,
        -delta,
    )) && (columns >= 2 || same_columns || (columns == 1 && (alac::mode(term).contains(ALT_SCREEN)
        || !any_wide_char(term))))
}

/// Whether the lines from `line` on claim, at the given column, to go on past the lowest one.
fn is_running_off(term: &Term<ZedListener>, line: i32, column: usize) -> (r: bool)
    requires
        alac::term_view(*term).sized(),
        alac::term_view(*term).topmost() <= line <= alac::term_view(*term).bottommost(),
        column < alac::term_view(*term).columns,
    ensures
        r == alac::term_view(*term).runs_off(line as int, column as int),
{
    let ghost v = alac::term_view(*term);
    let end: i32 = alac::screen_lines(term) as i32;
    for l in line..end
        invariant
            v == alac::term_view(*term),
            v.sized(),
            end == v.screen_lines,
            v.topmost() <= line,
            column < v.columns,
            forall|k: int|
                line <= k < l ==> (#[trigger] v.lines[k])[column as int].flags & WRAPLINE != 0,
    {
        let cell = alac::cell_of(term, GridPoint { line: l, column });
        if alac::cell_flags(&cell) & WRAPLINE == 0 {
            assert(v.lines[l as int][column as int].flags & WRAPLINE == 0);
            return false;
        }
    }
    true
}

/// Whether a cell counts as white space for the vi mode cursor.
fn is_space(cell: &Cell) -> (r: bool)
    ensures
        r == alac::cell_view(*cell).is_space(),
{
    let flags: u16 = alac::cell_flags(cell);
    let c: char = alac::cell_char(cell);
    flags & WIDE_CHAR_SPACER == 0 && flags & LEADING_WIDE_CHAR_SPACER == 0 && (c == ' ' || c
        == '\t')
}

/// Whether there is but white space on a line.
fn is_line_of_spaces(term: &Term<ZedListener>, line: i32) -> (r: bool)
    requires
        alac::term_view(*term).topmost() <= line <= alac::term_view(*term).bottommost(),
    ensures
        r == alac::term_view(*term).is_spaces(line as int),
{
    let ghost v = alac::term_view(*term);
    let row = alac::row_cells(term, line);
    for i in 0..row.len()
        invariant
            v == alac::term_view(*term),
            row@.len() == v.columns,
            alac::cell_views(row@) == v.lines[line as int],
            forall|j: int|
                #![trigger v.lines[line as int][j]]
                0 <= j < i ==> v.lines[line as int][j].is_space(),
    {
        assert(v.lines[line as int][i as int] == alac::cell_view(row@[i as int]));
        if !is_space(&row[i]) {
            assert(!v.lines[line as int][i as int].is_space());
            return false;
        }
    }
    true
}

/// Whether a line goes on in the next.
fn is_wrapped(term: &Term<ZedListener>, line: i32) -> (r: bool)
    requires
        alac::term_view(*term).sized(),
        alac::term_view(*term).topmost() <= line <= alac::term_view(*term).bottommost(),
    ensures
        r == alac::term_view(*term).wraps(line as int),
{
    let last = GridPoint { line, column: alac::columns(term) - 1 };
    alac::cell_flags(&alac::cell_of(term, last)) & WRAPLINE != 0
}

/// Whether the lines from the given one down are all white space, and claim to go on past the
/// lowest one.
fn is_trailing_off(term: &Term<ZedListener>, line: i32) -> (r: bool)
    requires
        alac::term_view(*term).sized(),
        alac::term_view(*term).topmost() <= line <= alac::term_view(*term).bottommost(),
    ensures
        r == alac::term_view(*term).trails_off(line as int),
{
    let ghost v = alac::term_view(*term);
    let end: i32 = alac::screen_lines(term) as i32;
    for l in line..end
        invariant
            v == alac::term_view(*term),
            v.sized(),
            end == v.screen_lines,
            v.topmost() <= line,
            forall|k: int| line <= k < l ==> #[trigger] v.is_spaces(k) && v.wraps(k),
    {
        if !is_line_of_spaces(term, l) || !is_wrapped(term, l) {
            assert(!(v.is_spaces(l as int) && v.wraps(l as int)));
            return false;
        }
        assert(v.is_spaces(l as int) && v.wraps(l as int));
    }
    true
}

/// Whether a line above the given one, of those that go on in it, is not all white space.
fn is_occupied_above(term: &Term<ZedListener>, line: i32) -> (r: bool)
    requires
        alac::term_view(*term).sized(),
        alac::term_view(*term).topmost() <= line <= alac::term_view(*term).bottommost(),
    ensures
        r == alac::term_view(*term).occupied_above(line as int),
{
    let ghost v = alac::term_view(*term);
    let topmost: i32 = grid_range(term).start.line;
    let mut l: i32 = line;
    while l > topmost
        invariant
            v == alac::term_view(*term),
            v.sized(),
            topmost == v.topmost(),
            topmost <= l <= line <= v.bottommost(),
            forall|k: int| l <= k < line ==> #[trigger] v.wraps(k),
            forall|k: int| l <= k < line ==> #[trigger] v.is_spaces(k),
        decreases l - topmost,
    {
        l = l - 1;
        if !is_wrapped(term, l) {
            assert(!v.wraps(l as int));
            return false;
        }
        if !is_line_of_spaces(term, l) {
            return true;
        }
    }
    false
}

/// Whether a cell of the line to the right of a column is no white space.
fn is_occupied_right_of(term: &Term<ZedListener>, line: i32, column: usize) -> (r: bool)
    requires
        alac::term_view(*term).topmost() <= line <= alac::term_view(*term).bottommost(),
        column < alac::term_view(*term).columns,
    ensures
        r == alac::term_view(*term).occupied_right_of(line as int, column as int),
{
    let ghost v = alac::term_view(*term);
    let row = alac::row_cells(term, line);
    for i in column + 1..row.len()
        invariant
            column < i,
            v == alac::term_view(*term),
            row@.len() == v.columns,
            alac::cell_views(row@) == v.lines[line as int],
            forall|j: int|
                #![trigger v.lines[line as int][j]]
                column < j < i ==> v.lines[line as int][j].is_space(),
    {
        assert(v.lines[line as int][i as int] == alac::cell_view(row@[i as int]));
        if !is_space(&row[i]) {
            assert(!v.lines[line as int][i as int].is_space());
            return true;
        }
    }
    false
}

/// Whether a cell holds a wide character for which the last cell of the line above was left free.
fn is_leading_back(term: &Term<ZedListener>, p: GridPoint) -> (r: bool)
    requires
        alac::term_view(*term).sized(),
        alac::term_view(*term).on_grid(p),
    ensures
        r == alac::term_view(*term).leads_back(p),
{
    let range = grid_range(term);
    if p.column > 0 || p.line <= range.start.line {
        return false;
    }
    let before = GridPoint { line: p.line - 1, column: range.end.column };
    alac::cell_flags(&alac::cell_of(term, p)) & WIDE_CHAR != 0 && alac::cell_flags(
        &alac::cell_of(term, before),
    ) & LEADING_WIDE_CHAR_SPACER != 0
}

/// Whether a motion can be made that starts from the cell of the vi mode cursor.
fn motion_from_cell_is_fit(term: &Term<ZedListener>, motion: ViMotion) -> (r: bool)
    requires
        alac::term_view(*term).sized(),
        alac::term_view(*term).mode.has(VI),
        alac::term_view(*term).selection_sound(),
        alac::term_view(*term).on_grid(alac::term_view(*term).vi_cursor),
        !(motion is Up || motion is Down || motion is High || motion is Low || motion is Middle),
    ensures
        r == alac::term_view(*term).motion_fits(motion),
{
    let ghost v = alac::term_view(*term);
    let columns: usize = alac::columns(term);
    let bottommost: i32 = grid_range(term).end.line;
    let p = alac::vi_cursor_point(term);
    let flags: u16 = alac::cell_flags(&alac::cell_of(term, p));
    let orphaned = p.column == 0 && flags & WIDE_CHAR_SPACER != 0;
    let left_free = flags & LEADING_WIDE_CHAR_SPACER != 0;
    let points_nowhere = left_free && (p.line == bottommost || columns < 2);
    match motion {
        ViMotion::Left | ViMotion::First | ViMotion::WordLeft => !orphaned,
        ViMotion::FirstOccupied => !orphaned && !(p.column == columns - 1 && !is_leading_back(
            term,
            p,
        ) && is_trailing_off(term, p.line) && !is_occupied_above(term, p.line)),
        ViMotion::Right => !points_nowhere,
        ViMotion::WordRight => !points_nowhere || p.line + 1 == bottommost,
        ViMotion::Last => {
            if points_nowhere {
                false
            } else {
                let (line, column): (i32, usize) = if left_free {
                    (p.line + 1, 1)
                } else if flags & WIDE_CHAR != 0 && p.column < columns - 1 {
                    (p.line, p.column + 1)
                } else {
                    (p.line, p.column)
                };
                assert((line as int, column as int) == v.behind_wide(p));
                is_occupied_right_of(term, line, column) || !is_running_off(term, line, column)
            }
        },
        _ => true,
    }
}

/// Whether the emulator can move the vi mode cursor so.
fn motion_is_fit(term: &Term<ZedListener>, motion: ViMotion) -> (r: bool)
    requires
        alac::term_view(*term).sized(),
    ensures
        r == alac::term_view(*term).motion_fits(motion),
{
    if !alac::mode(term).contains(VI) {
        return true;
    }
    if !is_selection_sound(term) {
        return false;
    }
    let lines: usize = alac::screen_lines(term);
    let history: usize = alac::total_lines(term) - lines;
    let offset: usize = alac::display_offset(term);
    let p = alac::vi_cursor_point(term);
    match motion {
        ViMotion::Up => {
            let line: i64 = if p.line as i64 > -(history as i64) {
                p.line as i64 - 1
            } else {
                p.line as i64
            };
            -0x8000_0000 < line && line + offset as i64 <= 0x7fff_ffff
        },
        ViMotion::Down => {
            let line: i64 = if (p.line as i64) < lines as i64 - 1 {
                p.line as i64 + 1
            } else {
                p.line as i64
            };
            p.line < i32::MAX && -0x8000_0000 < line && line + offset as i64 <= 0x7fff_ffff
        },
        ViMotion::High | ViMotion::Low => true,
        ViMotion::Middle => lines >= 2 || offset < history,
        _ => is_on_grid(term, p) && motion_from_cell_is_fit(term, motion),
    }
}

fn scroll_is_fit(term: &Term<ZedListener>, scroll: Scroll) -> (r: bool)
    requires
        alac::term_view(*term).sized(),
    ensures
        r == alac::term_view(*term).scroll_fits(scroll),
{
    match scroll {
        Scroll::Delta(count) => alac::display_offset(term) as i64 + count as i64 <= 0x7fff_ffff,
        _ => true,
    }
}

/// Where the vi mode cursor is once the display has been scrolled.
fn vi_cursor_kept_in_sight(term: &Term<ZedListener>, scroll: Scroll) -> (p: GridPoint)
    requires
        alac::term_view(*term).sized(),
        alac::term_view(*term).scroll_fits(scroll),
    ensures
        p == alac::term_view(*term).display_scrolled(scroll).vi_cursor,
        alac::term_view(*term).topmost() <= p.line <= alac::term_view(*term).bottommost(),
{
    let lines: i64 = alac::screen_lines(term) as i64;
    let history: i64 = alac::total_lines(term) as i64 - lines;
    let now: i64 = alac::display_offset(term) as i64;
    let wanted: i64 = match scroll {
        Scroll::Delta(count) => now + count as i64,
        Scroll::PageUp => now + lines,
        Scroll::PageDown => now - lines,
        Scroll::Top => history,
        Scroll::Bottom => 0,
    };
    let offset: i64 = if wanted < 0 {
        0
    } else if wanted > history {
        history
    } else {
        wanted
    };
    assert(offset == alac::term_view(*term).scrolled_offset(scroll));
    let at = alac::vi_cursor_point(term);
    let bottom: i64 = lines - 1 - offset;
    let line: i64 = if (at.line as i64) < -offset {
        -offset
    } else {
        at.line as i64
    };
    let line: i64 = if line > bottom {
        bottom
    } else {
        line
    };
    GridPoint { line: line as i32, column: at.column }
}

/// In vi mode the cursor ends up in the same cell whichever way it is found.
proof fn vi_target_is_unique(v: TermView, scroll: Scroll, p: GridPoint, q: GridPoint)
    requires
        v.columns >= 1,
        crate::sync::vi_cursor_after(v, scroll, p),
        crate::sync::vi_cursor_after(v, scroll, q),
    ensures
        p == q,
{
    let row = v.lines[p.line as int];
    if p.column < q.column {
        assert(row[p.column as int].is_space());
        assert(row[q.column as int].is_space());
    } else if q.column < p.column {
        assert(row[q.column as int].is_space());
        assert(row[p.column as int].is_space());
    }
}

/// Where a scroll leaves the vi mode cursor depends on where it was and on the grid alone.
proof fn vi_target_is_shared(v: TermView, w: TermView, scroll: Scroll, p: GridPoint)
    requires
        crate::sync::vi_cursor_after(v, scroll, p),
        v.lines == w.lines,
        v.vi_cursor == w.vi_cursor,
        v.columns == w.columns,
        v.screen_lines == w.screen_lines,
        v.history == w.history,
    ensures
        crate::sync::vi_cursor_after(w, scroll, p),
{
}

/// Whether a scroll can move the vi mode cursor, and the selection with it.
fn vi_scroll_is_fit(term: &Term<ZedListener>, scroll: Scroll, has_primary: bool) -> (r: bool)
    requires
        alac::term_view(*term).sized(),
        alac::term_view(*term).scroll_fits(scroll),
        alac::term_view(*term).mode.has(VI) ==> alac::term_view(*term).selection_sound(),
    ensures
        r == crate::sync::display_scroll_fits(scroll, true, has_primary, alac::term_view(*term)),
{
    let ghost v = alac::term_view(*term);
    let ghost shown = v.display_scrolled(scroll);
    let from = vi_cursor_kept_in_sight(term, scroll);
    if let Scroll::Delta(count) = scroll {
        let line: i64 = from.line as i64 - count as i64;
        if line < -0x8000_0000 || line > 0x7fff_ffff {
            return false;
        }
    }
    match alac::active_selection(term) {
        Some(selection) => {
            let p = vi_cursor_target(term, from, scroll);
            proof {
                vi_target_is_shared(
                    TermView { vi_cursor: from, ..v },
                    shown,
                    scroll,
                    p,
                );
            }
            assert forall|q: GridPoint| crate::sync::vi_cursor_after(shown, scroll, q) implies q
                == p by {
                vi_target_is_unique(shown, scroll, p, q);
            }
            let mut moved = selection;
            if alac::mode(term).contains(VI) && !alac::selection_is_empty(&moved) {
                alac::update_selection(&mut moved, from, Side::Left);
                alac::include_all(&mut moved);
            }
            alac::update_selection(&mut moved, p, Side::Right);
            let ghost after = crate::sync::with_vi_cursor(shown, p);
            let ghost tried = v.selecting(alac::selection_view(moved));
            assert(tried.unscrolled() == after.unscrolled());
            assert(tried.selection_legible() == after.selection_legible()) by {
                legibility_is_unscrolled(tried, after);
            }
            !has_primary || is_readable(term, &moved)
        },
        None => true,
    }
}

/// Where the display and the vi mode cursor are does not matter for reading selected text.
proof fn legibility_is_unscrolled(v: TermView, w: TermView)
    requires
        v.unscrolled() == w.unscrolled(),
    ensures
        v.selection_legible() == w.selection_legible(),
{
    let u = v.unscrolled();
    assert(v.lines == u.lines && w.lines == u.lines);
    assert(v.selection == u.selection && w.selection == u.selection);
    assert(v.history == u.history && w.history == u.history);
    assert(v.screen_lines == u.screen_lines && w.screen_lines == u.screen_lines);
    assert(v.columns == u.columns && w.columns == u.columns);
}

/// Whether the emulator can carry the event out with what the surroundings contribute.
pub fn event_is_fit(
    event: &InternalEvent,
    inputs: &EventInputs,
    vi_mode_enabled: bool,
    term: &Term<ZedListener>,
) -> (r: bool)
    requires
        alac::term_view(*term).is_limited(),
        crate::sync::hidden_takes(event@, alac::term_view(*term)),
    ensures
        r == crate::sync::event_fits(event@, *inputs, vi_mode_enabled, alac::term_view(*term)),
{
    if !is_sized(term) {
        return false;
    }
    match event {
        InternalEvent::Resize(bounds) => {
            let b = bounds.at_least_one_cell();
            resize_is_fit(term, b.columns, b.lines)
        },
        InternalEvent::Clear => is_on_screen(term, alac::cursor_point(term)),
        InternalEvent::Scroll(scroll) => {
            scroll_is_fit(term, *scroll) && (!alac::mode(term).contains(VI) || is_selection_sound(
                term,
            )) && (!vi_mode_enabled || vi_scroll_is_fit(term, *scroll, inputs.has_primary))
        },
        InternalEvent::ScrollToAlacPoint(p) => {
            let row: i64 = p.line as i64 + alac::display_offset(term) as i64;
            let in_sight = 0 <= row && row < alac::screen_lines(term) as i64;
            p.line > i32::MIN && row <= 0x7fff_ffff && (in_sight || !alac::mode(term).contains(VI)
                || is_selection_sound(term))
        },
        InternalEvent::SetSelection(selection) => match selection {
            Some((selection, _)) => !inputs.has_primary || is_readable(term, selection),
            None => true,
        },
        InternalEvent::UpdateSelection(_) => match alac::active_selection(term) {
            Some(selection) => {
                let mut moved = selection;
                alac::update_selection(&mut moved, inputs.hit.0, inputs.hit.1);
                !inputs.has_primary || is_readable(term, &moved)
            },
            None => true,
        },
        InternalEvent::Copy(_) => is_selection_legible(term),
        InternalEvent::ToggleViMode => true,
        InternalEvent::ViMotion(motion) => motion_is_fit(term, *motion),
        InternalEvent::FindHyperlink(_, _) => true,
    }
}

/// Whether the emulator can be asked for what it shows.
pub fn content_is_fit(term: &Term<ZedListener>) -> (r: bool)
    ensures
        r == crate::content::content_fits(alac::term_view(*term)),
{
    if !is_sized(term) {
        return false;
    }
    let mode = alac::mode(term);
    let p = if mode.contains(VI) {
        alac::vi_cursor_point(term)
    } else {
        alac::cursor_point(term)
    };
    if !is_on_grid(term, p) {
        return false;
    }
    let cell = alac::cell_of(term, p);
    if alac::cell_flags(&cell) & WIDE_CHAR_SPACER != 0 && p.column == 0 {
        return false;
    }
    is_selection_legible(term)
}

} // verus!
