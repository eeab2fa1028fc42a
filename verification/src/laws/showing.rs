//! What a terminal that has been brought up to date shows, and when it can be.
use crate::alac::ZedListener;
use crate::content::TerminalContent;
use crate::events::{InternalEvent, InternalEventView};
use crate::grid::{CursorShape, Scroll, TermView, ViMotion};
use crate::sync::{event_fits, is_run, syncs, EventInputs, Stage, SyncOutcome};
use crate::terminal::Terminal;
use alacritty_terminal::term::Term;
use vstd::prelude::*;

verus! {

proof fn cursor_modes(bits: u32)
    ensures
        (bits & 65536 == 65536) == (bits & 65536 != 0),
        (bits & 1 == 1) == (bits & 1 != 0),
        (bits & 128 == 128) == (bits & 128 != 0),
{
    assert((bits & 65536 == 65536) == (bits & 65536 != 0) && (bits & 1 == 1) == (bits & 1 != 0)
        && (bits & 128 == 128) == (bits & 128 != 0)) by (bit_vector);
}

/// The content has a cell for each column of each line in sight, row by row from the one the
/// display is scrolled back to, and each is the cell of the grid at its place.
pub proof fn the_content_has_the_cells_in_sight(
    content: TerminalContent,
    last: TerminalContent,
    v: TermView,
    row: int,
    column: int,
)
    requires
        v.sized(),
        v.columns <= usize::MAX,
        content.shows(v, last),
        0 <= row < v.screen_lines,
        0 <= column < v.columns,
    ensures
        content.cells@.len() == v.screen_lines * v.columns,
        0 <= row * v.columns + column < content.cells@.len(),
        ({
            let cell = content.cells@[row * v.columns + column];
            &&& cell.point.line == row - v.display_offset
            &&& cell.point.column == column
            &&& crate::alac::cell_view(cell.cell) == v.lines[row - v.display_offset][column]
        }),
{
    let columns = v.columns as int;
    let i = row * columns + column;
    assert(0 <= i < v.screen_lines * columns) by (nonlinear_arith)
        requires
            0 <= row < v.screen_lines,
            0 <= column < columns,
            i == row * columns + column,
    ;
    vstd::arithmetic::div_mod::lemma_fundamental_div_mod_converse(i, columns, row, column);
    assert(content.cell_views().len() == content.cells@.len());
    assert(content.cell_views()[i] == v.displayed()[i]);
    assert(content.cell_views()[i] == content.cells@[i].cell_at());
}

/// The cursor is shown where the emulator has it, the one of vi mode in vi mode; on the second
/// column of a wide character it is shown on the first. It is hidden exactly where the program has
/// hidden it and vi mode is off, or its own style is to be hidden; the character under it is that
/// of its cell.
pub proof fn the_cursor_is_shown_where_it_is(
    content: TerminalContent,
    last: TerminalContent,
    v: TermView,
)
    requires
        content.shows(v, last),
    ensures
        ({
            let vi = v.mode.bits & 65536 != 0;
            let cursor = if vi {
                v.vi_cursor
            } else {
                v.cursor
            };
            let flags = v.lines[cursor.line as int][cursor.column as int].flags;
            let shown = content.cursor.point;
            &&& shown.line == cursor.line
            &&& flags & 64 == 0 ==> shown == cursor
            &&& flags & 64 != 0 && cursor.column > 0 ==> shown.column == cursor.column - 1
            &&& content.cursor_char == v.lines[shown.line as int][shown.column as int].c
            &&& !vi && v.mode.bits & 1 == 0 ==> content.cursor.shape == CursorShape::Hidden
            &&& vi || v.mode.bits & 1 != 0 ==> content.cursor.shape
                == crate::alac::style_of_cursor(v).shape
        }),
{
    cursor_modes(v.mode.bits);
}

/// The content says how far the display is scrolled back and whether that is to an end, has the
/// selection and its text, the text only where there is a selection, and keeps the bounds and the
/// link under the mouse.
pub proof fn the_content_says_what_is_shown(
    content: TerminalContent,
    last: TerminalContent,
    v: TermView,
)
    requires
        content.shows(v, last),
    ensures
        content.display_offset == v.display_offset,
        content.scrolled_to_top <==> v.display_offset == v.history,
        content.scrolled_to_bottom <==> v.display_offset == 0,
        content.mode == v.mode,
        content.terminal_bounds == last.terminal_bounds,
        content.hovered() == last.hovered(),
        v.selection is None ==> content.selection is None,
        content.selection is None ==> content.selection_text is None,
        content.selection is Some ==> {
            &&& content.selection_text is Some == crate::alac::selected_text(v) is Some
            &&& content.selection_text is Some ==> content.selection_text->0@
                == crate::alac::selected_text(v)->0
        },
{
}

proof fn told_grows<P: Fn(&InternalEvent, &Terminal, &Term<ZedListener>) -> EventInputs>(
    stages: Seq<Stage>,
    provide: P,
    i: int,
)
    requires
        is_run(stages, provide),
        0 <= i < stages.len(),
    ensures
        stages[0].told.is_prefix_of(stages[i].told),
        stages[i].terminal.term_config == stages[0].terminal.term_config,
    decreases i,
{
    if i > 0 {
        told_grows(stages, provide, i - 1);
        assert(stages[i].follows(stages[i - 1], provide));
        let (a, b, c) = (stages[0].told, stages[i - 1].told, stages[i].told);
        assert(c.take(a.len() as int) =~= b.take(a.len() as int));
    } else {
        assert(stages[0].told.take(stages[0].told.len() as int) =~= stages[0].told);
    }
}

/// Once a terminal has been brought up to date nothing waits, and what it shows is what its
/// emulator has; where it could not be, it was stuck. What was told stays told.
pub proof fn bringing_up_to_date_leaves_nothing_waiting<
    P: Fn(&InternalEvent, &Terminal, &Term<ZedListener>) -> EventInputs,
>(before: Stage, after: Stage, outcome: SyncOutcome, provide: P)
    requires
        syncs(before, after, outcome, provide),
    ensures
        before.told.is_prefix_of(after.told),
        outcome == SyncOutcome::Shown ==> {
            let v = crate::alac::term_view(after.term);
            &&& after.terminal.queue().len() == 0
            &&& after.terminal.last_content.mode == v.mode
            &&& after.terminal.last_content.display_offset == v.display_offset
            &&& after.terminal.last_content.scrolled_to_bottom == (v.display_offset == 0)
        },
        outcome == SyncOutcome::Refused ==> after.is_stuck(provide),
        after.terminal.term_config == before.terminal.term_config,
{
    let stages = choose|stages: Seq<Stage>|
        {
            let last = stages.last();
            &&& #[trigger] is_run(stages, provide)
            &&& stages[0] == before
            &&& after.term == last.term
            &&& after.told == last.told
            &&& match outcome {
                SyncOutcome::Shown => {
                    &&& last.terminal.queue().len() == 0
                    &&& after.terminal.shows(last.terminal, crate::alac::term_view(last.term))
                },
                SyncOutcome::Refused => {
                    &&& after.terminal == last.terminal
                    &&& last.is_stuck(provide)
                },
            }
        };
    told_grows(stages, provide, stages.len() - 1);
    if outcome == SyncOutcome::Shown {
        assert(after.terminal.queue() == stages.last().terminal.queue());
    }
}

/// Bringing a terminal up to date for which nothing waits leaves its emulator alone and tells
/// nobody; it only takes over what is shown.
pub proof fn without_events_only_the_content_is_new<
    P: Fn(&InternalEvent, &Terminal, &Term<ZedListener>) -> EventInputs,
>(before: Stage, after: Stage, outcome: SyncOutcome, provide: P)
    requires
        syncs(before, after, outcome, provide),
        before.terminal.queue().len() == 0,
    ensures
        after.term == before.term,
        after.told == before.told,
        (Terminal { last_content: before.terminal.last_content, ..after.terminal })
            == before.terminal,
        outcome == SyncOutcome::Refused ==> after.terminal == before.terminal,
        after.terminal.last_content.terminal_bounds == before.terminal.last_content.terminal_bounds,
        after.terminal.last_content.hovered() == before.terminal.last_content.hovered(),
{
    let stages = choose|stages: Seq<Stage>|
        {
            let last = stages.last();
            &&& #[trigger] is_run(stages, provide)
            &&& stages[0] == before
            &&& after.term == last.term
            &&& after.told == last.told
            &&& match outcome {
                SyncOutcome::Shown => {
                    &&& last.terminal.queue().len() == 0
                    &&& after.terminal.shows(last.terminal, crate::alac::term_view(last.term))
                },
                SyncOutcome::Refused => {
                    &&& after.terminal == last.terminal
                    &&& last.is_stuck(provide)
                },
            }
        };
    assert(before.terminal.events@.len() == before.terminal.queue().len());
    if stages.len() > 1 {
        assert(stages[1].follows(stages[0], provide));
    }
}

/// An emulator of ordinary size with its cursor on the screen and nothing selected can carry out
/// whatever waits, short of moving the cursor of vi mode: scrolls and resizes of ordinary extent,
/// clearing, selecting, copying, links and the switch of vi mode. Nothing of that is refused.
pub proof fn ordinary_emulators_refuse_nothing(
    event: InternalEventView,
    inputs: EventInputs,
    vi_mode_enabled: bool,
    v: TermView,
)
    requires
        1 <= v.columns,
        1 <= v.screen_lines <= 1_000_000,
        v.history <= 1_000_000,
        v.display_offset <= v.history,
        v.limit <= 1_000_000,
        0 <= v.cursor.line < v.screen_lines,
        v.cursor.column < v.columns,
        -v.history <= v.vi_cursor.line < v.screen_lines,
        v.selection is None,
        !inputs.has_primary,
    ensures
        match event {
            InternalEventView::Resize(bounds) => {
                let b = bounds.spec_at_least_one_cell();
                b.columns >= 2 && 1 <= b.lines <= 1_000_000 ==> event_fits(
                    event,
                    inputs,
                    vi_mode_enabled,
                    v,
                )
            },
            InternalEventView::Scroll(Scroll::Delta(n)) => -1_000_000_000 <= n <= 1_000_000_000
                ==> event_fits(event, inputs, vi_mode_enabled, v),
            InternalEventView::ScrollToAlacPoint(p) => -1_000_000_000 <= p.line <= 1_000_000_000
                ==> event_fits(event, inputs, vi_mode_enabled, v),
            InternalEventView::ViMotion(_) => v.mode.bits & 65536 == 0 ==> event_fits(
                event,
                inputs,
                vi_mode_enabled,
                v,
            ),
            _ => event_fits(event, inputs, vi_mode_enabled, v),
        },
{
    cursor_modes(v.mode.bits);
}

/// Only what cannot be done is refused. Where nothing waits, that is an emulator that cannot show
/// what it has; so one with nothing selected, and its cursor on a cell in a column other than the
/// first, was not refused with nothing waiting. Where something waits, the emulator cannot carry it
/// out with what the surroundings contribute.
pub proof fn only_what_cannot_be_done_is_refused<
    P: Fn(&InternalEvent, &Terminal, &Term<ZedListener>) -> EventInputs,
>(before: Stage, after: Stage, provide: P)
    requires
        syncs(before, after, SyncOutcome::Refused, provide),
    ensures
        ({
            let v = crate::alac::term_view(after.term);
            let cursor = if v.mode.bits & 65536 != 0 {
                v.vi_cursor
            } else {
                v.cursor
            };
            let ordinary = v.sized() && v.selection is None && -v.history <= cursor.line
                < v.screen_lines && 0 < cursor.column < v.columns;
            &&& after.terminal.queue().len() == 0 ==> !ordinary
            &&& after.terminal.queue().len() > 0 ==> exists|inputs: EventInputs|
                #[trigger] crate::sync::provided(
                    provide,
                    after.terminal.events@[0],
                    after.terminal,
                    after.term,
                    inputs,
                ) && !event_fits(
                    after.terminal.queue()[0],
                    inputs,
                    after.terminal.vi_mode_enabled,
                    v,
                )
        }),
{
    let v = crate::alac::term_view(after.term);
    cursor_modes(v.mode.bits);
    bringing_up_to_date_leaves_nothing_waiting(before, after, SyncOutcome::Refused, provide);
    assert(after.terminal.events@.len() == after.terminal.queue().len());
    if after.terminal.queue().len() > 0 {
        assert(after.terminal.queue()[0] == after.terminal.events@[0]@);
    }
}

/// An emulator with nothing selected can show what it has, where its cursor stands on a cell that
/// is not the second column of a wide character, or not in the first column.
pub proof fn ordinary_emulators_can_be_shown(v: TermView)
    requires
        v.sized(),
        v.selection is None,
        ({
            let cursor = if v.mode.bits & 65536 != 0 {
                v.vi_cursor
            } else {
                v.cursor
            };
            &&& -v.history <= cursor.line < v.screen_lines
            &&& cursor.column < v.columns
            &&& cursor.column > 0 || v.lines[cursor.line as int][0].flags & 64 == 0
        }),
    ensures
        crate::content::content_fits(v),
{
    cursor_modes(v.mode.bits);
}

/// The screen that is not shown is in nobody's way but where the alternate screen is shown and a
/// resize to a single column waits.
pub proof fn the_hidden_screen_is_rarely_in_the_way(t: Terminal, v: TermView)
    ensures
        v.mode.bits & 4096 == 0 ==> t.hidden_surely_takes_all(v),
        (forall|i: int|
            0 <= i < t.queue().len() ==> ((#[trigger] t.queue()[i]) matches
                InternalEventView::Resize(bounds) ==> bounds.spec_at_least_one_cell().columns
                != 1)) ==> t.hidden_surely_takes_all(v),
        v.mode.bits & 4096 != 0 && t.queue().len() > 0 && (t.queue()[0] matches
            InternalEventView::Resize(bounds) && bounds.spec_at_least_one_cell().columns == 1)
            ==> !t.hidden_surely_takes_all(v),
{
    let bits = v.mode.bits;
    assert((bits & 4096 == 4096) == (bits & 4096 != 0)) by (bit_vector);
}

/// A copy of a content shows what the content shows, whatever that is, and can stand in its place
/// for the next.
pub proof fn a_copy_shows_the_same(
    copy: TerminalContent,
    content: TerminalContent,
    last: TerminalContent,
    next: TerminalContent,
    v: TermView,
    w: TermView,
)
    requires
        copy.is_copy_of(content),
    ensures
        content.shows(v, last) <==> copy.shows(v, last),
        next.shows(w, content) <==> next.shows(w, copy),
{
}

/// In vi mode an emulator of ordinary size with nothing selected can move its cursor: up, down and
/// to lines in sight always, and sideways wherever the cell under it is neither a second column in
/// front nor left free for a wide character.
pub proof fn ordinary_emulators_can_move_the_vi_cursor(
    motion: ViMotion,
    inputs: EventInputs,
    vi_mode_enabled: bool,
    v: TermView,
)
    requires
        1 <= v.columns,
        2 <= v.screen_lines <= 1_000_000,
        v.history <= 1_000_000,
        v.display_offset <= v.history,
        -v.history <= v.vi_cursor.line < v.screen_lines,
        v.vi_cursor.column < v.columns,
        v.selection is None,
    ensures
        ({
            let p = v.vi_cursor;
            let flags = v.lines[p.line as int][p.column as int].flags;
            let fits = event_fits(InternalEventView::ViMotion(motion), inputs, vi_mode_enabled, v);
            match motion {
                ViMotion::Left | ViMotion::First | ViMotion::WordLeft => flags & 64 == 0 ==> fits,
                ViMotion::FirstOccupied => flags & 64 == 0 && p.column + 1 < v.columns ==> fits,
                ViMotion::Right | ViMotion::WordRight => flags & 1024 == 0 ==> fits,
                ViMotion::Last => flags & 1024 == 0 && flags & 32 == 0 && flags & 16 == 0 ==> fits,
                _ => fits,
            }
        }),
{
}

} // verus!
