//! What carrying out the events that wait in a terminal comes to.
use crate::content::TerminalContent;
use crate::events::{EffectView, EventView, InternalEventView, MsgView, TargetView};
use crate::geometry::TerminalBounds;
use crate::grid::{GridPoint, Scroll, SelectionView, Side, TermView, ViMotion};
use crate::sync::{EventInputs, HoverProbe};
use crate::terminal::{SelectionPhase, Terminal};
use vstd::prelude::*;

verus! {

proof fn one_mode(bits: u32)
    ensures
        (bits & 65536 == 65536) == (bits & 65536 != 0),
        ((bits ^ 65536) & 65536 != 0) == (bits & 65536 == 0),
        (bits ^ 65536) & !65536u32 == bits & !65536u32,
{
    assert((bits & 65536 == 65536) == (bits & 65536 != 0)) by (bit_vector);
    assert(((bits ^ 65536) & 65536 != 0) == (bits & 65536 == 0)) by (bit_vector);
    assert((bits ^ 65536) & !65536u32 == bits & !65536u32) by (bit_vector);
}

/// A scroll moves the display by what it says, and stops at the ends of the scrollback; the text,
/// the cursor and the modes stay as they are.
pub proof fn a_scroll_moves_the_display(
    before: Terminal,
    after: Terminal,
    scroll: Scroll,
    inputs: EventInputs,
    v: TermView,
    w: TermView,
    told: Seq<EffectView>,
)
    requires
        v.sized(),
        after.carries_out(before, InternalEventView::Scroll(scroll), inputs, v, w, told),
    ensures
        w.lines == v.lines,
        w.history == v.history,
        w.columns == v.columns,
        w.screen_lines == v.screen_lines,
        w.cursor == v.cursor,
        w.mode == v.mode,
        w.limit == v.limit,
        w.display_offset <= v.history,
        match scroll {
            Scroll::Delta(n) => {
                &&& 0 <= v.display_offset + n <= v.history ==> w.display_offset
                    == v.display_offset + n
                &&& v.display_offset + n < 0 ==> w.display_offset == 0
                &&& v.display_offset + n > v.history ==> w.display_offset == v.history
            },
            Scroll::PageUp => {
                &&& v.display_offset + v.screen_lines <= v.history ==> w.display_offset
                    == v.display_offset + v.screen_lines
                &&& v.display_offset + v.screen_lines > v.history ==> w.display_offset == v.history
            },
            Scroll::PageDown => {
                &&& v.screen_lines <= v.display_offset ==> w.display_offset == v.display_offset
                    - v.screen_lines
                &&& v.screen_lines > v.display_offset ==> w.display_offset == 0
            },
            Scroll::Top => w.display_offset == v.history,
            Scroll::Bottom => w.display_offset == 0,
        },
{
}

/// Scrolled some lines and then as many the other way, or a page and then a page the other way, the
/// display is where it was, unless an end of the scrollback was in the way.
pub proof fn scrolling_back_and_forth(
    before: Terminal,
    middle: Terminal,
    after: Terminal,
    there: Scroll,
    back: Scroll,
    inputs: EventInputs,
    v: TermView,
    w: TermView,
    x: TermView,
    told: Seq<EffectView>,
    told_back: Seq<EffectView>,
)
    requires
        v.sized(),
        middle.carries_out(before, InternalEventView::Scroll(there), inputs, v, w, told),
        after.carries_out(middle, InternalEventView::Scroll(back), inputs, w, x, told_back),
    ensures
        there matches Scroll::Delta(n) ==> back matches Scroll::Delta(m) ==> n + m == 0 && 0
            <= v.display_offset + n <= v.history ==> x.display_offset == v.display_offset,
        there == Scroll::PageUp && back == Scroll::PageDown && v.display_offset + v.screen_lines
            <= v.history ==> x.display_offset == v.display_offset,
        there == Scroll::PageDown && back == Scroll::PageUp && v.screen_lines <= v.display_offset
            ==> x.display_offset == v.display_offset,
{
}

/// In vi mode a scroll moves the cursor the way it moves the display. With `c` the line of the
/// cursor, brought into the new viewport, some lines up leave it that much above `c`, a page down a
/// page below, as far as the grid goes; to the top and to the bottom it goes all the way. So a
/// cursor that was scrolled down is not above what is in sight, and one that was scrolled up not
/// below it.
pub proof fn the_vi_cursor_goes_with_the_display(
    before: Terminal,
    after: Terminal,
    scroll: Scroll,
    inputs: EventInputs,
    v: TermView,
    w: TermView,
    told: Seq<EffectView>,
    c: int,
)
    requires
        v.sized(),
        after.carries_out(before, InternalEventView::Scroll(scroll), inputs, v, w, told),
        before.vi_mode_enabled,
        -w.display_offset <= c < w.screen_lines - w.display_offset,
        -w.display_offset <= v.vi_cursor.line < w.screen_lines - w.display_offset ==> c
            == v.vi_cursor.line,
        v.vi_cursor.line < -w.display_offset ==> c == -w.display_offset,
        v.vi_cursor.line >= w.screen_lines - w.display_offset ==> c == w.screen_lines
            - w.display_offset - 1,
    ensures
        -v.history <= w.vi_cursor.line < v.screen_lines,
        match scroll {
            Scroll::Delta(n) => {
                &&& -v.history <= c - n < v.screen_lines ==> w.vi_cursor.line == c - n
                &&& c - n < -v.history ==> w.vi_cursor.line == -v.history
                &&& c - n >= v.screen_lines ==> w.vi_cursor.line == v.screen_lines - 1
            },
            Scroll::PageUp => {
                &&& -v.history <= c - v.screen_lines ==> w.vi_cursor.line == c - v.screen_lines
                &&& c - v.screen_lines < -v.history ==> w.vi_cursor.line == -v.history
            },
            Scroll::PageDown => {
                &&& c < 0 ==> w.vi_cursor.line == c + v.screen_lines
                &&& c >= 0 ==> w.vi_cursor.line == v.screen_lines - 1
            },
            Scroll::Top => w.vi_cursor.line == -v.history && w.vi_cursor.column == 0,
            Scroll::Bottom => w.vi_cursor.line == v.screen_lines - 1 && w.vi_cursor.column == 0,
        },
        scroll == Scroll::PageDown || scroll == Scroll::Bottom || (scroll matches Scroll::Delta(n)
            && n <= 0) ==> w.vi_cursor.line >= -w.display_offset,
        scroll == Scroll::PageUp || scroll == Scroll::Top || (scroll matches Scroll::Delta(n) && n
            >= 0) ==> w.vi_cursor.line < w.screen_lines - w.display_offset,
{
}

/// In vi mode a scroll takes the end of the selection to the cell of the cursor, and where the
/// selection begins stays; the owner hears of it, and so does the primary selection, where there is
/// one. Without a selection there is nothing to tell.
pub proof fn the_selection_goes_with_the_vi_cursor(
    before: Terminal,
    after: Terminal,
    scroll: Scroll,
    inputs: EventInputs,
    v: TermView,
    w: TermView,
    told: Seq<EffectView>,
)
    requires
        after.carries_out(before, InternalEventView::Scroll(scroll), inputs, v, w, told),
        before.vi_mode_enabled,
    ensures
        w.selection is Some == v.selection is Some,
        v.selection is Some ==> {
            &&& w.selection->0.end.point == w.vi_cursor
            &&& w.selection->0.end.side == Side::Right
            &&& w.selection->0.start.point == v.selection->0.start.point
            &&& w.selection->0.ty == v.selection->0.ty
            &&& after.selection_head == Some(w.vi_cursor)
            &&& told.len() > 0
            &&& told.last() == EffectView::Emit(EventView::SelectionsChanged)
        },
        v.selection is None ==> told.len() == 0 && after.selection_head == before.selection_head,
{
}

/// Outside of vi mode a scroll leaves the selection and its head alone, and tells nobody.
pub proof fn scrolling_leaves_the_selection(
    before: Terminal,
    after: Terminal,
    scroll: Scroll,
    inputs: EventInputs,
    v: TermView,
    w: TermView,
    told: Seq<EffectView>,
)
    requires
        after.carries_out(before, InternalEventView::Scroll(scroll), inputs, v, w, told),
        !before.vi_mode_enabled,
        v.mode.bits & 65536 == 0,
    ensures
        w.selection == v.selection,
        after.selection_head == before.selection_head,
        told.len() == 0,
{
    one_mode(v.mode.bits);
}

/// Whenever the selection is set or moved, the owner is told last, and ahead of that the selected
/// text goes to the primary selection, where there is one and text is selected. Nothing else is
/// told.
pub proof fn a_changed_selection_is_told(
    before: Terminal,
    after: Terminal,
    event: InternalEventView,
    inputs: EventInputs,
    v: TermView,
    w: TermView,
    told: Seq<EffectView>,
)
    requires
        after.carries_out(before, event, inputs, v, w, told),
        event is SetSelection || (v.selection is Some && (event is UpdateSelection || (event
            is Scroll && before.vi_mode_enabled))),
    ensures
        told.len() > 0,
        told.last() == EffectView::Emit(EventView::SelectionsChanged),
        inputs.has_primary && crate::alac::selected_text(w) is Some ==> told.len() == 2 && told[0]
            == EffectView::WriteToPrimary(crate::alac::selected_text(w)->0),
        !inputs.has_primary || crate::alac::selected_text(w) is None ==> told.len() == 1,
{
}

/// A selection that is set is the one that was asked for, with the head that came with it; one that
/// is taken away is gone. The rest of the emulator stays.
pub proof fn a_selection_is_set_as_asked(
    before: Terminal,
    after: Terminal,
    asked: Option<(SelectionView, GridPoint)>,
    inputs: EventInputs,
    v: TermView,
    w: TermView,
    told: Seq<EffectView>,
)
    requires
        after.carries_out(before, InternalEventView::SetSelection(asked), inputs, v, w, told),
    ensures
        w.selection is Some == asked is Some,
        asked matches Some((selection, head)) ==> w.selection == Some(selection)
            && after.selection_head == Some(head),
        asked is None ==> after.selection_head == before.selection_head,
        (TermView { selection: v.selection, ..w }) == v,
        (Terminal { selection_head: before.selection_head, ..after }) == before,
{
}

/// Moving the end of a selection takes it, and the head, to the cell and side that were hit. Where
/// the selection begins and its kind stay. Without a selection nothing happens.
pub proof fn a_selection_ends_where_the_mouse_is(
    before: Terminal,
    after: Terminal,
    position: crate::events::Position,
    inputs: EventInputs,
    v: TermView,
    w: TermView,
    told: Seq<EffectView>,
)
    requires
        after.carries_out(before, InternalEventView::UpdateSelection(position), inputs, v, w, told),
    ensures
        (TermView { selection: v.selection, ..w }) == v,
        (Terminal { selection_head: before.selection_head, ..after }) == before,
        match v.selection {
            Some(s) => {
                &&& w.selection is Some
                &&& w.selection->0.start == s.start
                &&& w.selection->0.ty == s.ty
                &&& w.selection->0.end.point == inputs.hit.0
                &&& w.selection->0.end.side == inputs.hit.1
                &&& after.selection_head == Some(inputs.hit.0)
            },
            None => w == v && after == before && told.len() == 0,
        },
{
}

/// A copy puts the selected text on the clipboard, as it is, and nothing else; where nothing is
/// selected it does nothing. It asks for the selection to go away unless told to keep it, and
/// without being told anything it goes by the setting.
pub proof fn a_copy_takes_the_selected_text(
    before: Terminal,
    after: Terminal,
    keep: Option<bool>,
    inputs: EventInputs,
    v: TermView,
    w: TermView,
    told: Seq<EffectView>,
)
    requires
        after.carries_out(before, InternalEventView::Copy(keep), inputs, v, w, told),
    ensures
        w == v,
        match crate::alac::selected_text(v) {
            Some(text) => {
                &&& told.len() == 1
                &&& told[0] == EffectView::WriteToClipboard(text)
                &&& keep == Some(true) || (keep is None && inputs.keep_selection_on_copy) ==> after
                    == before
                &&& keep == Some(false) || (keep is None && !inputs.keep_selection_on_copy) ==> {
                    &&& after.queue().len() == before.queue().len() + 1
                    &&& after.queue().last() == InternalEventView::SetSelection(None)
                    &&& after.queue().drop_last() == before.queue()
                    &&& (Terminal { events: before.events, ..after }) == before
                }
            },
            None => told.len() == 0 && after == before,
        },
{
    let asked = seq![InternalEventView::SetSelection(None)];
    assert((before.queue() + asked).drop_last() =~= before.queue());
}

/// A resize leaves the terminal with room for one cell at least, tells the pty the very size that
/// the terminal now has, and brings the emulator to it. Bounds that had the room are taken as they
/// are.
pub proof fn a_resize_agrees_with_itself(
    before: Terminal,
    after: Terminal,
    bounds: TerminalBounds,
    inputs: EventInputs,
    v: TermView,
    w: TermView,
    told: Seq<EffectView>,
)
    requires
        after.carries_out(before, InternalEventView::Resize(bounds), inputs, v, w, told),
    ensures
        ({
            let now = after.last_content.terminal_bounds;
            &&& now.cell_width == bounds.cell_width
            &&& now.line_height == bounds.line_height
            &&& now.bounds.origin == bounds.bounds.origin
            &&& now.bounds.size.height.rank() >= now.line_height.rank()
            &&& now.bounds.size.width.rank() >= now.cell_width.rank()
            &&& bounds.bounds.size.height.rank() >= bounds.line_height.rank() ==> now.lines
                == bounds.lines && now.bounds.size.height == bounds.bounds.size.height
            &&& bounds.bounds.size.width.rank() >= bounds.cell_width.rank() ==> now.columns
                == bounds.columns && now.bounds.size.width == bounds.bounds.size.width
            &&& bounds.bounds.size.height.rank() < bounds.line_height.rank() ==> now.lines <= 1
                && now.bounds.size.height == bounds.line_height
            &&& bounds.bounds.size.width.rank() < bounds.cell_width.rank() ==> now.columns <= 1
                && now.bounds.size.width == bounds.cell_width
            &&& 0 < bounds.line_height.bits < 0x7f80_0000 && bounds.lines >= 1 ==> now.lines >= 1
            &&& 0 < bounds.cell_width.bits < 0x7f80_0000 && bounds.columns >= 1 ==> now.columns
                >= 1
            &&& 0 < bounds.line_height.bits < 0x7f80_0000 && bounds.bounds.size.height.rank()
                < bounds.line_height.rank() ==> now.lines == 1
            &&& 0 < bounds.cell_width.bits < 0x7f80_0000 && bounds.bounds.size.width.rank()
                < bounds.cell_width.rank() ==> now.columns == 1
            &&& w == crate::alac::resized(v, now.columns as nat, now.lines as nat)
            &&& after.pty_tx@.len() == before.pty_tx@.len() + 1
            &&& after.pty_tx@.drop_last() == before.pty_tx@
            &&& after.pty_tx@.last() is Resize
            &&& told.len() == 0
            &&& ({
                let size = after.pty_tx@.last()->Resize_0;
                &&& now.lines <= 65535 ==> size.num_lines == now.lines
                &&& now.columns <= 65535 ==> size.num_cols == now.columns
                &&& 0 <= now.cell_width.whole <= 65535 ==> size.cell_width == now.cell_width.whole
                &&& 0 <= now.line_height.whole <= 65535 ==> size.cell_height
                    == now.line_height.whole
                &&& now.cell_width.whole < 0 ==> size.cell_width == 0
                &&& now.line_height.whole < 0 ==> size.cell_height == 0
                &&& now.cell_width.whole > 65535 ==> size.cell_width == 65535
                &&& now.line_height.whole > 65535 ==> size.cell_height == 65535
            })
            &&& (Terminal {
                pty_tx: before.pty_tx,
                last_content: TerminalContent {
                    terminal_bounds: before.last_content.terminal_bounds,
                    ..after.last_content
                },
                ..after
            }) == before
        }),
{
    assert(after.pty_tx@.drop_last() =~= before.pty_tx@);
}

/// Switching vi mode switches it in the terminal and in the emulator, and no other mode with it.
/// Where it is switched on, its cursor is in sight.
pub proof fn vi_mode_is_switched_in_both(
    before: Terminal,
    after: Terminal,
    inputs: EventInputs,
    v: TermView,
    w: TermView,
    told: Seq<EffectView>,
)
    requires
        v.sized(),
        v.on_screen(v.cursor),
        after.carries_out(before, InternalEventView::ToggleViMode, inputs, v, w, told),
    ensures
        after.vi_mode_enabled == !before.vi_mode_enabled,
        (w.mode.bits & 65536 != 0) == (v.mode.bits & 65536 == 0),
        w.mode.bits & !65536u32 == v.mode.bits & !65536u32,
        v.mode.bits & 65536 == 0 ==> -w.display_offset <= w.vi_cursor.line < w.screen_lines
            - w.display_offset,
        v.mode.bits & 65536 == 0 && v.cursor.line < v.screen_lines - v.display_offset
            ==> w.vi_cursor == v.cursor,
        v.mode.bits & 65536 != 0 ==> w.vi_cursor == v.vi_cursor,
        (TermView { mode: v.mode, vi_cursor: v.vi_cursor, ..w }) == v,
        (Terminal { vi_mode_enabled: before.vi_mode_enabled, ..after }) == before,
        told.len() == 0,
{
    one_mode(v.mode.bits);
    one_mode(w.mode.bits);
}

/// Clearing tells the owner that there is something new to show, and leaves the terminal alone. The
/// cursor stays in its column, and no selection is left that reached into the scrollback.
pub proof fn clearing_is_told(
    before: Terminal,
    after: Terminal,
    inputs: EventInputs,
    v: TermView,
    w: TermView,
    told: Seq<EffectView>,
)
    requires
        v.sized(),
        after.carries_out(before, InternalEventView::Clear, inputs, v, w, told),
    ensures
        after == before,
        told.len() == 1,
        told[0] == EffectView::Emit(EventView::Wakeup),
        w.history == 0,
        w.display_offset == 0,
        w.cursor.line == 0,
        w.cursor.column == v.cursor.column,
        w.columns == v.columns,
        w.screen_lines == v.screen_lines,
        w.mode == v.mode,
        w.lines[0] == v.lines[v.cursor.line as int],
        forall|l: int, i: int|
            1 <= l < v.screen_lines && 0 <= i < v.columns ==> (#[trigger] w.lines[l][i]).c == ' '
                && w.lines[l][i].flags == 0 && w.lines[l][i].link is None,
        forall|l: int| 1 <= l < v.screen_lines ==> (#[trigger] w.lines[l]).len() == v.columns,
        v.history > 0 && w.selection is Some ==> w.selection->0.start.point.line >= 0
            && w.selection->0.end.point.line >= 0,
        v.selection is None ==> w.selection is None,
{
    assert forall|l: int, i: int| 1 <= l < v.screen_lines && 0 <= i < v.columns implies (
    #[trigger] w.lines[l][i]).c == ' ' && w.lines[l][i].flags == 0 && w.lines[l][i].link
        is None by {
        assert(w.is_blank_line(w.lines[l]));
        assert(w.lines[l][i].is_blank());
    }
}

/// A point of the grid that is scrolled to is in sight, and the display moves no further than that
/// takes; a point in sight moves nothing.
pub proof fn the_display_goes_no_further_than_needed(
    before: Terminal,
    after: Terminal,
    p: GridPoint,
    inputs: EventInputs,
    v: TermView,
    w: TermView,
    told: Seq<EffectView>,
)
    requires
        v.sized(),
        v.on_grid(p),
        after.carries_out(before, InternalEventView::ScrollToAlacPoint(p), inputs, v, w, told),
    ensures
        -w.display_offset <= p.line < w.screen_lines - w.display_offset,
        -v.display_offset <= p.line < v.screen_lines - v.display_offset ==> w == v,
        p.line < -v.display_offset ==> p.line == -w.display_offset,
        p.line >= v.screen_lines - v.display_offset ==> p.line == w.screen_lines - w.display_offset
            - 1,
        w.lines == v.lines,
        w.history == v.history,
        told.len() == 0,
{
}

/// Every event keeps to its own: the pty hears of a size alone, the clipboard of a copy alone and
/// the primary selection of a changed selection alone; only clearing says that there is something
/// new, and only a link that was asked to be opened is opened. A size and clearing alone change
/// what is on the grid, and the switch alone vi mode. What ran in the terminal, its title and its
/// matches are no business of any.
pub proof fn events_keep_to_their_own(
    before: Terminal,
    after: Terminal,
    event: InternalEventView,
    inputs: EventInputs,
    v: TermView,
    w: TermView,
    told: Seq<EffectView>,
    i: int,
)
    requires
        after.carries_out(before, event, inputs, v, w, told),
        0 <= i < told.len(),
    ensures
        told[i] is WriteToClipboard ==> event is Copy,
        told[i] is WriteToPrimary ==> inputs.has_primary && (event is SetSelection || event
            is UpdateSelection || event is Scroll),
        told[i] is OpenUrl ==> false,
        told[i] == EffectView::Emit(EventView::SelectionsChanged) ==> event is SetSelection || event
            is UpdateSelection || event is Scroll,
        told[i] == EffectView::Emit(EventView::Wakeup) ==> event is Clear,
        told[i] matches EffectView::Emit(EventView::Open(_)) ==> (event
            matches InternalEventView::FindHyperlink(_, open) && open && inputs.link is Some),
        told[i] is Emit ==> !(told[i]->Emit_0 is CloseTerminal || told[i]->Emit_0 is Bell
            || told[i]->Emit_0 is TitleChanged || told[i]->Emit_0 is BreadcrumbsChanged
            || told[i]->Emit_0 is BlinkChanged),
{
}

/// Whatever event is carried out: what ran in the terminal, its title, its matches and its settings
/// stay, and so do the grid and its cursor unless the size changes or the terminal is cleared; vi
/// mode is on or off as it was, unless it is switched; and the pty hears of sizes alone.
pub proof fn events_leave_the_rest_alone(
    before: Terminal,
    after: Terminal,
    event: InternalEventView,
    inputs: EventInputs,
    v: TermView,
    w: TermView,
    told: Seq<EffectView>,
)
    requires
        after.carries_out(before, event, inputs, v, w, told),
    ensures
        after.task == before.task,
        after.completion_tx == before.completion_tx,
        after.term_config == before.term_config,
        after.breadcrumb_text == before.breadcrumb_text,
        after.title_override == before.title_override,
        after.matches == before.matches,
        after.pty_info == before.pty_info,
        after.scroll_px == before.scroll_px,
        after.last_mouse == before.last_mouse,
        after.selection_phase == before.selection_phase,
        after.last_content.cells == before.last_content.cells,
        after.last_content.mode == before.last_content.mode,
        !(event is Resize) ==> after.pty_tx == before.pty_tx
            && after.last_content.terminal_bounds == before.last_content.terminal_bounds,
        !(event is ToggleViMode) ==> after.vi_mode_enabled == before.vi_mode_enabled,
        !(event is FindHyperlink) ==> after.next_link_id == before.next_link_id,
        !(event is Resize || event is Clear || event is ViMotion) ==> {
            &&& w.lines == v.lines
            &&& w.history == v.history
            &&& w.cursor == v.cursor
            &&& w.columns == v.columns
            &&& w.screen_lines == v.screen_lines
        },
        !(event is Scroll || event is ScrollToAlacPoint || event is Clear || event is Resize
            || event is ViMotion) ==> w.display_offset == v.display_offset,
        !(event is Copy || event is Scroll || event is ScrollToAlacPoint) ==> after.events
            == before.events,
        event is ViMotion || event is ToggleViMode || event is Resize ==> told.len() == 0,
        event is ViMotion ==> after == before,
        before.queue().is_prefix_of(after.queue()),
        after.queue().len() <= before.queue().len() + 1,
{
    assert(after.queue().take(before.queue().len() as int) =~= before.queue());
}

/// Taking notice of the mouse looks for a link at most once in a while: never while the user
/// selects or with the mouse outside, and then no link is under it any more; else when none was
/// ever looked for, when the mouse has moved, and when more than a hundred whole milliseconds have
/// gone by. The link is looked for where the mouse is, not to be opened.
pub proof fn links_are_looked_for_when_due(before: Terminal, after: Terminal, probe: HoverProbe)
    requires
        after.hovers(before, probe),
    ensures
        before.selection_phase == SelectionPhase::Selecting || !probe.in_bounds ==> {
            &&& after.queue() == before.queue()
            &&& after.last_content.last_hovered_word is None
        },
        before.selection_phase != SelectionPhase::Selecting && probe.in_bounds ==> {
            &&& after.last_content == before.last_content
            &&& if before.last_hyperlink_search_position is None || probe.moved || probe.now
                >= before.last_mouse_move_time + 101_000_000 {
                &&& after.queue().len() == before.queue().len() + 1
                &&& after.queue().last() == InternalEventView::FindHyperlink(probe.offset, false)
                &&& after.queue().drop_last() == before.queue()
                &&& after.last_mouse_move_time == probe.now
                &&& after.last_hyperlink_search_position == Some(probe.position)
            } else {
                after == before
            }
        },
        after.pty_tx == before.pty_tx,
        after.next_link_id == before.next_link_id,
{
    let asked = InternalEventView::FindHyperlink(probe.offset, false);
    assert(before.queue().push(asked).drop_last() =~= before.queue());
}

/// A scroll, and a point scrolled to, take notice of the mouse anew: with the mouse resting over
/// the terminal, long since looked at, the link under it is looked for again.
pub proof fn a_scroll_looks_under_the_mouse(
    before: Terminal,
    after: Terminal,
    event: InternalEventView,
    inputs: EventInputs,
    v: TermView,
    w: TermView,
    told: Seq<EffectView>,
)
    requires
        after.carries_out(before, event, inputs, v, w, told),
        event is Scroll || event is ScrollToAlacPoint,
        before.selection_phase == SelectionPhase::Ended,
        inputs.hover.in_bounds,
        inputs.hover.now >= before.last_mouse_move_time + 101_000_000,
    ensures
        after.queue().len() == before.queue().len() + 1,
        after.queue().last() == InternalEventView::FindHyperlink(inputs.hover.offset, false),
{
}

/// A link that was found where it was to be opened is opened, and that is all that is told; no link
/// is under the mouse then. One that was found where it was not to be opened is under the mouse
/// afterwards, by its text and its cells, and the owner hears where it leads, unless it was there
/// already; and where none was found, none is under the mouse, and the owner hears that.
pub proof fn a_found_link_is_opened_or_pointed_out(
    before: Terminal,
    after: Terminal,
    position: crate::geometry::Point,
    open: bool,
    inputs: EventInputs,
    v: TermView,
    w: TermView,
    told: Seq<EffectView>,
)
    requires
        after.carries_out(
            before,
            InternalEventView::FindHyperlink(position, open),
            inputs,
            v,
            w,
            told,
        ),
    ensures
        w == v,
        inputs.link is None ==> {
            &&& told.len() == 1
            &&& told[0] == EffectView::Emit(EventView::NewNavigationTarget(None))
            &&& after.last_content.last_hovered_word is None
        },
        inputs.link matches Some(link) ==> {
            let target = crate::links::target_of(
                link.text@,
                link.is_url,
                before.spec_working_directory(),
            );
            if open {
                &&& told.len() == 1
                &&& told[0] == EffectView::Emit(EventView::Open(target))
                &&& after.last_content.last_hovered_word is None
                &&& after.next_link_id == before.next_link_id
            } else {
                &&& after.last_content.last_hovered_word is Some
                &&& after.last_content.last_hovered_word->0.word@ == link.text@
                &&& after.last_content.last_hovered_word->0.word_match == link.span
                &&& if before.last_content.last_hovered_word is Some
                    && before.last_content.last_hovered_word->0.word@ == link.text@
                    && before.last_content.last_hovered_word->0.word_match == link.span {
                    &&& told.len() == 0
                    &&& after.last_content.last_hovered_word->0.id
                        == before.last_content.last_hovered_word->0.id
                    &&& after.next_link_id == before.next_link_id
                } else {
                    &&& told.len() == 2
                    &&& told[0] == EffectView::Emit(EventView::NewNavigationTarget(Some(target)))
                    &&& told[1] == EffectView::Notify
                    &&& after.last_content.last_hovered_word->0.id == before.next_link_id
                    &&& after.next_link_id != before.next_link_id
                    &&& before.next_link_id < usize::MAX ==> after.next_link_id
                        == before.next_link_id + 1
                    &&& before.next_link_id == usize::MAX ==> after.next_link_id == 0
                }
            }
        },
{
}

/// The paths found in a terminal here belong to the directory of the process that runs in it.
pub proof fn paths_belong_to_the_process(before: Terminal, text: Seq<char>)
    requires
        !before.is_ssh_terminal,
    ensures
        match before.pty_info.current {
            Some(process) => crate::links::target_of(text, false, before.spec_working_directory())
                == (TargetView::PathLike { maybe_path: text, terminal_dir: Some(process.cwd) }),
            None => before.spec_working_directory() is None,
        },
{
}

/// Every message that carrying out an event sends to the pty is a size.
pub proof fn only_sizes_are_sent(
    before: Terminal,
    after: Terminal,
    event: InternalEventView,
    inputs: EventInputs,
    v: TermView,
    w: TermView,
    told: Seq<EffectView>,
    i: int,
)
    requires
        after.carries_out(before, event, inputs, v, w, told),
        before.pty_tx@.len() <= i < after.pty_tx@.len(),
    ensures
        after.pty_tx@[i] is Resize,
        event is Resize,
{
    assert(after.pty_tx@.len() >= 0);
    if let InternalEventView::Resize(b) = event {
        let sent = MsgView::Resize(b.spec_at_least_one_cell().window_size());
        assert(after.pty_tx@ == before.pty_tx@.push(sent));
    }
}

/// A movement of the cursor of vi mode is the emulator's: it comes to just what that one makes of
/// it, and neither changes the terminal nor is told.
pub proof fn the_emulator_moves_the_vi_cursor(
    before: Terminal,
    after: Terminal,
    motion: ViMotion,
    inputs: EventInputs,
    v: TermView,
    w: TermView,
    told: Seq<EffectView>,
)
    requires
        after.carries_out(before, InternalEventView::ViMotion(motion), inputs, v, w, told),
    ensures
        w == crate::alac::vi_moved(v, motion),
        after == before,
        told.len() == 0,
{
}

} // verus!
