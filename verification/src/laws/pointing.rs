//! What the mouse does to a terminal.
use crate::events::{EffectView, EventView, InternalEventView, MsgView, Position};
use crate::geometry::{Pixels, Point};
use crate::grid::{GridPoint, Scroll, SelectionType, Side, TermView};
use crate::input::Modifiers;
use crate::mouse::{ClipboardItem, MouseButton, TouchPhase, WheelMotion};
use crate::sync::{EventInputs, HoverProbe};
use crate::terminal::{SelectionPhase, Terminal};
use vstd::prelude::*;

verus! {

/// Whether a program that has set these modes has the mouse: it asked for clicks, for drags or for
/// all movements, and shift is not held down.
pub open spec fn program_has_mouse(bits: u32, shift: bool) -> bool {
    !shift && (bits & 8 != 0 || bits & 64 != 0 || bits & 8192 != 0)
}

/// Whether the wheel stands for arrow keys under these modes: on the alternate screen, with
/// alternate scrolling on, unless shift is held down.
pub open spec fn wheel_is_arrows(bits: u32, shift: bool) -> bool {
    !shift && bits & 4096 != 0 && bits & 32768 != 0
}

proof fn mouse_modes(t: Terminal, shift: bool)
    ensures
        t.in_mouse_mode(shift) == program_has_mouse(t.last_content.mode.bits, shift),
        t.sends_arrows(shift) == wheel_is_arrows(t.last_content.mode.bits, shift),
        t.last_content.mode.has(4096) == (t.last_content.mode.bits & 4096 != 0),
{
    let bits = t.last_content.mode.bits;
    assert((bits & (8u32 | 64u32 | 8192u32) != 0) == (bits & 8 != 0 || bits & 64 != 0 || bits & 8192
        != 0)) by (bit_vector);
    assert((bits & (4096u32 | 32768u32) == (4096u32 | 32768u32)) == (bits & 4096 != 0 && bits
        & 32768 != 0)) by (bit_vector);
    assert((bits & 4096 == 4096) == (bits & 4096 != 0)) by (bit_vector);
}

/// A program that has the mouse is sent the report on a button, if there is one, and nothing waits
/// to be done for it: no click selects, copies or opens anything. With shift the mouse is the
/// terminal's own, and no button is reported.
pub proof fn buttons_go_to_the_program_that_has_the_mouse(
    before: Terminal,
    pressed: Terminal,
    released: Terminal,
    button: MouseButton,
    modifiers: Modifiers,
    click_count: int,
    copy_on_select: bool,
    row: int,
    col: int,
    position: Point,
    hit: (GridPoint, Side),
    report: Option<Vec<u8>>,
    primary: Option<ClipboardItem>,
)
    requires
        pressed.presses(
            before,
            button,
            modifiers,
            click_count,
            position,
            hit,
            report,
            primary,
        ),
        released.releases(
            before,
            button,
            modifiers,
            copy_on_select,
            row,
            col,
            position,
            report,
        ),
    ensures
        program_has_mouse(before.last_content.mode.bits, modifiers.shift) ==> {
            &&& pressed.events == before.events
            &&& released.events == before.events
            &&& before.release_told(modifiers, row, col).len() == 0
            &&& match report {
                Some(bytes) => {
                    &&& pressed.pty_tx@ == before.pty_tx@.push(MsgView::Input(bytes@))
                    &&& released.pty_tx@ == before.pty_tx@.push(MsgView::Input(bytes@))
                },
                None => pressed.pty_tx@ == before.pty_tx@ && released.pty_tx@ == before.pty_tx@,
            }
        },
        !program_has_mouse(before.last_content.mode.bits, modifiers.shift) ==> {
            &&& button != MouseButton::Middle ==> pressed.pty_tx == before.pty_tx
            &&& released.pty_tx == before.pty_tx
        },
        released.selection_phase == SelectionPhase::Ended,
        released.last_mouse is None,
        pressed.selection_phase == before.selection_phase,
        pressed.last_content == before.last_content,
        released.last_content == before.last_content,
{
    mouse_modes(before, modifiers.shift);
    if let Some(bytes) = report {
        assert(before.pty_tx@ + seq![MsgView::Input(bytes@)] =~= before.pty_tx@.push(
            MsgView::Input(bytes@),
        ));
    } else {
        assert(before.pty_tx@ + Seq::<MsgView>::empty() =~= before.pty_tx@);
    }
}

/// The left button selects at the cell and side it was pressed on: one click an empty run of cells
/// that begins and ends there, two clicks the word, three the line; the head is that cell. One
/// click with shift takes the end of the selection to the mouse. More clicks do nothing.
pub proof fn the_left_button_selects(
    before: Terminal,
    after: Terminal,
    modifiers: Modifiers,
    click_count: int,
    position: Point,
    hit: (GridPoint, Side),
    report: Option<Vec<u8>>,
    primary: Option<ClipboardItem>,
)
    requires
        !program_has_mouse(before.last_content.mode.bits, modifiers.shift),
        after.presses(
            before,
            MouseButton::Left,
            modifiers,
            click_count,
            position,
            hit,
            report,
            primary,
        ),
    ensures
        (Terminal { events: before.events, ..after }) == before,
        click_count < 1 || click_count > 3 ==> after.queue() == before.queue(),
        1 <= click_count <= 3 ==> {
            &&& after.queue().len() == before.queue().len() + 1
            &&& after.queue().drop_last() == before.queue()
        },
        click_count == 1 && modifiers.shift ==> after.queue().last()
            == InternalEventView::UpdateSelection(Position::Mouse(position)),
        (click_count == 1 && !modifiers.shift) || click_count == 2 || click_count == 3 ==> {
            &&& after.queue().last() matches InternalEventView::SetSelection(Some((s, head)))
            &&& head == hit.0
            &&& s.start == s.end
            &&& s.start.point == hit.0
            &&& s.start.side == hit.1
            &&& click_count == 1 <==> s.ty == SelectionType::Simple
            &&& click_count == 2 <==> s.ty == SelectionType::Semantic
            &&& click_count == 3 <==> s.ty == SelectionType::Lines
        },
{
    mouse_modes(before, modifiers.shift);
    let events = Terminal::click_events(modifiers.shift, click_count, position, hit);
    if events.len() == 0 {
        assert(before.queue() + events =~= before.queue());
    } else {
        assert((before.queue() + events).drop_last() =~= before.queue());
    }
}

/// The middle button types the text of the primary selection, where there is one; the other buttons
/// do nothing when pressed.
pub proof fn the_middle_button_types(
    before: Terminal,
    after: Terminal,
    button: MouseButton,
    modifiers: Modifiers,
    click_count: int,
    position: Point,
    hit: (GridPoint, Side),
    report: Option<Vec<u8>>,
    primary: Option<ClipboardItem>,
)
    requires
        !program_has_mouse(before.last_content.mode.bits, modifiers.shift),
        button != MouseButton::Left,
        after.presses(
            before,
            button,
            modifiers,
            click_count,
            position,
            hit,
            report,
            primary,
        ),
    ensures
        button == MouseButton::Middle && primary is Some ==> {
            &&& after.pty_tx@.len() == before.pty_tx@.len() + 1
            &&& primary->0.text matches Some(text) ==> after.pty_tx@.last() == MsgView::Input(
                vstd::utf8::encode_utf8(text@),
            )
            &&& primary->0.text is None ==> after.pty_tx@.last() == MsgView::Input(Seq::empty())
            &&& after.queue().len() == before.queue().len() + 2
        },
        button != MouseButton::Middle || primary is None ==> after == before,
{
    mouse_modes(before, modifiers.shift);
}

/// A drag takes the end of the selection to the mouse, and marks the user as selecting. Beyond the
/// edge the terminal scrolls the way the mouse went, a line for each line beyond and three at most,
/// but never on the alternate screen. A program that has the mouse is left to it.
pub proof fn a_drag_selects_and_scrolls(
    before: Terminal,
    after: Terminal,
    modifiers: Modifiers,
    position: Point,
    lines: Option<i32>,
)
    requires
        after.drags(before, modifiers, position, lines),
    ensures
        program_has_mouse(before.last_content.mode.bits, modifiers.shift) ==> {
            &&& after == before
            &&& before.drag_told(modifiers, lines).len() == 0
        },
        !program_has_mouse(before.last_content.mode.bits, modifiers.shift) ==> {
            let n = before.queue().len() as int;
            let alternate = before.last_content.mode.bits & 4096 != 0;
            &&& after.selection_phase == SelectionPhase::Selecting
            &&& (Terminal {
                events: before.events,
                selection_phase: before.selection_phase,
                ..after
            }) == before
            &&& before.queue().is_prefix_of(after.queue())
            &&& after.queue().len() > n
            &&& after.queue()[n] == InternalEventView::UpdateSelection(Position::Mouse(position))
            &&& lines is None || alternate ==> after.queue().len() == n + 1
            &&& lines is Some && !alternate ==> {
                &&& after.queue().len() == n + 2
                &&& after.queue()[n + 1] matches InternalEventView::Scroll(Scroll::Delta(d))
                &&& -3 <= d <= 3
                &&& -3 <= lines->0 <= 3 ==> d == lines->0
                &&& lines->0 > 3 ==> d == 3
                &&& lines->0 < -3 ==> d == -3
            }
            &&& lines is None && !alternate ==> before.drag_told(modifiers, lines).len() == 0
            &&& lines is Some || alternate ==> before.drag_told(modifiers, lines) == seq![
                EffectView::Notify,
            ]
        },
{
    mouse_modes(before, modifiers.shift);
    let events = before.drag_events(position, lines);
    assert((before.queue() + events).take(before.queue().len() as int) =~= before.queue());
}

/// Pressed on one cell and dragged to another, the left button selects from the one to the other.
pub proof fn a_drag_selects_from_where_it_began(
    before: Terminal,
    pressed: Terminal,
    chosen: Terminal,
    dragged: Terminal,
    after: Terminal,
    modifiers: Modifiers,
    click_count: int,
    position: Point,
    hit: (GridPoint, Side),
    report: Option<Vec<u8>>,
    primary: Option<ClipboardItem>,
    lines: Option<i32>,
    inputs: EventInputs,
    v: TermView,
    w: TermView,
    x: TermView,
    told: Seq<EffectView>,
    told_then: Seq<EffectView>,
)
    requires
        !program_has_mouse(before.last_content.mode.bits, false),
        !modifiers.shift,
        1 <= click_count <= 3,
        pressed.presses(
            before,
            MouseButton::Left,
            modifiers,
            click_count,
            position,
            hit,
            report,
            primary,
        ),
        chosen.carries_out(pressed, pressed.queue().last(), inputs, v, w, told),
        dragged.drags(chosen, modifiers, position, lines),
        after.carries_out(
            dragged,
            dragged.queue()[chosen.queue().len() as int],
            inputs,
            w,
            x,
            told_then,
        ),
    ensures
        x.selection is Some,
        x.selection->0.start.point == hit.0,
        x.selection->0.start.side == hit.1,
        x.selection->0.end.point == inputs.hit.0,
        x.selection->0.end.side == inputs.hit.1,
        after.selection_head == Some(inputs.hit.0),
        x.lines == v.lines,
{
    the_left_button_selects(
        before,
        pressed,
        modifiers,
        click_count,
        position,
        hit,
        report,
        primary,
    );
    mouse_modes(before, modifiers.shift);
    mouse_modes(chosen, modifiers.shift);
    a_drag_selects_and_scrolls(chosen, dragged, modifiers, position, lines);
}

/// A button that goes up copies what was selected, and keeps it selected, exactly when it is the
/// left one and that is wanted.
pub proof fn a_released_button_copies_when_wanted(
    before: Terminal,
    after: Terminal,
    button: MouseButton,
    modifiers: Modifiers,
    copy_on_select: bool,
    row: int,
    col: int,
    position: Point,
    report: Option<Vec<u8>>,
)
    requires
        !program_has_mouse(before.last_content.mode.bits, modifiers.shift),
        after.releases(
            before,
            button,
            modifiers,
            copy_on_select,
            row,
            col,
            position,
            report,
        ),
    ensures
        before.queue().is_prefix_of(after.queue()),
        button == MouseButton::Left && copy_on_select ==> after.queue().len() > before.queue().len()
            && after.queue()[before.queue().len() as int] == InternalEventView::Copy(Some(true)),
        !(button == MouseButton::Left && copy_on_select) ==> forall|i: int|
            before.queue().len() <= i < after.queue().len() ==> !((
            #[trigger] after.queue()[i]) is Copy),
        after.queue().len() <= before.queue().len() + 2,
{
    mouse_modes(before, modifiers.shift);
    let events = before.release_events(button, modifiers, copy_on_select, row, col, position);
    assert((before.queue() + events).take(before.queue().len() as int) =~= before.queue());
}

/// A button released with the key for following links held down, over a cell without a hyperlink
/// and with nothing being selected, opens the link that is found there: that is what carrying out
/// the last of what then waits tells, and all it tells. Where none is found there, nothing is
/// opened.
pub proof fn a_release_opens_the_link_under_it(
    before: Terminal,
    released: Terminal,
    after: Terminal,
    button: MouseButton,
    modifiers: Modifiers,
    copy_on_select: bool,
    row: int,
    col: int,
    position: Point,
    report: Option<Vec<u8>>,
    inputs: EventInputs,
    v: TermView,
    w: TermView,
    told: Seq<EffectView>,
)
    requires
        !program_has_mouse(before.last_content.mode.bits, modifiers.shift),
        before.selection_phase == SelectionPhase::Ended,
        before.link_under_mouse(row, col) is None,
        modifiers.secondary,
        released.releases(
            before,
            button,
            modifiers,
            copy_on_select,
            row,
            col,
            position,
            report,
        ),
        after.carries_out(released, released.queue().last(), inputs, v, w, told),
    ensures
        released.queue().len() > before.queue().len(),
        released.queue().last() is FindHyperlink,
        released.queue().last()->FindHyperlink_0 == position,
        before.release_told(modifiers, row, col).len() == 0,
        told.len() == 1,
        inputs.link matches Some(link) ==> told[0] == EffectView::Emit(
            EventView::Open(
                crate::links::target_of(
                    link.text@,
                    link.is_url,
                    before.spec_working_directory(),
                ),
            ),
        ),
        inputs.link is None ==> !(told[0] is Emit && told[0]->Emit_0 is Open),
{
    mouse_modes(before, modifiers.shift);
}

/// A button released over a hyperlink opens its address at once, with or without the key for
/// following links, and looks for no other link; but not where the user was selecting. Without that
/// key and without a hyperlink no link is looked for.
pub proof fn a_release_opens_a_hyperlink(
    before: Terminal,
    after: Terminal,
    button: MouseButton,
    modifiers: Modifiers,
    copy_on_select: bool,
    row: int,
    col: int,
    position: Point,
    report: Option<Vec<u8>>,
)
    requires
        !program_has_mouse(before.last_content.mode.bits, modifiers.shift),
        after.releases(
            before,
            button,
            modifiers,
            copy_on_select,
            row,
            col,
            position,
            report,
        ),
    ensures
        ({
            let told = before.release_told(modifiers, row, col);
            let link = before.link_under_mouse(row, col);
            &&& before.selection_phase == SelectionPhase::Ended && link is Some ==> told == seq![
                EffectView::OpenUrl(link->0),
            ]
            &&& before.selection_phase == SelectionPhase::Selecting || link is None ==> told.len()
                == 0
            &&& before.selection_phase == SelectionPhase::Selecting || link is Some
                || !modifiers.secondary ==> forall|i: int|
                before.queue().len() <= i < after.queue().len() ==> !((
                #[trigger] after.queue()[i]) is FindHyperlink)
        }),
{
    mouse_modes(before, modifiers.shift);
}

/// The hyperlink under the mouse is that of the cell in its row and column; a mouse beyond the last
/// row or column is over the last one.
pub proof fn the_hyperlink_is_that_of_the_cell(t: Terminal, row: int, col: int)
    requires
        t.shows_cell(row, col),
        row >= 0,
        col >= 0,
    ensures
        ({
            let lines = t.last_content.terminal_bounds.lines as int;
            let columns = t.last_content.terminal_bounds.columns as int;
            let r = if row < lines {
                row
            } else {
                lines - 1
            };
            let c = if col < columns {
                col
            } else {
                columns - 1
            };
            &&& r * columns + c < t.last_content.cells@.len()
            &&& t.link_under_mouse(row, col) == crate::alac::cell_view(
                t.last_content.cells@[r * columns + c].cell,
            ).link
        }),
{
}

/// Whatever the number of lines, and whichever way, a wheel that is turned scrolls the display by
/// just that much once what it left waiting is carried out, as far as the scrollback goes. This
/// where neither the program has the mouse nor the wheel stands for arrow keys; nothing is sent
/// then.
pub proof fn the_wheel_scrolls_both_ways(
    before: Terminal,
    turned: Terminal,
    after: Terminal,
    motion: WheelMotion,
    shift: bool,
    reports: Option<Vec<Vec<u8>>>,
    arrows: Vec<u8>,
    inputs: EventInputs,
    v: TermView,
    w: TermView,
    told: Seq<EffectView>,
)
    requires
        v.sized(),
        !program_has_mouse(before.last_content.mode.bits, shift),
        !wheel_is_arrows(before.last_content.mode.bits, shift),
        i32::MIN <= motion.new_offset - motion.old_offset <= i32::MAX,
        turned.wheel_moves(before, motion, shift, reports, arrows),
        motion.new_offset != motion.old_offset,
        after.carries_out(turned, turned.queue().last(), inputs, v, w, told),
    ensures
        turned.pty_tx == before.pty_tx,
        turned.scroll_px == motion.scroll_px,
        turned.queue().len() == before.queue().len() + 1,
        turned.queue().drop_last() == before.queue(),
        ({
            let lines = motion.new_offset - motion.old_offset;
            &&& turned.queue().last() matches InternalEventView::Scroll(Scroll::Delta(n)) && n
                == lines
            &&& 0 <= v.display_offset + lines <= v.history ==> w.display_offset == v.display_offset
                + lines
            &&& v.display_offset + lines < 0 ==> w.display_offset == 0
            &&& v.display_offset + lines > v.history ==> w.display_offset == v.history
        }),
{
    mouse_modes(before, shift);
    let lines = (motion.new_offset - motion.old_offset) as i32;
    let events = seq![InternalEventView::Scroll(Scroll::Delta(lines))];
    assert((before.queue() + events).drop_last() =~= before.queue());
}

/// The wheel turned by some lines and then by as many the other way leaves the display where it
/// was, away from the ends of the scrollback.
pub proof fn the_wheel_turned_back_and_forth(
    before: Terminal,
    turned: Terminal,
    middle: Terminal,
    turned_back: Terminal,
    after: Terminal,
    motion: WheelMotion,
    back: WheelMotion,
    shift: bool,
    reports: Option<Vec<Vec<u8>>>,
    arrows: Vec<u8>,
    inputs: EventInputs,
    v: TermView,
    w: TermView,
    x: TermView,
    told: Seq<EffectView>,
    told_back: Seq<EffectView>,
)
    requires
        v.sized(),
        !program_has_mouse(before.last_content.mode.bits, shift),
        !wheel_is_arrows(before.last_content.mode.bits, shift),
        i32::MIN < motion.new_offset - motion.old_offset <= i32::MAX,
        motion.new_offset != motion.old_offset,
        back.new_offset - back.old_offset == motion.old_offset - motion.new_offset,
        0 <= v.display_offset + motion.new_offset - motion.old_offset <= v.history,
        turned.wheel_moves(before, motion, shift, reports, arrows),
        middle.carries_out(turned, turned.queue().last(), inputs, v, w, told),
        turned_back.wheel_moves(middle, back, shift, reports, arrows),
        after.carries_out(turned_back, turned_back.queue().last(), inputs, w, x, told_back),
    ensures
        x.display_offset == v.display_offset,
{
    the_wheel_scrolls_both_ways(
        before,
        turned,
        middle,
        motion,
        shift,
        reports,
        arrows,
        inputs,
        v,
        w,
        told,
    );
    mouse_modes(before, shift);
    mouse_modes(middle, shift);
    the_wheel_scrolls_both_ways(
        middle,
        turned_back,
        after,
        back,
        shift,
        reports,
        arrows,
        inputs,
        w,
        x,
        told_back,
    );
}

/// A wheel that has moved by no whole line leaves nothing waiting. A program that has the mouse is
/// sent each of the reports, in order, and else one on the alternate screen the arrow keys, where
/// that is on; then nothing scrolls. What is left over of the movement is kept in any case.
pub proof fn the_wheel_is_told_to_programs(
    before: Terminal,
    after: Terminal,
    motion: WheelMotion,
    shift: bool,
    reports: Option<Vec<Vec<u8>>>,
    arrows: Vec<u8>,
)
    requires
        i32::MIN <= motion.new_offset - motion.old_offset <= i32::MAX,
        after.wheel_moves(before, motion, shift, reports, arrows),
    ensures
        after.scroll_px == motion.scroll_px,
        ({
            let bits = before.last_content.mode.bits;
            let n = before.pty_tx@.len() as int;
            &&& program_has_mouse(bits, shift) ==> {
                &&& after.events == before.events
                &&& before.pty_tx@.is_prefix_of(after.pty_tx@)
                &&& match reports {
                    Some(all) => {
                        &&& after.pty_tx@.len() == n + all@.len()
                        &&& forall|i: int|
                            0 <= i < all@.len() ==> after.pty_tx@[n + i] == MsgView::Input(
                                (#[trigger] all@[i])@,
                            )
                    },
                    None => after.pty_tx@.len() == n,
                }
            }
            &&& !program_has_mouse(bits, shift) && wheel_is_arrows(bits, shift) ==> {
                &&& after.events == before.events
                &&& after.pty_tx@ == before.pty_tx@.push(MsgView::Input(arrows@))
            }
            &&& !program_has_mouse(bits, shift) && !wheel_is_arrows(bits, shift)
                && motion.new_offset == motion.old_offset ==> after.events == before.events
                && after.pty_tx == before.pty_tx
        }),
{
    mouse_modes(before, shift);
    if before.in_mouse_mode(shift) {
        assert(after.pty_tx@.take(before.pty_tx@.len() as int) =~= before.pty_tx@);
        if let Some(all) = reports {
            assert forall|i: int| 0 <= i < all@.len() implies after.pty_tx@[before.pty_tx@.len()
                + i] == MsgView::Input((#[trigger] all@[i])@) by {
                assert(crate::mouse::all_reported(all@)[i] == MsgView::Input(all@[i]@));
            }
        }
    } else if before.sends_arrows(shift) {
        assert(after.pty_tx@ =~= before.pty_tx@.push(MsgView::Input(arrows@)));
    }
}

/// A movement of the wheel that starts forgets what was left over, one that ends changes nothing,
/// and in between a program is sent what there is to send for just the lines that the wheel has
/// moved by, neither more nor fewer, and neither the other way.
pub proof fn the_wheel_is_told_by_its_lines<
    R: FnOnce(i32) -> Option<Vec<Vec<u8>>>,
    A: FnOnce(i32) -> Vec<u8>,
>(
    before: Terminal,
    after: Terminal,
    phase: TouchPhase,
    motion: WheelMotion,
    shift: bool,
    scroll_report: R,
    alt_scroll: A,
    lines: i32,
)
    requires
        after.turns_wheel(before, phase, motion, shift, scroll_report, alt_scroll),
        motion.old_offset + lines == motion.new_offset,
    ensures
        phase == TouchPhase::Started ==> after.scroll_px == (Pixels { bits: 0, whole: 0 })
            && (Terminal { scroll_px: before.scroll_px, ..after }) == before,
        phase == TouchPhase::Ended ==> after == before,
        phase == TouchPhase::Moved && program_has_mouse(before.last_content.mode.bits, shift)
            ==> exists|reports: Option<Vec<Vec<u8>>>, arrows: Vec<u8>| #[trigger]
            after.wheel_moves(before, motion, shift, reports, arrows) && call_ensures(
                scroll_report,
                (lines,),
                reports,
            ),
        phase == TouchPhase::Moved && !program_has_mouse(before.last_content.mode.bits, shift)
            && wheel_is_arrows(before.last_content.mode.bits, shift) ==> exists|
            reports: Option<Vec<Vec<u8>>>,
            arrows: Vec<u8>,
        | #[trigger]
            after.wheel_moves(before, motion, shift, reports, arrows) && call_ensures(
                alt_scroll,
                (lines,),
                arrows,
            ),
        phase == TouchPhase::Moved ==> exists|reports: Option<Vec<Vec<u8>>>, arrows: Vec<u8>|
            #[trigger] after.wheel_moves(before, motion, shift, reports, arrows),
{
    mouse_modes(before, shift);
}

/// Selecting the word at a cell selects by words, from and to that cell, which is the head.
pub proof fn a_word_is_selected_where_asked(
    before: Terminal,
    after: Terminal,
    hit: (GridPoint, Side),
)
    requires
        after.selects_word(before, hit),
    ensures
        (Terminal { events: before.events, ..after }) == before,
        after.queue().len() == before.queue().len() + 1,
        after.queue().last() matches InternalEventView::SetSelection(Some((s, head))) && {
            &&& head == hit.0
            &&& s.ty == SelectionType::Semantic
            &&& s.start == s.end
            &&& s.start.point == hit.0
            &&& s.start.side == hit.1
        },
{
}

/// A mouse that moves is reported to a program that has it, once for each cell and side; else it
/// looks for links with the key for following them, and without that key it does nothing.
pub proof fn a_moving_mouse_is_reported_or_looks(
    before: Terminal,
    after: Terminal,
    modifiers: Modifiers,
    hit: (GridPoint, Side),
    report: Option<Vec<u8>>,
    probe: HoverProbe,
    told: Seq<EffectView>,
)
    requires
        after.follows_mouse(before, modifiers, hit, report, probe, told),
    ensures
        told == seq![EffectView::Notify],
        ({
            let bits = before.last_content.mode.bits;
            &&& program_has_mouse(bits, modifiers.shift) ==> {
                &&& after.events == before.events
                &&& after.last_mouse == Some(hit)
                &&& before.last_mouse == Some(hit) || report is None ==> after.pty_tx@
                    == before.pty_tx@
                &&& before.last_mouse != Some(hit) && report is Some ==> after.pty_tx@
                    == before.pty_tx@.push(MsgView::Input((report->0)@))
            }
            &&& !program_has_mouse(bits, modifiers.shift) ==> {
                &&& after.pty_tx == before.pty_tx
                &&& after.last_mouse == before.last_mouse
                &&& !modifiers.secondary ==> after == before
                &&& modifiers.secondary && probe.in_bounds && probe.moved
                    && before.selection_phase == SelectionPhase::Ended ==> after.queue()
                    == before.queue().push(InternalEventView::FindHyperlink(probe.offset, false))
            }
        }),
{
    mouse_modes(before, modifiers.shift);
    if let Some(bytes) = report {
        assert(before.pty_tx@ + seq![MsgView::Input(bytes@)] =~= before.pty_tx@.push(
            MsgView::Input(bytes@),
        ));
    }
    assert(before.pty_tx@ + Seq::<MsgView>::empty() =~= before.pty_tx@);
}

/// A terminal that shows as many cells as its bounds hold has one for the mouse, wherever that is.
pub proof fn there_is_a_cell_for_the_mouse(t: Terminal, row: int, col: int)
    requires
        row >= 0,
        col >= 0,
        t.last_content.terminal_bounds.lines >= 1,
        t.last_content.terminal_bounds.columns >= 1,
        t.last_content.terminal_bounds.lines * t.last_content.terminal_bounds.columns <= usize::MAX,
        t.last_content.cells@.len() == t.last_content.terminal_bounds.lines
            * t.last_content.terminal_bounds.columns,
    ensures
        t.shows_cell(row, col),
{
    crate::geometry::content_index_stays_inside(
        row,
        col,
        t.last_content.terminal_bounds.lines as int,
        t.last_content.terminal_bounds.columns as int,
    );
}

} // verus!
