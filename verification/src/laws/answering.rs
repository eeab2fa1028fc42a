//! What the terminal makes of what its emulator tells, and which colours it answers with.
use crate::batch::{Arrival, EventBatch, Pump, PumpAction};
use crate::color::{indexed_color, Color, Rgba, Theme};
use crate::events::{EffectView, EventView, MsgView, TermEventView};
use crate::grid::{Rgb, TermView};
use crate::process::{is_answer, Circumstances};
use crate::terminal::Terminal;
use alacritty_terminal::event::Event as AlacTermEvent;
use vstd::prelude::*;

verus! {

/// A program is sent one text for what it asks (the clipboard, the size, a colour) and for what the
/// emulator has to answer, and nothing for anything else.
pub proof fn a_program_is_sent_what_it_asked_for(
    before: Terminal,
    after: Terminal,
    event: AlacTermEvent,
    circumstances: Circumstances,
    color: Rgb,
    v: TermView,
    w: TermView,
    told: Seq<EffectView>,
)
    requires
        after.takes_up(before, event, circumstances, color, v, w, told),
    ensures
        match crate::alac::told_by(event) {
            TermEventView::ClipboardLoad => {
                let text = match circumstances.clipboard {
                    Some(text) => text@,
                    None => Seq::<char>::empty(),
                };
                after.pty_tx@ == before.pty_tx@.push(
                    MsgView::Input(
                        vstd::utf8::encode_utf8(crate::alac::clipboard_reply(event, text)),
                    ),
                )
            },
            TermEventView::PtyWrite(text) => after.pty_tx@ == before.pty_tx@.push(
                MsgView::Input(vstd::utf8::encode_utf8(text)),
            ),
            TermEventView::TextAreaSizeRequest => after.pty_tx@ == before.pty_tx@.push(
                MsgView::Input(
                    vstd::utf8::encode_utf8(
                        crate::alac::size_reply(
                            event,
                            before.last_content.terminal_bounds.window_size(),
                        ),
                    ),
                ),
            ),
            TermEventView::ColorRequest(_) => after.pty_tx@ == before.pty_tx@.push(
                MsgView::Input(vstd::utf8::encode_utf8(crate::alac::color_reply(event, color))),
            ),
            _ => after.pty_tx == before.pty_tx,
        },
{
    if after.pty_tx@.len() > before.pty_tx@.len() {
        assert(after.pty_tx@ =~= before.pty_tx@.push(after.pty_tx@.last()));
    }
}

/// Only the end of what runs in the terminal writes to the emulator, reaches those who wait for it
/// or changes the task; what else the emulator tells leaves all that alone, and what waits to be
/// done and what is shown stay as they are whatever is told.
pub proof fn only_ends_end_anything(
    before: Terminal,
    after: Terminal,
    event: AlacTermEvent,
    circumstances: Circumstances,
    color: Rgb,
    v: TermView,
    w: TermView,
    told: Seq<EffectView>,
)
    requires
        after.takes_up(before, event, circumstances, color, v, w, told),
    ensures
        after.events == before.events,
        after.last_content == before.last_content,
        after.matches == before.matches,
        after.selection_head == before.selection_head,
        after.selection_phase == before.selection_phase,
        after.vi_mode_enabled == before.vi_mode_enabled,
        after.title_override == before.title_override,
        after.pty_info == before.pty_info,
        !(crate::alac::told_by(event) is Exit) && !(crate::alac::told_by(event) is ChildExit) ==> {
            &&& w == v
            &&& after.completion_tx == before.completion_tx
            &&& after.task == before.task
        },
        crate::alac::told_by(event) is Exit ==> after.completion_tx@ == before.completion_tx@.push(
            None,
        ),
        crate::alac::told_by(event) matches TermEventView::ChildExit(code) ==> after.completion_tx@
            == before.completion_tx@.push(Some(code)),
{
}

/// A title that a program sets is shown, but for the one that the system sends for the shell, and a
/// title that is reset is gone; the owner is told of each change. Nothing else changes what is
/// shown there.
pub proof fn titles_are_shown_until_reset(
    before: Terminal,
    after: Terminal,
    event: AlacTermEvent,
    circumstances: Circumstances,
    color: Rgb,
    v: TermView,
    w: TermView,
    told: Seq<EffectView>,
)
    requires
        after.takes_up(before, event, circumstances, color, v, w, told),
    ensures
        crate::alac::told_by(event) is ResetTitle ==> after.breadcrumb_text@.len() == 0,
        crate::alac::told_by(event) matches TermEventView::Title(title) ==> {
            let of_shell = before.shell_program is Some && before.shell_program->0@ == title;
            &&& of_shell ==> after == before && told.len() == 0
            &&& !of_shell ==> after.breadcrumb_text@ == title
            &&& !of_shell ==> told.len() == 1
        },
        crate::alac::told_by(event) is ResetTitle || (crate::alac::told_by(event) is Title
            && told.len() > 0) ==> told == seq![EffectView::Emit(EventView::BreadcrumbsChanged)],
        !(crate::alac::told_by(event) is ResetTitle) && !(crate::alac::told_by(event) is Title)
            ==> after.breadcrumb_text == before.breadcrumb_text,
{
}

/// What the emulator tells is passed on: text for the clipboard is put there, the bell rings, a
/// changed blinking is told as it is now, and something new to show wakes the owner up, who is also
/// told of a new title where another process is in the foreground. What the program is sent, and
/// what the mouse pointer looks like, is not told.
pub proof fn the_owner_is_told(
    before: Terminal,
    after: Terminal,
    event: AlacTermEvent,
    circumstances: Circumstances,
    color: Rgb,
    v: TermView,
    w: TermView,
    told: Seq<EffectView>,
)
    requires
        after.takes_up(before, event, circumstances, color, v, w, told),
    ensures
        crate::alac::told_by(event) matches TermEventView::ClipboardStore(text) ==> told.len() == 1
            && told[0] == EffectView::WriteToClipboard(text),
        crate::alac::told_by(event) is Bell ==> told.len() == 1 && told[0] == EffectView::Emit(
            EventView::Bell,
        ),
        crate::alac::told_by(event) is CursorBlinkingChange ==> told.len() == 1 && told[0]
            == EffectView::Emit(
            EventView::BlinkChanged(crate::alac::style_of_cursor(v).blinking),
        ),
        crate::alac::told_by(event) is Wakeup ==> {
            &&& told.len() > 0
            &&& told[0] == EffectView::Emit(EventView::Wakeup)
            &&& circumstances.process_changed ==> told.len() == 2 && told[1] == EffectView::Emit(
                EventView::TitleChanged,
            )
            &&& !circumstances.process_changed ==> told.len() == 1
        },
        match crate::alac::told_by(event) {
            TermEventView::ClipboardLoad => told.len() == 0,
            TermEventView::PtyWrite(_) => told.len() == 0,
            TermEventView::TextAreaSizeRequest => told.len() == 0,
            TermEventView::ColorRequest(_) => told.len() == 0,
            TermEventView::MouseCursorDirty => told.len() == 0,
            _ => true,
        },
        match crate::alac::told_by(event) {
            TermEventView::ClipboardStore(_) => after == before,
            TermEventView::Bell => after == before,
            TermEventView::CursorBlinkingChange => after == before,
            TermEventView::Wakeup => after == before,
            TermEventView::MouseCursorDirty => after == before,
            _ => true,
        },
{
}

/// Refused is only the end of a task that shows lines the emulator cannot take, a size in pixels
/// beyond 16 bits, and a colour that there is none of.
pub proof fn little_is_refused(t: Terminal, event: AlacTermEvent, v: TermView)
    ensures
        match crate::alac::told_by(event) {
            TermEventView::Exit => t.task is None || !(t.task->0.show_summary
                || t.task->0.show_command) ==> t.event_can_be_taken(event, v),
            TermEventView::ChildExit(_) => t.task is None || !(t.task->0.show_summary
                || t.task->0.show_command) ==> t.event_can_be_taken(event, v),
            TermEventView::TextAreaSizeRequest => {
                let size = t.last_content.terminal_bounds.window_size();
                t.event_can_be_taken(event, v) <==> size.num_lines * size.cell_height < 65536
                    && size.num_cols * size.cell_width < 65536
            },
            TermEventView::ColorRequest(index) => t.event_can_be_taken(event, v) <==> index < 269,
            _ => t.event_can_be_taken(event, v),
        },
{
}

/// A colour that a program has set is what it is answered with, whatever the theme has.
pub proof fn set_colours_win<F: Fn(Color) -> Rgb>(
    set: Option<Rgb>,
    own: Color,
    other: Color,
    to_alac_rgb: F,
    answer: Rgb,
)
    requires
        is_answer(set, own, to_alac_rgb, answer),
    ensures
        set is Some ==> answer == set->0 && is_answer(set, other, to_alac_rgb, answer),
        set is None ==> call_ensures(to_alac_rgb, (own,), answer),
{
}

/// The first eight colours are the plain ones of the theme, the next eight the bright ones, in the
/// same order; and eight behind the 256 are the dim ones, in that order again.
pub proof fn named_colours_come_in_order(theme: Theme)
    ensures
        indexed_color(0, theme) == Color::Themed(theme.terminal_ansi_black),
        indexed_color(1, theme) == Color::Themed(theme.terminal_ansi_red),
        indexed_color(2, theme) == Color::Themed(theme.terminal_ansi_green),
        indexed_color(3, theme) == Color::Themed(theme.terminal_ansi_yellow),
        indexed_color(4, theme) == Color::Themed(theme.terminal_ansi_blue),
        indexed_color(5, theme) == Color::Themed(theme.terminal_ansi_magenta),
        indexed_color(6, theme) == Color::Themed(theme.terminal_ansi_cyan),
        indexed_color(7, theme) == Color::Themed(theme.terminal_ansi_white),
        indexed_color(8, theme) == Color::Themed(theme.terminal_ansi_bright_black),
        indexed_color(9, theme) == Color::Themed(theme.terminal_ansi_bright_red),
        indexed_color(10, theme) == Color::Themed(theme.terminal_ansi_bright_green),
        indexed_color(11, theme) == Color::Themed(theme.terminal_ansi_bright_yellow),
        indexed_color(12, theme) == Color::Themed(theme.terminal_ansi_bright_blue),
        indexed_color(13, theme) == Color::Themed(theme.terminal_ansi_bright_magenta),
        indexed_color(14, theme) == Color::Themed(theme.terminal_ansi_bright_cyan),
        indexed_color(15, theme) == Color::Themed(theme.terminal_ansi_bright_white),
        indexed_color(256, theme) == Color::Themed(theme.terminal_foreground),
        indexed_color(257, theme) == Color::Themed(theme.terminal_background),
        indexed_color(258, theme) == Color::Themed(theme.cursor),
        indexed_color(259, theme) == Color::Themed(theme.terminal_ansi_dim_black),
        indexed_color(260, theme) == Color::Themed(theme.terminal_ansi_dim_red),
        indexed_color(261, theme) == Color::Themed(theme.terminal_ansi_dim_green),
        indexed_color(262, theme) == Color::Themed(theme.terminal_ansi_dim_yellow),
        indexed_color(263, theme) == Color::Themed(theme.terminal_ansi_dim_blue),
        indexed_color(264, theme) == Color::Themed(theme.terminal_ansi_dim_magenta),
        indexed_color(265, theme) == Color::Themed(theme.terminal_ansi_dim_cyan),
        indexed_color(266, theme) == Color::Themed(theme.terminal_ansi_dim_white),
        indexed_color(267, theme) == Color::Themed(theme.terminal_bright_foreground),
        indexed_color(268, theme) == Color::Themed(theme.terminal_ansi_black),
{
}

/// In the colour cube red, green and blue each go up in six steps, the first of which is none and
/// the others 95 to 255 by 40; red takes the longest strides through the indices and blue the
/// shortest. All its colours, and the greys, are opaque and the same under any theme. The greys go
/// up by 10 from 8. Past the last colour there is but black.
pub proof fn fixed_colours_are_laid_out(
    theme: Theme,
    other: Theme,
    r: int,
    g: int,
    b: int,
    grey: int,
    beyond: int,
)
    requires
        0 <= r < 6,
        0 <= g < 6,
        0 <= b < 6,
        0 <= grey < 24,
        beyond >= 269,
    ensures
        ({
            let index = 16 + 36 * r + 6 * g + b;
            &&& indexed_color(index, theme) == indexed_color(index, other)
            &&& indexed_color(index, theme) matches Color::Fixed(color)
            &&& color.a == 255
            &&& r == 0 ==> color.r == 0
            &&& g == 0 ==> color.g == 0
            &&& b == 0 ==> color.b == 0
            &&& r > 0 ==> color.r == 95 + 40 * (r - 1)
            &&& g > 0 ==> color.g == 95 + 40 * (g - 1)
            &&& b > 0 ==> color.b == 95 + 40 * (b - 1)
        }),
        ({
            &&& indexed_color(232 + grey, theme) matches Color::Fixed(color)
            &&& color.a == 255
            &&& color.r == 8 + 10 * grey
            &&& color.g == color.r
            &&& color.b == color.r
        }),
        indexed_color(beyond, theme) == Color::Fixed(Rgba { r: 0, g: 0, b: 0, a: 255 }),
{
    crate::color::cube_colors_are_indexed(theme, r, g, b);
    crate::color::cube_colors_are_indexed(other, r, g, b);
}

/// No wakeup is lost: one that came while events were collected is delivered ahead of them with
/// what is delivered next, once; and one that came after a pause is delivered at once.
pub proof fn wakeups_are_not_lost(
    batch: EventBatch,
    event: AlacTermEvent,
    collecting: Pump,
    listening: PumpAction,
    next: Pump,
    action: PumpAction,
    first: Pump,
    at_once: PumpAction,
)
    requires
        crate::batch::wakes_up(event),
        batch.events@.len() <= 100,
        Pump::Collecting(batch).goes_on(Arrival::Event(event), collecting, listening),
        collecting.goes_on(Arrival::Timeout, next, action),
        Pump::Waiting.goes_on(Arrival::Event(event), first, at_once),
    ensures
        listening is Listen,
        action is DeliverBatch,
        (action->DeliverBatch_0)@.len() == batch.events@.len() + 1,
        (action->DeliverBatch_0)@[0] is Wakeup,
        forall|i: int|
            1 <= i < (action->DeliverBatch_0)@.len() ==> !((
            #[trigger] (action->DeliverBatch_0)@[i]) is Wakeup),
        at_once == PumpAction::DeliverFirst(event),
        next is Collecting,
        first is Collecting,
{
}

/// Collecting goes on up to a hundred events, and one more has them delivered without waiting; a
/// pause with nothing collected ends it, and one with something delivers that.
pub proof fn batches_are_delivered_in_time(
    batch: EventBatch,
    event: AlacTermEvent,
    next: Pump,
    action: PumpAction,
    paused: Pump,
    pause_action: PumpAction,
)
    requires
        !crate::batch::wakes_up(event),
        Pump::Collecting(batch).goes_on(Arrival::Event(event), next, action),
        Pump::Collecting(batch).goes_on(Arrival::Timeout, paused, pause_action),
    ensures
        batch.events@.len() < 100 ==> action is Listen && next.pending() == batch.events@.push(
            event,
        ),
        batch.events@.len() >= 100 ==> action is DeliverBatch && next.pending().len() == 0,
        batch.events@.len() == 0 && !batch.wakeup <==> pause_action is Rest && paused is Waiting,
        batch.events@.len() > 0 || batch.wakeup <==> pause_action is DeliverBatch,
{
}

/// When no more events come, what was collected is still delivered, its wakeup included, before
/// the delivery stops; a pause alone never stops it. A wakeup that waits goes out with a batch that
/// is full, ahead of it.
pub proof fn the_last_events_are_delivered(
    batch: EventBatch,
    event: AlacTermEvent,
    closed: Pump,
    action: PumpAction,
    full: Pump,
    full_action: PumpAction,
    stopped: Pump,
    stop: PumpAction,
    paused: Pump,
    pause: PumpAction,
)
    requires
        Pump::Collecting(batch).goes_on(Arrival::Closed, closed, action),
        Pump::Collecting(batch).goes_on(Arrival::Event(event), full, full_action),
        Pump::Waiting.goes_on(Arrival::Closed, stopped, stop),
        Pump::Waiting.goes_on(Arrival::Timeout, paused, pause),
    ensures
        batch.events@.len() > 0 || batch.wakeup ==> {
            &&& action is DeliverBatch
            &&& closed.pending().len() == 0
            &&& batch.wakeup ==> (action->DeliverBatch_0)@[0] is Wakeup
            &&& batch.wakeup ==> (action->DeliverBatch_0)@.len() == batch.events@.len() + 1
            &&& !batch.wakeup ==> (action->DeliverBatch_0)@.len() == batch.events@.len()
        },
        batch.events@.len() == 0 && !batch.wakeup ==> action is Rest && closed is Waiting,
        batch.wakeup && !crate::batch::wakes_up(event) && batch.events@.len() >= 100 ==> {
            &&& full_action is DeliverBatch
            &&& (full_action->DeliverBatch_0)@[0] is Wakeup
            &&& (full_action->DeliverBatch_0)@.len() == batch.events@.len() + 2
        },
        stop is Stop,
        pause is Listen,
        paused is Waiting,
        crate::batch::BATCH_MILLIS == 4,
{
}

/// A program that asks for a colour is told the one that was set for that very index, and where
/// none was set the one that the theme has for it.
pub proof fn the_colour_asked_for_is_told<F: Fn(Color) -> Rgb>(
    event: AlacTermEvent,
    v: TermView,
    theme: Theme,
    to_alac_rgb: F,
    color: Rgb,
    index: usize,
)
    requires
        crate::alac::told_by(event) == TermEventView::ColorRequest(index),
        crate::process::color_is_due(event, v, theme, to_alac_rgb, color),
    ensures
        crate::alac::color_set(v, index as nat) matches Some(set) ==> color == set,
        crate::alac::color_set(v, index as nat) is None ==> call_ensures(
            to_alac_rgb,
            (indexed_color(index as int, theme),),
            color,
        ),
{
}

} // verus!
