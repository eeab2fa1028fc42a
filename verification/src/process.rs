//! What the emulator and the pty tell, taken up by the terminal.
use crate::alac;
use crate::alac::ZedListener;
use crate::color::{requested_color, Color, RequestedColor, Theme, COLOR_COUNT};
use crate::events::{
    Context, EffectView, Event, EventView, MsgView, TermEvent, TermEventView,
};
use crate::fitness::{has_room_above, is_on_screen};
use crate::geometry::WindowSize;
use crate::grid::{GridPoint, Rgb, TermView, LINE_WRAP};
use crate::task::{task_summary, HideStrategy, TaskState, TaskStatus};
use crate::terminal::Terminal;
use crate::text::{chars_of, str_eq};
use alacritty_terminal::event::Event as AlacTermEvent;
use alacritty_terminal::term::Term;
use vstd::prelude::*;
use vstd::string::*;

verus! {

/// The emulator with the cursor at the start of a new line.
pub open spec fn line_started(v: TermView) -> TermView {
    let w = crate::alac::new_lined(v);
    TermView { cursor: GridPoint { line: w.cursor.line, column: 0 }, ..w }
}

/// The emulator after the characters were written.
pub open spec fn typed(v: TermView, text: Seq<char>) -> TermView
    decreases text.len(),
{
    if text.len() == 0 {
        v
    } else {
        crate::alac::inputted(typed(v, text.drop_last()), text.last())
    }
}

/// The emulator after the lines were written, each ended by a new line.
pub open spec fn typed_lines(v: TermView, lines: Seq<Seq<char>>) -> TermView
    decreases lines.len(),
{
    if lines.len() == 0 {
        v
    } else {
        line_started(typed(typed_lines(v, lines.drop_last()), lines.last()))
    }
}

/// The emulator with the lines appended below what it holds.
pub open spec fn appended(v: TermView, lines: Seq<Seq<char>>) -> TermView {
    typed_lines(line_started(v), lines)
}

/// The most line feeds that appending the lines takes: one ahead, one at the end of each, and one
/// for each character that goes to a new line.
pub open spec fn line_feeds(lines: Seq<Seq<char>>) -> nat
    decreases lines.len(),
{
    if lines.len() == 0 {
        1
    } else {
        line_feeds(lines.drop_last()) + lines.last().len() + 1
    }
}

/// Whether the lines can be appended to what the emulator holds: its cursor is on the screen, it
/// can write each of the characters, and the selection can move up with the text in `i32`
/// arithmetic.
pub open spec fn takes_text(v: TermView, lines: Seq<Seq<char>>) -> bool {
    &&& v.on_screen(v.cursor)
    &&& v.room_above(line_feeds(lines) as int)
    &&& forall|i: int, j: int|
        #![trigger lines[i][j]]
        0 <= i < lines.len() && 0 <= j < lines[i].len() ==> v.takes_char(lines[i][j])
}

/// Fewer lines take no more line feeds.
proof fn line_feeds_grow(lines: Seq<Seq<char>>, n: int)
    requires
        0 <= n < lines.len(),
    ensures
        line_feeds(lines.take(n + 1)) == line_feeds(lines.take(n)) + lines[n].len() + 1,
        line_feeds(lines.take(n + 1)) <= line_feeds(lines),
    decreases lines.len(),
{
    assert(lines.take(n + 1).drop_last() =~= lines.take(n));
    if n + 1 < lines.len() {
        line_feeds_grow(lines.drop_last(), n);
        assert(lines.drop_last().take(n + 1) =~= lines.take(n + 1));
    } else {
        assert(lines.take(n + 1) =~= lines);
    }
}

/// Goes to the start of a new line.
fn start_line(term: &mut Term<ZedListener>)
    requires
        alac::term_view(*old(term)).on_screen(alac::term_view(*old(term)).cursor),
        alac::term_view(*old(term)).room_above(1),
    ensures
        alac::term_view(*final(term)) == line_started(alac::term_view(*old(term))),
        alac::term_view(*final(term)).on_screen(alac::term_view(*final(term)).cursor),
        alac::term_view(*final(term)).mode == alac::term_view(*old(term)).mode,
        alac::term_view(*final(term)).columns == alac::term_view(*old(term)).columns,
        alac::term_view(*final(term)).rises_from(alac::term_view(*old(term)), 1),
        alac::term_view(*final(term)).limit == alac::term_view(*old(term)).limit,
{
    alac::newline(term);
    let cursor = alac::cursor_point(term);
    alac::set_cursor_point(term, GridPoint { line: cursor.line, column: 0 });
}

/// Appends lines of text to the terminal, after its output. What is not shown as text stays out
/// of it: line ends in the text do not end a line.
pub fn append_text_to_term(term: &mut Term<ZedListener>, text_lines: &Vec<String>)
    requires
        takes_text(alac::term_view(*old(term)), crate::text::texts(text_lines@)),
    ensures
        alac::term_view(*final(term)) == appended(
            alac::term_view(*old(term)),
            crate::text::texts(text_lines@),
        ),
        alac::term_view(*final(term)).on_screen(alac::term_view(*final(term)).cursor),
        alac::term_view(*final(term)).mode == alac::term_view(*old(term)).mode,
        alac::term_view(*final(term)).columns == alac::term_view(*old(term)).columns,
        alac::term_view(*final(term)).limit == alac::term_view(*old(term)).limit,
        alac::term_view(*final(term)).rises_from(
            alac::term_view(*old(term)),
            line_feeds(crate::text::texts(text_lines@)) as int,
        ),
{
    let ghost lines = crate::text::texts(text_lines@);
    let ghost u = alac::term_view(*term);
    proof {
        if lines.len() > 0 {
            line_feeds_grow(lines, 0);
        }
        assert(lines.take(0) =~= Seq::<Seq<char>>::empty());
    }
    start_line(term);
    let ghost v = alac::term_view(*term);
    for i in 0..text_lines.len()
        invariant
            lines == crate::text::texts(text_lines@),
            takes_text(u, lines),
            u == alac::term_view(*old(term)),
            alac::term_view(*term).limit == u.limit,
            alac::term_view(*term).on_screen(alac::term_view(*term).cursor),
            alac::term_view(*term).mode == u.mode,
            alac::term_view(*term).columns == u.columns,
            alac::term_view(*term).rises_from(u, line_feeds(lines.take(i as int)) as int),
            alac::term_view(*term) == typed_lines(v, lines.take(i as int)),
    {
        let chars = chars_of(text_lines[i].as_str());
        let ghost w = alac::term_view(*term);
        let ghost feeds = line_feeds(lines.take(i as int)) as int;
        proof {
            line_feeds_grow(lines, i as int);
            assert(lines[i as int] == chars@);
        }
        assert(chars@.take(0) =~= Seq::<char>::empty());
        for j in 0..chars.len()
            invariant
                takes_text(u, lines),
                0 <= i < lines.len(),
                chars@ == lines[i as int],
                feeds + chars@.len() + 1 <= line_feeds(lines),
                u == alac::term_view(*old(term)),
                alac::term_view(*term).limit == u.limit,
                alac::term_view(*term).on_screen(alac::term_view(*term).cursor),
                alac::term_view(*term).mode == u.mode,
                alac::term_view(*term).columns == u.columns,
                alac::term_view(*term).rises_from(u, feeds + j),
                alac::term_view(*term) == typed(w, chars@.take(j as int)),
        {
            assert(u.takes_char(lines[i as int][j as int]));
            alac::input(term, chars[j]);
            assert(chars@.take(j + 1).drop_last() =~= chars@.take(j as int));
        }
        assert(chars@.take(chars@.len() as int) =~= chars@);
        start_line(term);
        assert(lines.take(i + 1).drop_last() =~= lines.take(i as int));
        assert(lines.take(i + 1).last() == chars@);
    }
    assert(lines.take(lines.len() as int) =~= lines);
}

/// Whether none of the characters takes more than one column.
fn is_narrow(chars: &Vec<char>) -> (r: bool)
    ensures
        r == forall|j: int| 0 <= j < chars@.len() ==> !alac::is_wide(#[trigger] chars@[j]),
{
    for j in 0..chars.len()
        invariant
            forall|k: int| 0 <= k < j ==> !alac::is_wide(#[trigger] chars@[k]),
    {
        if let Some(columns) = alac::char_width(chars[j]) {
            if columns > 1 {
                assert(alac::is_wide(chars@[j as int]));
                return false;
            }
        }
    }
    true
}

/// Whether the lines can be appended to what the emulator holds.
pub fn is_text_taken(term: &Term<ZedListener>, text_lines: &Vec<String>) -> (r: bool)
    ensures
        r == takes_text(alac::term_view(*term), crate::text::texts(text_lines@)),
{
    let ghost v = alac::term_view(*term);
    let ghost lines = crate::text::texts(text_lines@);
    if !is_on_screen(term, alac::cursor_point(term)) {
        return false;
    }
    let roomy = alac::columns(term) >= 2 || !alac::mode(term).contains(LINE_WRAP);
    // No selection can move up by more lines than this
    let most: u64 = 0xffff_ffff;
    let mut feeds: u64 = 1;
    assert(lines.take(0) =~= Seq::<Seq<char>>::empty());
    for i in 0..text_lines.len()
        invariant
            v == alac::term_view(*term),
            v.on_screen(v.cursor),
            lines == crate::text::texts(text_lines@),
            roomy == (v.columns >= 2 || !v.mode.has(LINE_WRAP)),
            most == 0xffff_ffff,
            feeds <= most + 1,
            line_feeds(lines.take(i as int)) <= most ==> feeds == line_feeds(
                lines.take(i as int),
            ),
            line_feeds(lines.take(i as int)) > most ==> feeds > most,
            forall|k: int, j: int|
                #![trigger lines[k][j]]
                0 <= k < i && 0 <= j < lines[k].len() ==> v.takes_char(lines[k][j]),
    {
        let chars = chars_of(text_lines[i].as_str());
        assert(lines[i as int] == chars@);
        if !roomy && !is_narrow(&chars) {
            proof {
                let j = choose|j: int|
                    0 <= j < chars@.len() && alac::is_wide(#[trigger] chars@[j]);
                assert(!v.takes_char(lines[i as int][j]));
            }
            return false;
        }
        assert forall|j: int| 0 <= j < lines[i as int].len() implies v.takes_char(
            #[trigger] lines[i as int][j],
        ) by {
            assert(lines[i as int][j] == chars@[j]);
        }
        proof {
            line_feeds_grow(lines, i as int);
        }
        let count: u64 = chars.len() as u64;
        feeds = if feeds > most || count >= most || feeds + count + 1 > most {
            most + 1
        } else {
            feeds + count + 1
        };
    }
    assert(lines.take(lines.len() as int) =~= lines);
    if feeds > most {
        !has_selection(term)
    } else {
        has_room_above(term, feeds as i64)
    }
}

/// Whether something is selected.
fn has_selection(term: &Term<ZedListener>) -> (r: bool)
    ensures
        r == alac::term_view(*term).selection is Some,
{
    alac::active_selection(term).is_some()
}

/// How a running task stands once its end is known.
pub open spec fn status_after(error_code: Option<i32>) -> TaskStatus {
    match error_code {
        Some(code) => TaskStatus::Completed { success: code == 0 },
        None => TaskStatus::Unknown,
    }
}

/// Whether the terminal of a task is closed now that the task has ended.
pub open spec fn closes(hide: HideStrategy, error_code: Option<i32>) -> bool {
    match hide {
        HideStrategy::Never => false,
        HideStrategy::Always => true,
        HideStrategy::OnSuccess => error_code == Some(0i32),
    }
}

/// The owner is told to close the terminal, or nothing is.
pub open spec fn close_told(close: bool) -> Seq<EffectView> {
    if close {
        seq![EffectView::Emit(EventView::CloseTerminal)]
    } else {
        Seq::empty()
    }
}

/// What is the case when the emulator tells something.
pub struct Circumstances {
    /// The text on the clipboard, where there is one.
    pub clipboard: Option<String>,
    /// Whether the process in the foreground is another one than before.
    pub process_changed: bool,
}

/// Whether a request for a colour is answered with `answer`: the colour that was set for the index,
/// else the index's own, put into red, green and blue by `to_alac_rgb`.
pub open spec fn is_answer<F: Fn(Color) -> Rgb>(
    set: Option<Rgb>,
    own: Color,
    to_alac_rgb: F,
    answer: Rgb,
) -> bool {
    match set {
        Some(color) => answer == color,
        None => call_ensures(to_alac_rgb, (own,), answer),
    }
}

/// Whether `color` is what the event is answered with, where it asks for a colour.
pub open spec fn color_is_due<F: Fn(Color) -> Rgb>(
    event: AlacTermEvent,
    v: TermView,
    theme: Theme,
    to_alac_rgb: F,
    color: Rgb,
) -> bool {
    crate::alac::told_by(event) matches TermEventView::ColorRequest(index) ==> is_answer(
        crate::alac::color_set(v, index as nat),
        crate::color::indexed_color(index as int, theme),
        to_alac_rgb,
        color,
    )
}

/// How a task ended: whether well, and the lines that are shown of it.
fn end_lines(task: &TaskState, error_code: Option<i32>) -> (end: (bool, Vec<String>))
    ensures
        end.0 == (error_code == Some(0i32)),
        crate::text::texts(end.1@) == crate::task::lines_to_show(*task, error_code),
{
    let (finished_successfully, task_line, command_line) = task_summary(task, error_code);
    let mut lines_to_show: Vec<String> = Vec::new();
    if task.show_summary {
        lines_to_show.push(task_line);
    }
    if task.show_command {
        lines_to_show.push(command_line);
    }
    assert(crate::text::texts(lines_to_show@) =~= crate::task::lines_to_show(*task, error_code));
    (finished_successfully, lines_to_show)
}

impl Terminal {
    /// Whether lines are written to the emulator when what runs in the terminal ends.
    pub open spec fn writes_summary(self) -> bool {
        self.task_is_running() && (self.task->0.show_summary || self.task->0.show_command)
    }

    /// Whether this is the terminal `before` once what ran in it has ended, which brought the
    /// emulator from `v` to `after` and had the effects `told`.
    ///
    /// A running task is over now: lines about its end are shown, and the terminal is closed, as
    /// the task has it. A terminal without a task is closed when its program is gone. A task that
    /// was over already stays as it was.
    pub open spec fn finishes(
        self,
        before: Terminal,
        error_code: Option<i32>,
        v: TermView,
        after: TermView,
        told: Seq<EffectView>,
    ) -> bool {
        &&& self.completion_tx@ == before.completion_tx@.push(error_code)
        &&& if before.task_is_running() {
            let task = before.task->0;
            let lines = crate::task::lines_to_show(task, error_code);
            &&& self == (Terminal {
                completion_tx: self.completion_tx,
                task: Some(TaskState { status: status_after(error_code), ..task }),
                ..before
            })
            &&& after == (if lines.len() > 0 {
                appended(v, lines)
            } else {
                v
            })
            &&& told == close_told(closes(task.hide, error_code))
        } else {
            &&& self == (Terminal { completion_tx: self.completion_tx, ..before })
            &&& after == v
            &&& told == close_told(before.task is None && error_code is None)
        }
    }

    /// Takes up the end of what ran in the terminal: with an exit code, or without one where the
    /// terminal itself went away.
    pub fn register_task_finished(
        &mut self,
        error_code: Option<i32>,
        term: &mut Term<ZedListener>,
        cx: &mut Context,
    )
        requires
            old(self).writes_summary() ==> takes_text(
                alac::term_view(*old(term)),
                crate::task::lines_to_show(old(self).task->0, error_code),
            ),
        ensures
            old(cx)@.is_prefix_of(final(cx)@),
            final(self).finishes(
                *old(self),
                error_code,
                alac::term_view(*old(term)),
                alac::term_view(*final(term)),
                final(cx)@.skip(old(cx)@.len() as int),
            ),
            old(self).vi_agrees(alac::term_view(*old(term))) ==> final(self).vi_agrees(
                alac::term_view(*final(term)),
            ),
            alac::term_view(*final(term)).limit == alac::term_view(*old(term)).limit,
    {
        let ghost n = cx@.len() as int;
        proof {
            assert(cx@.skip(n) =~= Seq::<EffectView>::empty());
            assert(cx@.take(n) =~= cx@);
        }
        self.completion_tx.push(error_code);
        match self.task.take() {
            Some(task) => {
                if task.status != TaskStatus::Running {
                    self.task = Some(task);
                    return;
                }
                let mut task = task;
                match error_code {
                    Some(error_code) => {
                        task.status.register_task_exit(error_code);
                    },
                    None => {
                        task.status.register_terminal_exit();
                    },
                }
                let (finished_successfully, lines_to_show) = end_lines(&task, error_code);
                assert(crate::text::texts(lines_to_show@) == crate::task::lines_to_show(
                    old(self).task->0,
                    error_code,
                ));
                if lines_to_show.len() > 0 {
                    append_text_to_term(term, &lines_to_show);
                }
                let close = match task.hide {
                    HideStrategy::Never => false,
                    HideStrategy::Always => true,
                    HideStrategy::OnSuccess => finished_successfully,
                };
                if close {
                    cx.emit(Event::CloseTerminal);
                    assert(cx@.skip(n) =~= close_told(true));
                }
                self.task = Some(task);
            },
            None => {
                if error_code.is_none() {
                    cx.emit(Event::CloseTerminal);
                    assert(cx@.skip(n) =~= close_told(true));
                }
            },
        }
    }

    /// Whether this is the terminal `before` once it has taken up the event, which brought the
    /// emulator from `v` to `after` and had the effects `told`. `color` is what a request for a
    /// colour is answered with.
    pub open spec fn takes_up(
        self,
        before: Terminal,
        event: AlacTermEvent,
        circumstances: Circumstances,
        color: Rgb,
        v: TermView,
        after: TermView,
        told: Seq<EffectView>,
    ) -> bool {
        let nothing = Seq::<EffectView>::empty();
        match crate::alac::told_by(event) {
            TermEventView::Title(title) => {
                &&& after == v
                &&& if crate::content::optional_text(before.shell_program) == Some(title) {
                    &&& self == before
                    &&& told == nothing
                } else {
                    &&& self == (Terminal { breadcrumb_text: self.breadcrumb_text, ..before })
                    &&& self.breadcrumb_text@ == title
                    &&& told == seq![EffectView::Emit(EventView::BreadcrumbsChanged)]
                }
            },
            TermEventView::ResetTitle => {
                &&& after == v
                &&& self == (Terminal { breadcrumb_text: self.breadcrumb_text, ..before })
                &&& self.breadcrumb_text@ == Seq::<char>::empty()
                &&& told == seq![EffectView::Emit(EventView::BreadcrumbsChanged)]
            },
            TermEventView::ClipboardStore(data) => {
                &&& after == v
                &&& self == before
                &&& told == seq![EffectView::WriteToClipboard(data)]
            },
            TermEventView::ClipboardLoad => {
                let text = match circumstances.clipboard {
                    Some(text) => text@,
                    None => Seq::<char>::empty(),
                };
                &&& after == v
                &&& self.answers(before, crate::alac::clipboard_reply(event, text))
                &&& told == nothing
            },
            TermEventView::PtyWrite(out) => {
                &&& after == v
                &&& self.answers(before, out)
                &&& told == nothing
            },
            TermEventView::TextAreaSizeRequest => {
                let size = before.last_content.terminal_bounds.window_size();
                &&& after == v
                &&& self.answers(before, crate::alac::size_reply(event, size))
                &&& told == nothing
            },
            TermEventView::CursorBlinkingChange => {
                &&& after == v
                &&& self == before
                &&& told == seq![
                    EffectView::Emit(
                        EventView::BlinkChanged(crate::alac::style_of_cursor(v).blinking),
                    ),
                ]
            },
            TermEventView::Bell => {
                &&& after == v
                &&& self == before
                &&& told == seq![EffectView::Emit(EventView::Bell)]
            },
            TermEventView::Exit => self.finishes(before, None, v, after, told),
            TermEventView::MouseCursorDirty => {
                &&& after == v
                &&& self == before
                &&& told == nothing
            },
            TermEventView::Wakeup => {
                &&& after == v
                &&& self == before
                &&& told == (if circumstances.process_changed {
                    seq![
                        EffectView::Emit(EventView::Wakeup),
                        EffectView::Emit(EventView::TitleChanged),
                    ]
                } else {
                    seq![EffectView::Emit(EventView::Wakeup)]
                })
            },
            TermEventView::ColorRequest(_) => {
                &&& after == v
                &&& self.answers(before, crate::alac::color_reply(event, color))
                &&& told == nothing
            },
            TermEventView::ChildExit(error_code) => self.finishes(
                before,
                Some(error_code),
                v,
                after,
                told,
            ),
        }
    }

    /// Whether this is the terminal `before` with the text sent to the program.
    pub open spec fn answers(self, before: Terminal, text: Seq<char>) -> bool {
        self.sends(before, seq![MsgView::Input(vstd::utf8::encode_utf8(text))])
    }

    /// Whether the end of what runs in the terminal can be taken up: the emulator takes the lines
    /// that are shown of it.
    pub open spec fn end_can_be_taken(self, error_code: Option<i32>, v: TermView) -> bool {
        self.writes_summary() ==> takes_text(
            v,
            crate::task::lines_to_show(self.task->0, error_code),
        )
    }

    /// Whether the event can be taken up: where it ends a task whose end is shown, the emulator has
    /// to take the text; where it asks for a colour, there has to be one of that index; and where
    /// it asks for the size, the pixels have to be countable in 16 bits.
    pub open spec fn event_can_be_taken(self, event: AlacTermEvent, v: TermView) -> bool {
        match crate::alac::told_by(event) {
            TermEventView::Exit => self.end_can_be_taken(None, v),
            TermEventView::ChildExit(error_code) => self.end_can_be_taken(Some(error_code), v),
            TermEventView::TextAreaSizeRequest =>
                self.last_content.terminal_bounds.window_size().counts_pixels(),
            TermEventView::ColorRequest(index) => index < crate::color::COLOR_COUNT,
            _ => true,
        }
    }

    fn is_end_taken(&self, error_code: Option<i32>, term: &Term<ZedListener>) -> (r: bool)
        ensures
            r == self.end_can_be_taken(error_code, alac::term_view(*term)),
    {
        match &self.task {
            Some(task) => {
                if task.status == TaskStatus::Running && (task.show_summary || task.show_command) {
                    let (_, lines) = end_lines(task, error_code);
                    is_text_taken(term, &lines)
                } else {
                    true
                }
            },
            None => true,
        }
    }

    fn answer(&mut self, text: String)
        ensures
            final(self).answers(*old(self), text@),
    {
        self.write_to_pty(text.as_str().as_bytes_vec());
    }

    /// Takes up what the emulator told. A colour that no program has set is the theme's, put into
    /// red, green and blue by `to_alac_rgb`.
    pub fn process_event<F: Fn(Color) -> Rgb>(
        &mut self,
        event: AlacTermEvent,
        circumstances: Circumstances,
        theme: &Theme,
        to_alac_rgb: F,
        term: &mut Term<ZedListener>,
        cx: &mut Context,
    )
        requires
            old(self).event_can_be_taken(event, alac::term_view(*old(term))),
            forall|color: Color| call_requires(to_alac_rgb, (color,)),
        ensures
            old(cx)@.is_prefix_of(final(cx)@),
            exists|color: Rgb|
                {
                    &&& #[trigger] final(self).takes_up(
                        *old(self),
                        event,
                        circumstances,
                        color,
                        alac::term_view(*old(term)),
                        alac::term_view(*final(term)),
                        final(cx)@.skip(old(cx)@.len() as int),
                    )
                    &&& color_is_due(
                        event,
                        alac::term_view(*old(term)),
                        *theme,
                        to_alac_rgb,
                        color,
                    )
                },
            old(self).vi_agrees(alac::term_view(*old(term))) ==> final(self).vi_agrees(
                alac::term_view(*final(term)),
            ),
            alac::term_view(*final(term)).limit == alac::term_view(*old(term)).limit,
    {
        let ghost n = cx@.len() as int;
        let ghost mut answered: Rgb = Rgb { r: 0, g: 0, b: 0 };
        proof {
            assert(cx@.skip(n) =~= Seq::<EffectView>::empty());
            assert(cx@.take(n) =~= cx@);
        }
        match alac::term_event(&event) {
            TermEvent::Title(title) => {
                let is_shell = match &self.shell_program {
                    Some(program) => str_eq(program.as_str(), title.as_str()),
                    None => false,
                };
                if !is_shell {
                    self.breadcrumb_text = title;
                    cx.emit(Event::BreadcrumbsChanged);
                    assert(cx@.skip(n) =~= seq![EffectView::Emit(EventView::BreadcrumbsChanged)]);
                }
            },
            TermEvent::ResetTitle => {
                self.breadcrumb_text = String::new();
                cx.emit(Event::BreadcrumbsChanged);
                assert(cx@.skip(n) =~= seq![EffectView::Emit(EventView::BreadcrumbsChanged)]);
            },
            TermEvent::ClipboardStore(data) => {
                cx.write_to_clipboard(data);
                assert(cx@.skip(n) =~= seq![EffectView::WriteToClipboard(data@)]);
            },
            TermEvent::ClipboardLoad => {
                let text = match &circumstances.clipboard {
                    Some(text) => text.clone(),
                    None => String::new(),
                };
                self.answer(alac::format_clipboard(&event, text.as_str()));
            },
            TermEvent::PtyWrite(out) => {
                self.answer(out);
            },
            TermEvent::TextAreaSizeRequest => {
                let size = WindowSize::from(self.last_content.terminal_bounds);
                self.answer(alac::format_size(&event, size));
            },
            TermEvent::CursorBlinkingChange => {
                let style = alac::cursor_style(term);
                cx.emit(Event::BlinkChanged(style.blinking));
                assert(cx@.skip(n) =~= seq![
                    EffectView::Emit(EventView::BlinkChanged(style.blinking)),
                ]);
            },
            TermEvent::Bell => {
                cx.emit(Event::Bell);
                assert(cx@.skip(n) =~= seq![EffectView::Emit(EventView::Bell)]);
            },
            TermEvent::Exit => {
                self.register_task_finished(None, term, cx);
            },
            TermEvent::MouseCursorDirty => {},
            TermEvent::Wakeup => {
                cx.emit(Event::Wakeup);
                if circumstances.process_changed {
                    cx.emit(Event::TitleChanged);
                    assert(cx@.skip(n) =~= seq![
                        EffectView::Emit(EventView::Wakeup),
                        EffectView::Emit(EventView::TitleChanged),
                    ]);
                } else {
                    assert(cx@.skip(n) =~= seq![EffectView::Emit(EventView::Wakeup)]);
                }
            },
            TermEvent::ColorRequest(index) => {
                // Answered here, to keep its place among the other answers
                let color = match requested_color(term, index, theme) {
                    RequestedColor::Chosen(color) => color,
                    RequestedColor::Default(color) => to_alac_rgb(color),
                };
                proof {
                    answered = color;
                }
                self.answer(alac::format_color(&event, color));
            },
            TermEvent::ChildExit(error_code) => {
                self.register_task_finished(Some(error_code), term, cx);
            },
        }
        assert(self.takes_up(
            *old(self),
            event,
            circumstances,
            answered,
            alac::term_view(*old(term)),
            alac::term_view(*term),
            cx@.skip(n),
        ));
    }

    /// Takes up what the emulator told, as `process_event` does it, where that can be done; says
    /// whether it could. Else nothing is done.
    pub fn try_process_event<F: Fn(Color) -> Rgb>(
        &mut self,
        event: AlacTermEvent,
        circumstances: Circumstances,
        theme: &Theme,
        to_alac_rgb: F,
        term: &mut Term<ZedListener>,
        cx: &mut Context,
    ) -> (done: bool)
        requires
            forall|color: Color| call_requires(to_alac_rgb, (color,)),
        ensures
            done == old(self).event_can_be_taken(event, alac::term_view(*old(term))),
            done ==> old(cx)@.is_prefix_of(final(cx)@),
            done ==> exists|color: Rgb|
                {
                    &&& #[trigger] final(self).takes_up(
                        *old(self),
                        event,
                        circumstances,
                        color,
                        alac::term_view(*old(term)),
                        alac::term_view(*final(term)),
                        final(cx)@.skip(old(cx)@.len() as int),
                    )
                    &&& color_is_due(
                        event,
                        alac::term_view(*old(term)),
                        *theme,
                        to_alac_rgb,
                        color,
                    )
                },
            !done ==> {
                &&& *final(self) == *old(self)
                &&& *final(term) == *old(term)
                &&& *final(cx) == *old(cx)
            },
            old(self).vi_agrees(alac::term_view(*old(term))) ==> final(self).vi_agrees(
                alac::term_view(*final(term)),
            ),
            alac::term_view(*final(term)).limit == alac::term_view(*old(term)).limit,
    {
        let fits = match alac::term_event(&event) {
            TermEvent::Exit => self.is_end_taken(None, term),
            TermEvent::ChildExit(error_code) => self.is_end_taken(Some(error_code), term),
            TermEvent::TextAreaSizeRequest => WindowSize::from(
                self.last_content.terminal_bounds,
            ).is_counted(),
            TermEvent::ColorRequest(index) => index < COLOR_COUNT,
            _ => true,
        };
        if fits {
            self.process_event(event, circumstances, theme, to_alac_rgb, term, cx);
        }
        fits
    }
}

} // verus!
