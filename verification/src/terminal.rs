//! The terminal: what it holds, and what can be asked of it.
use crate::alac;
use crate::alac::ZedListener;
use crate::content::TerminalContent;
use crate::events::{InternalEvent, InternalEventView, Msg, MsgView, Notifier};
use crate::geometry::{Pixels, Point, TerminalBounds};
use crate::grid::{
    AnchorView, CursorStyle, GridPoint, GridRange, Scroll, SelectionType, SelectionView, Side,
    TermConfig, TermView,
};
use crate::task::{TaskState, TaskStatus};
use alacritty_terminal::selection::Selection;
use alacritty_terminal::term::Term;
use std::collections::VecDeque;
use std::path::PathBuf;
use vstd::prelude::*;

verus! {

/// Whether the user is selecting.
#[derive(Clone, Copy, Debug, PartialEq, Eq, Structural)]
pub enum SelectionPhase {
    Selecting,
    Ended,
}

/// A process that runs in the terminal.
#[derive(Clone, Debug)]
pub struct ProcessInfo {
    pub name: String,
    pub cwd: PathBuf,
    pub argv: Vec<String>,
}

/// The process in the foreground of the pty, as far as it is known.
#[derive(Clone, Debug)]
pub struct PtyProcessInfo {
    pub current: Option<ProcessInfo>,
}

/// A terminal.
///
/// What is to be sent to the pty is collected in `pty_tx`, and the exit codes of what ran in the
/// terminal in `completion_tx`. Times are counted in nanoseconds from a fixed moment.
pub struct Terminal {
    pub pty_tx: Notifier,
    pub completion_tx: Vec<Option<i32>>,
    pub term_config: TermConfig,
    pub events: VecDeque<InternalEvent>,
    /// The cell and side that the mouse was last reported at.
    pub last_mouse: Option<(GridPoint, Side)>,
    pub matches: Vec<GridRange>,
    pub last_content: TerminalContent,
    pub selection_head: Option<GridPoint>,
    pub breadcrumb_text: String,
    pub pty_info: PtyProcessInfo,
    pub title_override: Option<String>,
    pub python_venv_directory: Option<PathBuf>,
    pub scroll_px: Pixels,
    pub next_link_id: usize,
    pub selection_phase: SelectionPhase,
    pub task: Option<TaskState>,
    pub vi_mode_enabled: bool,
    pub is_ssh_terminal: bool,
    pub last_mouse_move_time: u64,
    pub last_hyperlink_search_position: Option<Point>,
    /// The title that the system sends for the shell itself, and that is not shown.
    pub shell_program: Option<String>,
}

/// The selection that covers a run of cells.
pub open spec fn range_selection(range: GridRange) -> SelectionView {
    SelectionView {
        ty: SelectionType::Simple,
        start: AnchorView { point: range.start, side: Side::Left },
        end: AnchorView { point: range.end, side: Side::Right },
    }
}

/// The waiting event that selects a run of cells.
pub open spec fn selects(range: GridRange) -> InternalEventView {
    InternalEventView::SetSelection(Some((range_selection(range), range.end)))
}

/// Every cell of the grid.
pub open spec fn whole_grid(v: TermView) -> GridRange {
    GridRange {
        start: GridPoint { line: v.topmost() as i32, column: 0 },
        end: GridPoint { line: v.bottommost() as i32, column: (v.columns - 1) as usize },
    }
}

/// Selects a run of cells.
fn make_selection(range: &GridRange) -> (selection: Selection)
    ensures
        alac::selection_view(selection) == range_selection(*range),
{
    let mut selection = alac::new_selection(SelectionType::Simple, range.start, Side::Left);
    alac::update_selection(&mut selection, range.end, Side::Right);
    selection
}

/// Whether the emulator's grid has cells, and its lines can be counted in an `i32` with a page to
/// spare.
pub fn is_sized(term: &Term<ZedListener>) -> (r: bool)
    ensures
        r == alac::term_view(*term).sized(),
{
    let lines: usize = alac::screen_lines(term);
    let total: usize = alac::total_lines(term);
    let offset: usize = alac::display_offset(term);
    let columns: usize = alac::columns(term);
    columns >= 1 && lines >= 1 && lines as u128 + total as u128 <= 0x7fff_ffff && offset <= total
        - lines
}

/// Every cell of the grid.
pub(crate) fn grid_range(term: &Term<ZedListener>) -> (range: GridRange)
    requires
        alac::term_view(*term).sized(),
    ensures
        range == whole_grid(alac::term_view(*term)),
        alac::term_view(*term).on_grid(range.start),
        alac::term_view(*term).on_grid(range.end),
        range.end.column == alac::term_view(*term).columns - 1,
{
    let lines: usize = alac::screen_lines(term);
    let total: usize = alac::total_lines(term);
    let columns: usize = alac::columns(term);
    GridRange {
        start: GridPoint { line: -((total - lines) as i32), column: 0 },
        end: GridPoint { line: (lines - 1) as i32, column: columns - 1 },
    }
}

/// What to wait for to learn how a task ended.
#[derive(Clone, Copy, Debug, PartialEq, Eq, Structural)]
pub enum Completion {
    /// The task is running: its exit is to be awaited.
    Awaited,
    /// The task is over: its exit is there already, if it was reported.
    Reported,
    /// There is no task.
    Missing,
}

impl Terminal {
    /// What waits to be done to the emulator, in order.
    pub open spec fn queue(self) -> Seq<InternalEventView> {
        self.events@.map_values(|e: InternalEvent| e@)
    }

    /// Whether this is the terminal `before` with the events queued, and nothing else changed.
    pub open spec fn queues(self, before: Terminal, events: Seq<InternalEventView>) -> bool {
        &&& self == (Terminal { events: self.events, ..before })
        &&& self.queue() == before.queue() + events
    }

    /// Whether this is the terminal `before` with the messages sent to the pty, and nothing else
    /// changed.
    pub open spec fn sends(self, before: Terminal, messages: Seq<MsgView>) -> bool {
        &&& self == (Terminal { pty_tx: self.pty_tx, ..before })
        &&& self.pty_tx@ == before.pty_tx@ + messages
    }

    /// Whether this is the terminal `before` with the bytes put in: the display goes to the bottom,
    /// the selection goes away, and the bytes go to the pty.
    pub open spec fn has_input(self, before: Terminal, bytes: Seq<u8>) -> bool {
        &&& self == (Terminal { events: self.events, pty_tx: self.pty_tx, ..before })
        &&& self.queue() == before.queue() + seq![
            InternalEventView::Scroll(Scroll::Bottom),
            InternalEventView::SetSelection(None),
        ]
        &&& self.pty_tx@ == before.pty_tx@ + seq![MsgView::Input(bytes)]
    }

    /// Queues an event.
    pub(crate) fn push_event(&mut self, event: InternalEvent)
        ensures
            final(self).queues(*old(self), seq![event@]),
    {
        self.events.push_back(event);
        assert(self.queue() =~= old(self).queue() + seq![event@]);
    }

    /// Sends bytes to the pty.
    pub fn write_to_pty(&mut self, input: Vec<u8>)
        ensures
            final(self).sends(*old(self), seq![MsgView::Input(input@)]),
    {
        self.pty_tx.notify(input);
        assert(self.pty_tx@ =~= old(self).pty_tx@ + seq![MsgView::Input(input@)]);
    }

    /// Puts bytes in, as if typed: shows the bottom of the terminal, drops the selection, and
    /// sends the bytes to the pty.
    pub fn input(&mut self, input: Vec<u8>)
        ensures
            final(self).has_input(*old(self), input@),
    {
        self.push_event(InternalEvent::Scroll(Scroll::Bottom));
        self.push_event(InternalEvent::SetSelection(None));
        self.write_to_pty(input);
        assert(self.queue() =~= old(self).queue() + seq![
            InternalEventView::Scroll(Scroll::Bottom),
            InternalEventView::SetSelection(None),
        ]);
    }

    /// Whether the user is selecting.
    pub fn selection_started(&self) -> (r: bool)
        ensures
            r == (self.selection_phase == SelectionPhase::Selecting),
    {
        self.selection_phase == SelectionPhase::Selecting
    }

    /// What the terminal last showed.
    pub fn last_content(&self) -> (content: &TerminalContent)
        ensures
            *content == self.last_content,
    {
        &self.last_content
    }

    /// Gives the cursor another style, where no program has chosen one.
    pub fn set_cursor_shape(&mut self, style: CursorStyle, term: &mut Term<ZedListener>)
        requires
            old(self).term_config.is_limited(),
        ensures
            final(self).term_config.is_limited(),
            alac::term_view(*final(term)).is_limited(),
            *final(self) == (Terminal {
                term_config: TermConfig {
                    default_cursor_style: style,
                    ..old(self).term_config
                },
                ..*old(self)
            }),
            alac::term_view(*final(term)) == alac::configured(
                alac::term_view(*old(term)),
                final(self).term_config,
            ),
            old(self).vi_agrees(alac::term_view(*old(term))) ==> final(self).vi_agrees(
                alac::term_view(*final(term)),
            ),
    {
        self.term_config.default_cursor_style = style;
        alac::set_options(term, self.term_config);
    }

    /// How many lines there are, scrollback included.
    pub fn total_lines(&self, term: &Term<ZedListener>) -> (n: usize)
        ensures
            n == alac::term_view(*term).screen_lines + alac::term_view(*term).history,
    {
        alac::total_lines(term)
    }

    /// How many lines the screen has.
    pub fn viewport_lines(&self, term: &Term<ZedListener>) -> (n: usize)
        ensures
            n == alac::term_view(*term).screen_lines,
    {
        alac::screen_lines(term)
    }

    /// Whether this is the terminal `before` once the match of the given place in its list has been
    /// selected and scrolled to, where there is one.
    pub open spec fn activates(self, before: Terminal, index: int) -> bool {
        if index < before.matches@.len() {
            self.queues(
                before,
                seq![
                    selects(before.matches@[index]),
                    InternalEventView::ScrollToAlacPoint(before.matches@[index].start),
                ],
            )
        } else {
            self == before
        }
    }

    /// Selects the match of the given place in the list, and scrolls to it.
    pub fn activate_match(&mut self, index: usize)
        ensures
            final(self).activates(*old(self), index as int),
    {
        if index < self.matches.len() {
            let search_match: GridRange = self.matches[index];
            self.set_selection(Some((make_selection(&search_match), search_match.end)));
            self.push_event(InternalEvent::ScrollToAlacPoint(search_match.start));
            assert(self.queue() =~= old(self).queue() + seq![
                selects(search_match),
                InternalEventView::ScrollToAlacPoint(search_match.start),
            ]);
        }
    }

    /// Whether this is the terminal `before` once those of its matches have been selected that are
    /// among the given ones.
    pub open spec fn selects_among(self, before: Terminal, matches: Seq<GridRange>) -> bool {
        self.queues(
            before,
            before.matches@.filter(|m: GridRange| matches.contains(m)).map_values(
                |m: GridRange| selects(m),
            ),
        )
    }

    /// Selects, one after the other, those of the terminal's matches that are among the given
    /// ones.
    pub fn select_matches(&mut self, matches: &Vec<GridRange>)
        ensures
            final(self).selects_among(*old(self), matches@),
    {
        let ghost wanted = |m: GridRange| matches@.contains(m);
        let ghost event = |m: GridRange| selects(m);
        let n: usize = self.matches.len();
        proof {
            reveal(Seq::filter);
            assert(old(self).matches@.take(0).filter(wanted).map_values(event)
                =~= Seq::<InternalEventView>::empty());
            assert(self.queue() =~= old(self).queue() + Seq::<InternalEventView>::empty());
        }
        for i in 0..n
            invariant
                n == old(self).matches@.len(),
                wanted == (|m: GridRange| matches@.contains(m)),
                event == (|m: GridRange| selects(m)),
                self.queues(
                    *old(self),
                    old(self).matches@.take(i as int).filter(wanted).map_values(event),
                ),
        {
            let ghost all = old(self).matches@;
            let candidate: GridRange = self.matches[i];
            proof {
                assert(all.take(i + 1) =~= all.take(i as int).push(candidate));
                assert(all.take(i as int).push(candidate).drop_last() =~= all.take(i as int));
                reveal(Seq::filter);
            }
            if contains_range(matches, &candidate) {
                self.set_selection(Some((make_selection(&candidate), candidate.end)));
                assert(all.take(i + 1).filter(wanted).map_values(event) =~= all.take(
                    i as int,
                ).filter(wanted).map_values(event) + seq![selects(candidate)]);
                assert(self.queue() =~= old(self).queue() + all.take(i + 1).filter(
                    wanted,
                ).map_values(event));
            }
        }
        assert(old(self).matches@.take(n as int) =~= old(self).matches@);
    }

    /// Whether this is the terminal `before` with every cell of the emulator selected.
    pub open spec fn selects_everything(self, before: Terminal, v: TermView) -> bool {
        self.queues(before, seq![selects(whole_grid(v))])
    }

    /// Selects everything, scrollback included.
    pub fn select_all(&mut self, term: &Term<ZedListener>)
        requires
            alac::term_view(*term).sized(),
        ensures
            final(self).selects_everything(*old(self), alac::term_view(*term)),
    {
        let range = grid_range(term);
        self.set_selection(Some((make_selection(&range), range.end)));
    }

    /// Selects everything, where the grid is sound; says whether it was.
    pub fn try_select_all(&mut self, term: &Term<ZedListener>) -> (done: bool)
        ensures
            done == alac::term_view(*term).sized(),
            done ==> final(self).selects_everything(*old(self), alac::term_view(*term)),
            !done ==> *final(self) == *old(self),
    {
        if is_sized(term) {
            self.select_all(term);
            true
        } else {
            false
        }
    }

    /// Sets the selection and its head.
    pub(crate) fn set_selection(&mut self, selection: Option<(Selection, GridPoint)>)
        ensures
            final(self).queues(*old(self), seq![InternalEvent::SetSelection(selection)@]),
    {
        self.push_event(InternalEvent::SetSelection(selection));
    }

    /// Whether this is the terminal `before` with a copy queued.
    pub open spec fn queues_copy(self, before: Terminal, keep_selection: Option<bool>) -> bool {
        self.queues(before, seq![InternalEventView::Copy(keep_selection)])
    }

    /// Copies the selection to the clipboard.
    pub fn copy(&mut self, keep_selection: Option<bool>)
        ensures
            final(self).queues_copy(*old(self), keep_selection),
    {
        self.push_event(InternalEvent::Copy(keep_selection));
    }

    /// Whether this is the terminal `before` with clearing queued.
    pub open spec fn queues_clear(self, before: Terminal) -> bool {
        self.queues(before, seq![InternalEventView::Clear])
    }

    /// Clears the screen but for the cursor's line, and the scrollback.
    pub fn clear(&mut self)
        ensures
            final(self).queues_clear(*old(self)),
    {
        self.push_event(InternalEvent::Clear);
    }

    /// Whether this is the terminal `before` with a scroll by one line up queued.
    pub open spec fn queues_line_up(self, before: Terminal) -> bool {
        self.queues(before, seq![InternalEventView::Scroll(Scroll::Delta(1))])
    }

    /// Scrolls one line up.
    pub fn scroll_line_up(&mut self)
        ensures
            final(self).queues_line_up(*old(self)),
    {
        self.push_event(InternalEvent::Scroll(Scroll::Delta(1)));
    }

    /// Whether this is the terminal `before` with a scroll up by so many lines queued.
    pub open spec fn scrolls_up_by(self, before: Terminal, lines: usize) -> bool {
        self.queues(before, seq![InternalEventView::Scroll(Scroll::Delta(lines as i32))])
    }

    /// Whether this is the terminal `before` with a scroll down by so many lines queued.
    pub open spec fn scrolls_down_by(self, before: Terminal, lines: usize) -> bool {
        self.queues(
            before,
            seq![InternalEventView::Scroll(Scroll::Delta((-(lines as i32)) as i32))],
        )
    }

    /// Scrolls up; the number of lines is cut down to 32 bits.
    pub fn scroll_up_by(&mut self, lines: usize)
        ensures
            final(self).scrolls_up_by(*old(self), lines),
    {
        self.push_event(InternalEvent::Scroll(Scroll::Delta(#[verifier::truncate] (lines as i32))));
    }

    /// Whether this is the terminal `before` with a scroll by one line down queued.
    pub open spec fn queues_line_down(self, before: Terminal) -> bool {
        self.queues(before, seq![InternalEventView::Scroll(Scroll::Delta(-1i32))])
    }

    /// Scrolls one line down.
    pub fn scroll_line_down(&mut self)
        ensures
            final(self).queues_line_down(*old(self)),
    {
        self.push_event(InternalEvent::Scroll(Scroll::Delta(-1)));
    }

    /// Scrolls down; the number of lines is cut down to 32 bits.
    pub fn scroll_down_by(&mut self, lines: usize)
        requires
            lines as i32 != i32::MIN,
        ensures
            final(self).scrolls_down_by(*old(self), lines),
    {
        let count: i32 = #[verifier::truncate] (lines as i32);
        self.push_event(InternalEvent::Scroll(Scroll::Delta(-count)));
    }

    /// Whether this is the terminal `before` with a scroll by one page up queued.
    pub open spec fn queues_page_up(self, before: Terminal) -> bool {
        self.queues(before, seq![InternalEventView::Scroll(Scroll::PageUp)])
    }

    /// Scrolls one page up.
    pub fn scroll_page_up(&mut self)
        ensures
            final(self).queues_page_up(*old(self)),
    {
        self.push_event(InternalEvent::Scroll(Scroll::PageUp));
    }

    /// Whether this is the terminal `before` with a scroll by one page down queued.
    pub open spec fn queues_page_down(self, before: Terminal) -> bool {
        self.queues(before, seq![InternalEventView::Scroll(Scroll::PageDown)])
    }

    /// Scrolls one page down.
    pub fn scroll_page_down(&mut self)
        ensures
            final(self).queues_page_down(*old(self)),
    {
        self.push_event(InternalEvent::Scroll(Scroll::PageDown));
    }

    /// Whether this is the terminal `before` with a scroll to the top queued.
    pub open spec fn queues_top(self, before: Terminal) -> bool {
        self.queues(before, seq![InternalEventView::Scroll(Scroll::Top)])
    }

    /// Scrolls to the top of the scrollback.
    pub fn scroll_to_top(&mut self)
        ensures
            final(self).queues_top(*old(self)),
    {
        self.push_event(InternalEvent::Scroll(Scroll::Top));
    }

    /// Whether this is the terminal `before` with a scroll to the bottom queued.
    pub open spec fn queues_bottom(self, before: Terminal) -> bool {
        self.queues(before, seq![InternalEventView::Scroll(Scroll::Bottom)])
    }

    /// Scrolls to the bottom.
    pub fn scroll_to_bottom(&mut self)
        ensures
            final(self).queues_bottom(*old(self)),
    {
        self.push_event(InternalEvent::Scroll(Scroll::Bottom));
    }

    /// Whether the terminal last showed the top of its scrollback.
    pub fn scrolled_to_top(&self) -> (r: bool)
        ensures
            r == self.last_content.scrolled_to_top,
    {
        self.last_content.scrolled_to_top
    }

    /// Whether the terminal last showed its bottom.
    pub fn scrolled_to_bottom(&self) -> (r: bool)
        ensures
            r == self.last_content.scrolled_to_bottom,
    {
        self.last_content.scrolled_to_bottom
    }

    /// Whether this is the terminal `before` once it has been given bounds: where they are new, a
    /// resize waits.
    pub open spec fn takes_size(self, before: Terminal, bounds: TerminalBounds) -> bool {
        if before.last_content.terminal_bounds != bounds {
            self.queues(before, seq![InternalEventView::Resize(bounds)])
        } else {
            self == before
        }
    }

    /// Resizes the terminal and the pty, where the bounds are new.
    pub fn set_size(&mut self, new_bounds: TerminalBounds)
        ensures
            final(self).takes_size(*old(self), new_bounds),
    {
        if self.last_content.terminal_bounds != new_bounds {
            self.push_event(InternalEvent::Resize(new_bounds));
        }
    }

    /// Whether this is the terminal `before` with the switch of vi mode queued.
    pub open spec fn queues_vi_toggle(self, before: Terminal) -> bool {
        self.queues(before, seq![InternalEventView::ToggleViMode])
    }

    /// Switches vi mode on or off.
    pub fn toggle_vi_mode(&mut self)
        ensures
            final(self).queues_vi_toggle(*old(self)),
    {
        self.push_event(InternalEvent::ToggleViMode);
    }

    /// Whether vi mode is on.
    pub fn vi_mode_enabled(&self) -> (r: bool)
        ensures
            r == self.vi_mode_enabled,
    {
        self.vi_mode_enabled
    }

    /// The task of the terminal, where it has one.
    pub fn task(&self) -> (task: Option<&TaskState>)
        ensures
            match task {
                Some(task) => self.task == Some(*task),
                None => self.task is None,
            },
    {
        self.task.as_ref()
    }

    /// Whether the terminal has a task that is running.
    pub open spec fn task_is_running(self) -> bool {
        self.task is Some && self.task->0.status == TaskStatus::Running
    }

    /// Whether the process in the foreground is to be killed: only that of a running task is.
    pub fn kill_active_task(&self) -> (kill: bool)
        ensures
            kill == self.task_is_running(),
    {
        match self.task() {
            Some(task) => task.status == TaskStatus::Running,
            None => false,
        }
    }

    /// What there is to wait for.
    pub open spec fn completion(self) -> Completion {
        if self.task is None {
            Completion::Missing
        } else if self.task_is_running() {
            Completion::Awaited
        } else {
            Completion::Reported
        }
    }

    /// What to wait for to learn how the task ended.
    pub fn wait_for_completed_task(&self) -> (completion: Completion)
        ensures
            completion == self.completion(),
    {
        match self.task() {
            Some(task) => if task.status == TaskStatus::Running {
                Completion::Awaited
            } else {
                Completion::Reported
            },
            None => Completion::Missing,
        }
    }

    /// The working directory: that of the process in the foreground, unless it stands for a shell
    /// on another host, whose directory is not known here.
    pub open spec fn spec_working_directory(self) -> Option<PathBuf> {
        if self.is_ssh_terminal || self.pty_info.current is None {
            None
        } else {
            Some(self.pty_info.current->0.cwd)
        }
    }

    /// The working directory of the terminal.
    pub fn working_directory(&self) -> (dir: Option<PathBuf>)
        ensures
            dir == self.spec_working_directory(),
    {
        if self.is_ssh_terminal {
            None
        } else {
            self.client_side_working_directory()
        }
    }

    /// The working directory of the process that is connected to the pty, where there is one.
    pub open spec fn spec_client_side_working_directory(self) -> Option<PathBuf> {
        match self.pty_info.current {
            Some(process) => Some(process.cwd),
            None => None,
        }
    }

    /// The working directory of the process that is connected to the pty.
    pub fn client_side_working_directory(&self) -> (dir: Option<PathBuf>)
        ensures
            dir == self.spec_client_side_working_directory(),
    {
        match &self.pty_info.current {
            Some(process) => Some(process.cwd.clone()),
            None => None,
        }
    }

    /// Whether this is the terminal `before` with its end sent to the pty.
    pub open spec fn sends_shutdown(self, before: Terminal) -> bool {
        self.sends(before, seq![MsgView::Shutdown])
    }

    /// Ends the terminal.
    pub fn shutdown(&mut self)
        ensures
            final(self).sends_shutdown(*old(self)),
    {
        self.pty_tx.send(Msg::Shutdown);
        assert(self.pty_tx@ =~= old(self).pty_tx@ + seq![MsgView::Shutdown]);
    }
}

/// Whether the run of cells is among the given ones.
fn contains_range(ranges: &Vec<GridRange>, range: &GridRange) -> (r: bool)
    ensures
        r == ranges@.contains(*range),
{
    for i in 0..ranges.len()
        invariant
            forall|j: int| 0 <= j < i ==> ranges@[j] != *range,
    {
        if ranges[i] == *range {
            assert(ranges@[i as int] == *range);
            return true;
        }
    }
    false
}

} // verus!
