//! What holds of a terminal as a whole, over several of its operations.
use crate::alac::ZedListener;
use crate::content::{HoveredWordView, TerminalContent};
use crate::events::{EffectView, EventView, InternalEvent, InternalEventView, MsgView};
use crate::geometry::TerminalBounds;
use crate::grid::{
    GridPoint, GridRange, Rgb, Scroll, TermMode, TermView, BRACKETED_PASTE, VI,
};
use crate::process::Circumstances;
use crate::sync::{EventInputs, Stage};
use crate::task::TaskStatus;
use crate::terminal::Terminal;
use alacritty_terminal::event::Event as AlacTermEvent;
use alacritty_terminal::term::Term;
use std::path::PathBuf;
use vstd::prelude::*;

pub mod answering;
pub mod carrying;
pub mod ending;
pub mod founding;
pub mod pointing;
pub mod reading;
pub mod showing;
pub mod typing;

verus! {

/// Switching vi mode twice changes nothing but, perhaps, where its cursor is.
pub proof fn toggling_vi_mode_twice(v: TermView)
    ensures
        (TermView { vi_cursor: v.vi_cursor, ..v.with_vi_toggled().with_vi_toggled() }) == v,
        v.with_vi_toggled().mode.has(VI) == !v.mode.has(VI),
{
    let bits = v.mode.bits;
    assert((bits ^ 65536) ^ 65536 == bits) by (bit_vector);
    assert(((bits ^ 65536) & 65536 == 65536) == (bits & 65536 != 65536)) by (bit_vector);
}

/// A cleared terminal has nothing to scroll back to, shows the line of the cursor on top, and
/// nothing below it. Its size and its modes stay.
pub proof fn clearing_leaves_the_cursor_line(v: TermView, after: TermView, line: int)
    requires
        v.sized(),
        crate::sync::clears(v, after),
        1 <= line < v.screen_lines,
    ensures
        after.history == 0,
        after.display_offset == 0,
        after.cursor == (GridPoint { line: 0, column: v.cursor.column }),
        after.lines[0] == v.lines[v.cursor.line as int],
        after.is_blank_line(after.lines[line]),
        after.columns == v.columns,
        after.screen_lines == v.screen_lines,
        after.mode == v.mode,
{
}

/// Clearing a cleared terminal changes nothing but, perhaps, the colour of what is blank.
pub proof fn clearing_twice(v: TermView, once: TermView, twice: TermView, line: int)
    requires
        crate::sync::clears(v, once),
        crate::sync::clears(once, twice),
        1 <= line < v.screen_lines,
    ensures
        twice == (TermView { lines: twice.lines, dirt: twice.dirt, ..once }),
        twice.lines[0] == once.lines[0],
        twice.is_blank_line(twice.lines[line]),
        once.is_blank_line(once.lines[line]),
{
}

/// Bounds that have been made large enough for one cell stay as they are.
pub proof fn bounds_settle(b: TerminalBounds)
    ensures
        b.spec_at_least_one_cell().spec_at_least_one_cell() == b.spec_at_least_one_cell(),
{
}

/// Once a terminal has been resized, the bounds it has now are no news to it.
pub proof fn a_size_is_set_once(
    before: Terminal,
    after: Terminal,
    bounds: TerminalBounds,
    inputs: EventInputs,
    v: TermView,
    w: TermView,
    told: Seq<EffectView>,
)
    requires
        after.carries_out(before, InternalEventView::Resize(bounds), inputs, v, w, told),
    ensures
        after.last_content.terminal_bounds == bounds.spec_at_least_one_cell(),
        bounds == bounds.spec_at_least_one_cell() ==> after.last_content.terminal_bounds == bounds,
{
}

/// A task that has ended is over for good: whatever is heard of it later changes neither its
/// status nor what the terminal shows, and closes nothing.
pub proof fn a_task_ends_once(
    before: Terminal,
    ended: Terminal,
    after: Terminal,
    first_code: Option<i32>,
    second_code: Option<i32>,
    v: TermView,
    w: TermView,
    x: TermView,
    first_told: Seq<EffectView>,
    second_told: Seq<EffectView>,
)
    requires
        before.task is Some,
        ended.finishes(before, first_code, v, w, first_told),
        after.finishes(ended, second_code, w, x, second_told),
    ensures
        ended.task is Some,
        ended.task->0.status != TaskStatus::Running,
        after.task == ended.task,
        x == w,
        second_told == Seq::<EffectView>::empty(),
{
}

/// A task counts as successful exactly when it ran and its exit code was zero.
pub proof fn success_is_exit_code_zero(
    before: Terminal,
    after: Terminal,
    error_code: Option<i32>,
    v: TermView,
    w: TermView,
    told: Seq<EffectView>,
)
    requires
        before.task_is_running(),
        after.finishes(before, error_code, v, w, told),
    ensures
        after.task->0.status == (TaskStatus::Completed { success: true }) <==> error_code == Some(
            0i32,
        ),
        error_code is None <==> after.task->0.status == TaskStatus::Unknown,
{
}

/// Whether a text is a single line.
pub open spec fn is_single_line(text: Seq<char>) -> bool {
    forall|i: int| 0 <= i < text.len() ==> #[trigger] text[i] != '\n'
}

proof fn digits_are_a_single_line(n: nat)
    ensures
        is_single_line(crate::text::digits(n)),
    decreases n,
{
    let all = crate::text::digits(n);
    assert(crate::text::digit(n) != '\n') by {
        assert(0 <= n % 10 < 10);
    }
    if n >= 10 {
        let ahead = crate::text::digits(n / 10);
        digits_are_a_single_line(n / 10);
        assert forall|i: int| 0 <= i < all.len() implies #[trigger] all[i] != '\n' by {
            if i < ahead.len() {
                assert(all[i] == ahead[i]);
            }
        }
    }
}

/// What is shown of a finished task is one line each, whatever its labels hold.
pub proof fn summaries_are_single_lines(
    full_label: Seq<char>,
    command_label: Seq<char>,
    error_code: Option<i32>,
)
    ensures
        is_single_line(crate::task::task_line(full_label, error_code)),
        is_single_line(crate::task::command_line(command_label)),
{
    reveal_strlit("⏵ Task `");
    reveal_strlit("⏵ Command: ");
    reveal_strlit("` finished successfully");
    reveal_strlit("` finished with non-zero error code: ");
    reveal_strlit("` finished");
    assert(is_single_line(crate::text::line_ends_to_cr(full_label)));
    assert(is_single_line(crate::text::line_ends_to_cr(command_label)));
    if let Some(code) = error_code {
        digits_are_a_single_line(code as nat);
        digits_are_a_single_line((-(code as int)) as nat);
    }
}

/// Text pasted in brackets cannot close them: between the brackets there is no escape character.
pub proof fn pasted_text_stays_in_its_brackets(text: Seq<char>, mode: TermMode, i: int)
    requires
        mode.has(BRACKETED_PASTE),
    ensures
        ({
            let sent = crate::input::pasted(text, mode);
            let open = "\x1b[200~"@;
            let close = "\x1b[201~"@;
            &&& open.is_prefix_of(sent)
            &&& sent.skip(sent.len() - close.len()) == close
            &&& open.len() <= i < sent.len() - close.len() ==> sent[i] != '\x1b'
        }),
{
    let sent = crate::input::pasted(text, mode);
    let open = "\x1b[200~"@;
    let close = "\x1b[201~"@;
    let inner = text.filter(|c: char| c != '\x1b');
    assert(sent == open + inner + close);
    assert(sent.take(open.len() as int) =~= open);
    assert(sent.skip(sent.len() - close.len()) =~= close);
    if open.len() <= i < sent.len() - close.len() {
        assert(sent[i] == inner[i - open.len()]);
        assert(inner.contains(inner[i - open.len()]));
        text.lemma_filter_contains_rev(|c: char| c != '\x1b', inner[i - open.len()]);
    }
}

/// Text pasted without brackets has its line ends sent as the key for them sends.
pub proof fn pasted_line_ends_are_those_of_the_key(text: Seq<char>, mode: TermMode)
    requires
        !mode.has(BRACKETED_PASTE),
    ensures
        is_single_line(crate::input::pasted(text, mode)),
{
}

proof fn trimmed_ends_in_text(s: Seq<char>)
    ensures
        crate::text::trimmed_end(s).len() > 0 ==> !crate::text::white_space(
            crate::text::trimmed_end(s).last(),
        ),
    decreases s.len(),
{
    if s.len() > 0 && crate::text::white_space(s.last()) {
        trimmed_ends_in_text(s.drop_last());
    }
}

proof fn logical_lines_are_trimmed(v: TermView, line: int, i: int)
    requires
        0 <= i < crate::lines::logical_lines(v, line).len(),
    ensures
        crate::lines::logical_lines(v, line)[i].len() > 0 ==> !crate::text::white_space(
            crate::lines::logical_lines(v, line)[i].last(),
        ),
    decreases line - v.topmost() + 1,
{
    if line >= v.topmost() {
        crate::lines::start_is_above(v, line);
        let start = crate::lines::logical_start(v, line);
        if i < crate::lines::logical_lines(v, start - 1).len() {
            logical_lines_are_trimmed(v, start - 1, i);
        } else {
            trimmed_ends_in_text(crate::lines::logical_text(v, start, line));
        }
    }
}

/// Of the last lines of a terminal there are no more than asked for, none is empty, and none ends
/// in white space.
pub proof fn last_lines_hold_text(v: TermView, n: nat, i: int)
    requires
        0 <= i < crate::lines::last_of(
            crate::lines::non_empty(crate::lines::logical_lines(v, v.bottommost())),
            n as int,
        ).len(),
    ensures
        ({
            let last = crate::lines::last_of(
                crate::lines::non_empty(crate::lines::logical_lines(v, v.bottommost())),
                n as int,
            );
            &&& last.len() <= n
            &&& last[i].len() > 0
            &&& !crate::text::white_space(last[i].last())
        }),
{
    let all = crate::lines::logical_lines(v, v.bottommost());
    let kept = |text: Seq<char>| text.len() > 0;
    let filled = crate::lines::non_empty(all);
    let last = crate::lines::last_of(filled, n as int);
    let text = last[i];
    assert(filled.contains(text)) by {
        if filled.len() <= n {
            assert(filled[i] == text);
        } else {
            assert(filled[i + filled.len() - n] == text);
        }
    }
    all.lemma_filter_contains_rev(kept, text);
    let k = choose|k: int| 0 <= k < all.len() && all[k] == text;
    logical_lines_are_trimmed(v, v.bottommost(), k);
    all.lemma_filter_pred(kept, choose|j: int| 0 <= j < filled.len() && filled[j] == text);
}

/// Asked for more lines, a terminal gives the same ones, with others ahead of them.
pub proof fn more_lines_extend_fewer(v: TermView, n: nat, m: nat)
    requires
        n <= m,
    ensures
        ({
            let texts = crate::lines::non_empty(
                crate::lines::logical_lines(v, v.bottommost()),
            );
            let few = crate::lines::last_of(texts, n as int);
            let many = crate::lines::last_of(texts, m as int);
            few.len() <= many.len() && many.skip(many.len() - few.len()) == few
        }),
{
    let texts = crate::lines::non_empty(crate::lines::logical_lines(v, v.bottommost()));
    let few = crate::lines::last_of(texts, n as int);
    let many = crate::lines::last_of(texts, m as int);
    assert(many.skip(many.len() - few.len()) =~= few);
}

/// The link that stays under the mouse keeps its number, and another link gets another number than
/// the link before it.
pub proof fn links_are_numbered(
    before: Terminal,
    middle: Terminal,
    after: Terminal,
    prev_word: Option<HoveredWordView>,
    first_match: GridRange,
    first_word: Seq<char>,
    first_target: crate::events::TargetView,
    first_told: Seq<EffectView>,
    second_match: GridRange,
    second_word: Seq<char>,
    second_target: crate::events::TargetView,
    second_told: Seq<EffectView>,
)
    requires
        !Terminal::same_word(prev_word, first_match, first_word),
        middle.takes_word(
            before,
            prev_word,
            first_match,
            first_word,
            first_target,
            first_told,
        ),
        after.takes_word(
            middle,
            middle.last_content.hovered(),
            second_match,
            second_word,
            second_target,
            second_told,
        ),
    ensures
        first_word == second_word && first_match == second_match <==>
            after.last_content.hovered()->0.id == middle.last_content.hovered()->0.id,
{
}

/// The mouse that stays where it was is no news.
pub proof fn a_resting_mouse_is_no_news(
    before: Terminal,
    after: Terminal,
    point: GridPoint,
    side: crate::grid::Side,
)
    requires
        after == (Terminal { last_mouse: Some((point, side)), ..before }),
    ensures
        !after.mouse_is_elsewhere(point, side),
{
}

/// A program in a terminal finds out what terminal that is, whatever the caller has set, and is
/// given a language where the process of the terminal has none; other variables are as the caller
/// has set them.
pub proof fn programs_know_their_terminal(
    given: Map<Seq<char>, Seq<char>>,
    lang_is_set: bool,
    version: Seq<char>,
    name: Seq<char>,
)
    ensures
        ({
            let env = crate::env::terminal_env(given, lang_is_set, version);
            &&& env.contains_pair("ZED_TERM"@, "true"@)
            &&& env.contains_pair("TERM_PROGRAM"@, "zed"@)
            &&& env.contains_pair("TERM"@, "xterm-256color"@)
            &&& env.contains_pair("TERM_PROGRAM_VERSION"@, version)
            &&& !lang_is_set ==> env.dom().contains("LANG"@)
            &&& given.dom().contains("LANG"@) ==> env.contains_pair("LANG"@, given["LANG"@])
            &&& name != "ZED_TERM"@ && name != "TERM_PROGRAM"@ && name != "TERM"@ && name
                != "TERM_PROGRAM_VERSION"@ && name != "LANG"@ ==> {
                &&& env.dom().contains(name) == given.dom().contains(name)
                &&& env[name] == given[name]
            }
        }),
{
    reveal_strlit("ZED_TERM");
    reveal_strlit("TERM_PROGRAM");
    reveal_strlit("TERM");
    reveal_strlit("TERM_PROGRAM_VERSION");
    reveal_strlit("LANG");
    assert("ZED_TERM"@.len() == 8);
    assert("TERM_PROGRAM"@.len() == 12);
    assert("TERM_PROGRAM_VERSION"@.len() == 20);
    assert("TERM"@.len() == 4);
    assert("LANG"@.len() == 4);
    assert("TERM"@[0] == 'T');
    assert("LANG"@[0] == 'L');
    let env = crate::env::terminal_env(given, lang_is_set, version);
    assert(env.contains_pair("TERM_PROGRAM_VERSION"@, version));
    assert(env.contains_pair("TERM"@, "xterm-256color"@));
    assert(env.contains_pair("TERM_PROGRAM"@, "zed"@));
    assert(env.contains_pair("ZED_TERM"@, "true"@));
    assert(!lang_is_set ==> env.dom().contains("LANG"@));
    assert(given.dom().contains("LANG"@) ==> env.contains_pair("LANG"@, given["LANG"@]));
}

/// One can scroll back no further than the limit, and a task as far as the limit.
pub proof fn scrollback_is_limited(max_scroll_history_lines: Option<usize>)
    ensures
        crate::builder::scrollback(true, max_scroll_history_lines)
            == crate::builder::MAX_SCROLL_HISTORY_LINES,
        crate::builder::scrollback(false, max_scroll_history_lines)
            <= crate::builder::MAX_SCROLL_HISTORY_LINES,
{
}

/// A terminal on another host has no working directory here, and so gives none to the paths found
/// in it.
pub proof fn remote_terminals_have_no_directory(terminal: Terminal, text: Seq<char>)
    requires
        terminal.is_ssh_terminal,
    ensures
        terminal.spec_working_directory() is None,
        crate::links::target_of(text, false, terminal.spec_working_directory())
            == (crate::events::TargetView::PathLike {
            maybe_path: text,
            terminal_dir: None::<PathBuf>,
        }),
{
}

/// A copy that does not keep the selection has it gone once what it queued is carried out.
pub proof fn a_copied_selection_goes_away(
    before: Terminal,
    copied: Terminal,
    after: Terminal,
    inputs: EventInputs,
    v: TermView,
    w: TermView,
    x: TermView,
    copy_told: Seq<EffectView>,
    told: Seq<EffectView>,
)
    requires
        copied.carries_out(
            before,
            InternalEventView::Copy(Some(false)),
            inputs,
            v,
            w,
            copy_told,
        ),
        crate::alac::selected_text(v) is Some,
        after.carries_out(copied, copied.queue().last(), inputs, w, x, told),
    ensures
        copy_told == seq![EffectView::WriteToClipboard(crate::alac::selected_text(v)->0)],
        w == v,
        x.selection is None,
{
}

/// Selecting all and carrying that out selects every cell of the grid.
pub proof fn everything_gets_selected(
    before: Terminal,
    asked: Terminal,
    after: Terminal,
    inputs: EventInputs,
    v: TermView,
    w: TermView,
    told: Seq<EffectView>,
)
    requires
        asked.queues(before, seq![crate::terminal::selects(crate::terminal::whole_grid(v))]),
        after.carries_out(asked, asked.queue().last(), inputs, v, w, told),
    ensures
        w.selection == Some(crate::terminal::range_selection(crate::terminal::whole_grid(v))),
        after.selection_head == Some(crate::terminal::whole_grid(v).end),
{
    assert(asked.queue().last() == crate::terminal::selects(crate::terminal::whole_grid(v)));
}

/// The cell that is found in the content for a row and a column in sight is the one that is shown
/// there.
pub proof fn the_cell_under_the_mouse(
    content: TerminalContent,
    last: TerminalContent,
    v: TermView,
    row: int,
    col: int,
)
    requires
        content.shows(v, last),
        0 <= row < v.screen_lines,
        0 <= col < v.columns,
    ensures
        ({
            let i = crate::geometry::content_index(
                row,
                col,
                v.screen_lines as int,
                v.columns as int,
            );
            &&& 0 <= i < content.cells@.len()
            &&& crate::alac::cell_view(content.cells@[i].cell) == v.lines[row
                - v.display_offset][col]
        }),
{
    let lines = v.screen_lines as int;
    let columns = v.columns as int;
    let i = crate::geometry::content_index(row, col, lines, columns);
    assert(i == row * columns + col);
    assert(row * columns + col < lines * columns) by (nonlinear_arith)
        requires
            0 <= row < lines,
            0 <= col < columns,
    ;
    assert(0 <= row * columns) by (nonlinear_arith)
        requires
            0 <= row,
            0 <= columns,
    ;
    vstd::arithmetic::div_mod::lemma_fundamental_div_mod_converse(i, columns, row, col);
    assert(content.cell_views().len() == content.cells@.len());
    assert(content.cell_views()[i] == v.displayed()[i]);
    assert(content.cell_views()[i] == content.cells@[i].cell_at());
}

/// What is shown after a scroll to the top or to the bottom says so.
pub proof fn scrolled_ends_are_told(
    v: TermView,
    w: TermView,
    scroll: Scroll,
    content: TerminalContent,
    last: TerminalContent,
)
    requires
        w == (TermView {
            display_offset: v.scrolled_offset(scroll) as nat,
            vi_cursor: w.vi_cursor,
            selection: w.selection,
            ..v
        }),
        content.shows(w, last),
    ensures
        scroll == Scroll::Top ==> content.scrolled_to_top,
        scroll == Scroll::Bottom ==> content.scrolled_to_bottom,
        content.scrolled_to_top && content.scrolled_to_bottom <==> v.history == 0
            && content.display_offset == 0,
{
}

/// A link that was asked to be opened is opened, and one that was not is at most pointed out.
pub proof fn links_open_only_when_asked(
    before: Terminal,
    after: Terminal,
    link: Option<crate::links::FoundLink>,
    open: bool,
    told: Seq<EffectView>,
    i: int,
)
    requires
        after.takes_link(before, link, open, told),
        0 <= i < told.len(),
    ensures
        told[i] matches EffectView::Emit(EventView::Open(_)) ==> open && link is Some,
        open && link is Some ==> told.len() == 1 && (told[0] matches EffectView::Emit(
            EventView::Open(_),
        )),
{
}

/// Waiting events are carried out in the order in which they were queued: when the first is carried
/// out the others keep their places, and what it queues goes behind them. What was told stays told.
pub proof fn events_keep_their_order<
    P: Fn(&InternalEvent, &Terminal, &Term<ZedListener>) -> EventInputs,
>(before: Stage, after: Stage, provide: P)
    requires
        after.follows(before, provide),
    ensures
        before.terminal.queue().skip(1).is_prefix_of(after.terminal.queue()),
        before.told.is_prefix_of(after.told),
{
    let (event, rest, inputs) = choose|event: InternalEvent, rest: Terminal, inputs: EventInputs|
        {
            &&& before.terminal.events@.len() > 0
            &&& event == before.terminal.events@[0]
            &&& #[trigger] rest.popped_from(before.terminal)
            &&& #[trigger] crate::sync::provided(
                provide,
                event,
                before.terminal,
                before.term,
                inputs,
            )
            &&& before.told.is_prefix_of(after.told)
            &&& after.terminal.carries_out(
                rest,
                event@,
                inputs,
                crate::alac::term_view(before.term),
                crate::alac::term_view(after.term),
                after.told.skip(before.told.len() as int),
            )
        };
    let waiting = rest.queue();
    assert(after.terminal.queue().take(waiting.len() as int) =~= waiting);
}

/// Programs are answered in the order in which they asked: what is sent for an event goes behind
/// what was sent before.
pub proof fn answers_keep_their_order(
    before: Terminal,
    after: Terminal,
    event: AlacTermEvent,
    circumstances: Circumstances,
    color: Rgb,
    v: TermView,
    w: TermView,
    told: Seq<EffectView>,
)
    requires
        after.takes_up(before, event, circumstances, color, v, w, told),
    ensures
        before.pty_tx@.is_prefix_of(after.pty_tx@),
        after.pty_tx@.len() <= before.pty_tx@.len() + 1,
{
    let sent = before.pty_tx@;
    assert(after.pty_tx@.take(sent.len() as int) =~= sent);
}

/// Once what typing has queued is carried out, the terminal shows its bottom and nothing is
/// selected.
pub proof fn typing_shows_the_bottom(
    before: Terminal,
    typed: Terminal,
    after: Terminal,
    bytes: Seq<u8>,
    inputs: EventInputs,
    v: TermView,
    w: TermView,
    x: TermView,
    told: Seq<EffectView>,
)
    requires
        typed.has_input(before, bytes),
        w == (TermView {
            display_offset: v.scrolled_offset(Scroll::Bottom) as nat,
            vi_cursor: w.vi_cursor,
            selection: w.selection,
            ..v
        }),
        after.carries_out(typed, typed.queue().last(), inputs, w, x, told),
    ensures
        typed.queue()[before.queue().len() as int] == InternalEventView::Scroll(Scroll::Bottom),
        x.display_offset == 0,
        x.selection is None,
        typed.pty_tx@.last() == MsgView::Input(bytes),
{
    assert(typed.queue().last() == InternalEventView::SetSelection(None));
}

} // verus!
