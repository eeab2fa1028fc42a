//! What becomes of a terminal whose program or task has ended.
use crate::events::{EffectView, EventView};
use crate::grid::TermView;
use crate::process::{line_started, typed};
use crate::task::{command_line, lines_to_show, task_line, HideStrategy, TaskState, TaskStatus};
use crate::terminal::Terminal;
use crate::text::{decimal, digits, line_ends_to_cr};
use vstd::prelude::*;

verus! {

/// Of a finished task the command line is shown if and only if that is wanted, whether or not the
/// summary is; and the summary if and only if that is wanted, ahead of the command line. Nothing
/// else is shown.
pub proof fn each_line_is_shown_when_wanted(task: TaskState, error_code: Option<i32>)
    ensures
        ({
            let lines = lines_to_show(task, error_code);
            &&& task.show_command && task.show_summary ==> lines.len() == 2
            &&& task.show_command != task.show_summary ==> lines.len() == 1
            &&& !task.show_command && !task.show_summary ==> lines.len() == 0
            &&& task.show_summary ==> lines.first() == task_line(task.full_label@, error_code)
            &&& task.show_command ==> lines.last() == command_line(task.command_label@)
        }),
{
}

/// Whether the command line is shown does not depend on the summary: with the same labels and the
/// same end, a task that shows both shows what a task with the summary alone shows and behind it
/// what a task with the command alone shows.
pub proof fn both_lines_are_one_after_the_other(
    both: TaskState,
    summary: TaskState,
    command: TaskState,
    error_code: Option<i32>,
)
    requires
        both.show_summary && both.show_command,
        summary.show_summary && !summary.show_command,
        !command.show_summary && command.show_command,
        summary.full_label == both.full_label,
        command.command_label == both.command_label,
    ensures
        lines_to_show(both, error_code) == lines_to_show(summary, error_code) + lines_to_show(
            command,
            error_code,
        ),
{
}

/// The lines about a task say, after what they are about, the label of the task and how it ended,
/// and the label of the command.
pub proof fn lines_say_what_happened(
    full_label: Seq<char>,
    command_label: Seq<char>,
    error_code: Option<i32>,
)
    ensures
        ({
            let told = task_line(full_label, error_code);
            let start = "⏵ Task `"@ + line_ends_to_cr(full_label);
            let command = command_line(command_label);
            let ahead = "⏵ Command: "@;
            &&& start.is_prefix_of(told)
            &&& error_code == Some(0i32) ==> told.skip(start.len() as int)
                == "` finished successfully"@
            &&& error_code is None ==> told.skip(start.len() as int) == "` finished"@
            &&& error_code is Some && error_code->0 != 0 ==> told.skip(start.len() as int)
                == "` finished with non-zero error code: "@ + decimal(error_code->0 as int)
            &&& ahead.is_prefix_of(command)
            &&& command.skip(ahead.len() as int) == line_ends_to_cr(command_label)
        }),
{
    let told = task_line(full_label, error_code);
    let start = "⏵ Task `"@ + line_ends_to_cr(full_label);
    let command = command_line(command_label);
    let ahead = "⏵ Command: "@;
    assert(told.take(start.len() as int) =~= start);
    assert(command.take(ahead.len() as int) =~= ahead);
    assert(command.skip(ahead.len() as int) =~= line_ends_to_cr(command_label));
    match error_code {
        Some(code) => {
            if code == 0 {
                assert(told.skip(start.len() as int) =~= "` finished successfully"@);
            } else {
                assert(told.skip(start.len() as int)
                    =~= "` finished with non-zero error code: "@ + decimal(code as int));
            }
        },
        None => {
            assert(told.skip(start.len() as int) =~= "` finished"@);
        },
    }
}

/// A text without a line feed is shown as it is.
pub proof fn plain_labels_are_shown_as_they_are(text: Seq<char>)
    requires
        forall|i: int| 0 <= i < text.len() ==> #[trigger] text[i] != '\n',
    ensures
        line_ends_to_cr(text) == text,
    decreases text.len(),
{
    if text.len() > 0 {
        plain_labels_are_shown_as_they_are(text.skip(1));
        assert(crate::text::crlf_to_cr(text.skip(1)).len() == text.skip(1).len());
        assert(line_ends_to_cr(text) =~= seq![text[0]] + line_ends_to_cr(text.skip(1)));
        assert(text =~= seq![text[0]] + text.skip(1));
    }
}

/// Line ends are made carriage returns one by one: `\n` and `\r\n` come to a single one, and a
/// text that is not cut between `\r` and `\n` can be taken in two parts.
pub proof fn line_ends_are_replaced_one_by_one(a: Seq<char>, b: Seq<char>)
    ensures
        line_ends_to_cr(seq!['\n']) == seq!['\r'],
        line_ends_to_cr(seq!['\r', '\n']) == seq!['\r'],
        line_ends_to_cr(seq!['\r']) == seq!['\r'],
        !(a.len() > 0 && a.last() == '\r' && b.len() > 0 && b[0] == '\n') ==> line_ends_to_cr(a + b)
            == line_ends_to_cr(a) + line_ends_to_cr(b),
    decreases a.len(),
{
    let lf = seq!['\n'];
    let cr = seq!['\r'];
    let crlf = seq!['\r', '\n'];
    assert(lf.skip(1) =~= Seq::<char>::empty());
    assert(cr.skip(1) =~= Seq::<char>::empty());
    assert(crlf.skip(2) =~= Seq::<char>::empty());
    assert(crate::text::crlf_to_cr(Seq::<char>::empty()) =~= Seq::<char>::empty());
    assert(crate::text::crlf_to_cr(lf) =~= lf);
    assert(crate::text::crlf_to_cr(cr) =~= cr);
    assert(crate::text::crlf_to_cr(crlf) =~= cr);
    assert(line_ends_to_cr(lf) =~= cr);
    assert(line_ends_to_cr(cr) =~= cr);
    assert(line_ends_to_cr(crlf) =~= cr);
    if !(a.len() > 0 && a.last() == '\r' && b.len() > 0 && b[0] == '\n') {
        if a.len() == 0 {
            assert(a + b =~= b);
            assert(line_ends_to_cr(a) + line_ends_to_cr(b) =~= line_ends_to_cr(b));
        } else if a.len() >= 2 && a[0] == '\r' && a[1] == '\n' {
            line_ends_are_replaced_one_by_one(a.skip(2), b);
            assert((a + b).skip(2) =~= a.skip(2) + b);
            assert(line_ends_to_cr(a + b) =~= seq!['\r'] + line_ends_to_cr(a.skip(2) + b));
            assert(line_ends_to_cr(a) =~= seq!['\r'] + line_ends_to_cr(a.skip(2)));
            assert(line_ends_to_cr(a + b) =~= line_ends_to_cr(a) + line_ends_to_cr(b));
        } else {
            line_ends_are_replaced_one_by_one(a.skip(1), b);
            assert((a + b).skip(1) =~= a.skip(1) + b);
            let c = if a[0] == '\n' {
                '\r'
            } else {
                a[0]
            };
            assert(line_ends_to_cr(a + b) =~= seq![c] + line_ends_to_cr(a.skip(1) + b));
            assert(line_ends_to_cr(a) =~= seq![c] + line_ends_to_cr(a.skip(1)));
            assert(line_ends_to_cr(a + b) =~= line_ends_to_cr(a) + line_ends_to_cr(b));
        }
    }
}

/// The number that a row of decimal digits stands for.
pub open spec fn read_back(row: Seq<char>) -> int
    decreases row.len(),
{
    if row.len() == 0 {
        0
    } else {
        10 * read_back(row.drop_last()) + (row.last() as int - 48)
    }
}

proof fn digits_read_back(n: nat)
    ensures
        read_back(digits(n)) == n,
        digits(n).len() > 0,
        digits(n).len() > 1 ==> digits(n)[0] != '0',
        n > 0 ==> digits(n)[0] != '0',
        forall|i: int| 0 <= i < digits(n).len() ==> '0' <= #[trigger] digits(n)[i] <= '9',
    decreases n,
{
    let row = digits(n);
    if n < 10 {
        assert(row.drop_last() =~= Seq::<char>::empty());
        assert(read_back(row.drop_last()) == 0);
    } else {
        digits_read_back(n / 10);
        assert(row.drop_last() =~= digits(n / 10));
    }
}

/// An exit code is written so that it can be read back: in decimal digits, of which the first is no
/// zero but for the code zero, with a minus sign ahead of negative ones alone.
pub proof fn exit_codes_can_be_read_back(code: int)
    ensures
        ({
            let row = decimal(code);
            let bare = if code < 0 {
                row.skip(1)
            } else {
                row
            };
            &&& row.len() > 0
            &&& row[0] == '-' <==> code < 0
            &&& bare.len() > 0
            &&& forall|i: int| 0 <= i < bare.len() ==> '0' <= #[trigger] bare[i] <= '9'
            &&& code != 0 ==> bare[0] != '0'
            &&& code == 0 ==> bare.len() == 1
            &&& code >= 0 ==> read_back(bare) == code
            &&& code < 0 ==> read_back(bare) == -code
        }),
{
    if code < 0 {
        digits_read_back((-code) as nat);
        assert(decimal(code).skip(1) =~= digits((-code) as nat));
    } else {
        digits_read_back(code as nat);
    }
}

/// Written one after the other, the characters of a text come to what they come to when the text is
/// written in two parts; each goes behind the one before it.
pub proof fn text_is_written_in_order(v: TermView, a: Seq<char>, b: Seq<char>, c: char)
    ensures
        typed(v, Seq::empty()) == v,
        typed(v, a.push(c)) == crate::alac::inputted(typed(v, a), c),
        typed(v, a + b) == typed(typed(v, a), b),
        line_started(v).cursor.column == 0,
        line_started(v).cursor.line == crate::alac::new_lined(v).cursor.line,
        line_started(v).lines == crate::alac::new_lined(v).lines,
    decreases b.len(),
{
    assert(a.push(c).drop_last() =~= a);
    if b.len() == 0 {
        assert(a + b =~= a);
    } else {
        assert((a + b).drop_last() =~= a + b.drop_last());
        text_is_written_in_order(v, a, b.drop_last(), c);
    }
}

/// The lines about the end of a running task are written below the output, each from the first
/// column and with the cursor at the start of a new line behind it. Where none is wanted, the
/// emulator is left alone, as it is where there is no running task.
pub proof fn the_end_of_a_task_is_written_below(
    before: Terminal,
    after: Terminal,
    error_code: Option<i32>,
    v: TermView,
    w: TermView,
    told: Seq<EffectView>,
)
    requires
        after.finishes(before, error_code, v, w, told),
    ensures
        before.task is None || before.task->0.status != TaskStatus::Running ==> w == v,
        before.task is Some && before.task->0.status == TaskStatus::Running ==> {
            let task = before.task->0;
            let below = line_started(v);
            let told_line = task_line(task.full_label@, error_code);
            let command = command_line(task.command_label@);
            &&& !task.show_summary && !task.show_command ==> w == v
            &&& task.show_summary && !task.show_command ==> w == line_started(
                typed(below, told_line),
            )
            &&& !task.show_summary && task.show_command ==> w == line_started(
                typed(below, command),
            )
            &&& task.show_summary && task.show_command ==> w == line_started(
                typed(line_started(typed(below, told_line)), command),
            )
        },
{
    if before.task_is_running() {
        let task = before.task->0;
        let lines = lines_to_show(task, error_code);
        reveal_with_fuel(crate::process::typed_lines, 3);
        if lines.len() == 2 {
            assert(lines.drop_last() =~= seq![lines[0]]);
            assert(lines.drop_last().drop_last() =~= Seq::<Seq<char>>::empty());
        } else if lines.len() == 1 {
            assert(lines.drop_last() =~= Seq::<Seq<char>>::empty());
        }
    }
}

/// The terminal of a running task is closed by its end where it is always to be hidden, and on exit
/// code zero where it is to be hidden on success; else it stays. One without a task is closed when
/// its program is gone without a code, and one whose task was over before never. Nothing else is
/// told.
pub proof fn a_terminal_is_closed_when_wanted(
    before: Terminal,
    after: Terminal,
    error_code: Option<i32>,
    v: TermView,
    w: TermView,
    told: Seq<EffectView>,
)
    requires
        after.finishes(before, error_code, v, w, told),
    ensures
        told.len() <= 1,
        told.len() == 1 ==> told[0] == EffectView::Emit(EventView::CloseTerminal),
        before.task is None ==> (told.len() == 1 <==> error_code is None),
        before.task is Some && before.task->0.status != TaskStatus::Running ==> told.len() == 0,
        before.task is Some && before.task->0.status == TaskStatus::Running ==> {
            let hide = before.task->0.hide;
            &&& hide == HideStrategy::Never ==> told.len() == 0
            &&& hide == HideStrategy::Always ==> told.len() == 1
            &&& hide == HideStrategy::OnSuccess ==> (told.len() == 1 <==> error_code == Some(0i32))
        },
{
}

/// Who waits for the end of a task is told its exit code, whatever was told before. The task is
/// over then: completed with the code, successfully where that is zero, and unknown without one.
/// Nothing else of the terminal or of the task changes.
pub proof fn an_end_is_kept_and_passed_on(
    before: Terminal,
    after: Terminal,
    error_code: Option<i32>,
    v: TermView,
    w: TermView,
    told: Seq<EffectView>,
)
    requires
        after.finishes(before, error_code, v, w, told),
    ensures
        after.completion_tx@.len() == before.completion_tx@.len() + 1,
        after.completion_tx@.last() == error_code,
        after.completion_tx@.drop_last() == before.completion_tx@,
        after.events == before.events,
        after.pty_tx == before.pty_tx,
        after.last_content == before.last_content,
        after.matches == before.matches,
        after.selection_head == before.selection_head,
        after.breadcrumb_text == before.breadcrumb_text,
        after.vi_mode_enabled == before.vi_mode_enabled,
        after.task is Some == before.task is Some,
        before.task is Some ==> {
            let task = before.task->0;
            let ended = after.task->0;
            &&& ended.full_label == task.full_label
            &&& ended.label == task.label
            &&& ended.command_label == task.command_label
            &&& ended.id == task.id
            &&& ended.hide == task.hide
            &&& ended.show_summary == task.show_summary
            &&& ended.show_command == task.show_command
            &&& ended.show_rerun == task.show_rerun
            &&& task.status != TaskStatus::Running ==> ended.status == task.status
            &&& task.status == TaskStatus::Running ==> {
                &&& error_code is None ==> ended.status == TaskStatus::Unknown
                &&& error_code == Some(0i32) ==> ended.status == TaskStatus::Completed {
                    success: true,
                }
                &&& error_code is Some && error_code->0 != 0 ==> ended.status
                    == TaskStatus::Completed { success: false }
            }
        },
{
    assert(after.completion_tx@.drop_last() =~= before.completion_tx@);
}

/// What is known of a task that is over stays known: the end of its terminal makes nothing of it
/// unknown but a running one, and whatever was known before, an exit code says how it ended.
pub proof fn what_is_known_of_a_task_stays_known(status: TaskStatus, code: i32)
    ensures
        status.after_task_exit(code).after_terminal_exit() == status.after_task_exit(code),
        status.after_terminal_exit() != TaskStatus::Running,
        status != TaskStatus::Running ==> status.after_terminal_exit() == status,
        status == TaskStatus::Running ==> status.after_terminal_exit() == TaskStatus::Unknown,
        status.after_task_exit(code) == (TaskStatus::Completed { success: true }) <==> code == 0,
        status.after_task_exit(code) == (TaskStatus::Completed { success: false }) <==> code != 0,
{
}

/// An emulator with its cursor on the screen and nothing selected takes any lines, where it has two
/// columns or more: no end of a task is refused then.
pub proof fn ordinary_emulators_take_any_text(
    t: Terminal,
    v: TermView,
    lines: Seq<Seq<char>>,
    error_code: Option<i32>,
)
    requires
        0 <= v.cursor.line < v.screen_lines,
        v.cursor.column < v.columns,
        v.columns >= 2,
        v.selection is None,
    ensures
        crate::process::takes_text(v, lines),
        t.end_can_be_taken(error_code, v),
{
    assert forall|i: int, j: int|
        #![trigger lines[i][j]]
        0 <= i < lines.len() && 0 <= j < lines[i].len() implies v.takes_char(lines[i][j]) by {}
    if t.writes_summary() {
        let shown = lines_to_show(t.task->0, error_code);
        assert forall|i: int, j: int|
            #![trigger shown[i][j]]
            0 <= i < shown.len() && 0 <= j < shown[i].len() implies v.takes_char(shown[i][j]) by {}
    }
}

/// Lines take one line feed ahead of them, and each one at its end and one for each character at
/// most; a selection that is not that close to the end of all lines is not in their way.
pub proof fn lines_take_few_line_feeds(v: TermView, lines: Seq<Seq<char>>, line: Seq<char>)
    ensures
        crate::process::line_feeds(Seq::empty()) == 1,
        crate::process::line_feeds(lines.push(line)) == crate::process::line_feeds(lines)
            + line.len() + 1,
        v.columns >= 2 && 0 <= v.cursor.line < v.screen_lines && v.cursor.column < v.columns
            && v.selection is Some && v.selection->0.start.point.line >= -1_000_000_000
            && v.selection->0.end.point.line >= -1_000_000_000 && crate::process::line_feeds(lines)
            <= 1_000_000_000 ==> crate::process::takes_text(v, lines),
{
    assert(lines.push(line).drop_last() =~= lines);
}

/// Text without wide characters can be appended in a single column too, and where full lines do
/// not go on in the next, any text can.
pub proof fn narrow_emulators_take_narrow_text(v: TermView, lines: Seq<Seq<char>>)
    requires
        0 <= v.cursor.line < v.screen_lines,
        v.cursor.column < v.columns,
        v.selection is None,
        v.mode.bits & 128 == 0 || forall|i: int, j: int|
            #![trigger lines[i][j]]
            0 <= i < lines.len() && 0 <= j < lines[i].len() ==> !crate::alac::is_wide(lines[i][j]),
    ensures
        crate::process::takes_text(v, lines),
{
    assert forall|i: int, j: int|
        #![trigger lines[i][j]]
        0 <= i < lines.len() && 0 <= j < lines[i].len() implies v.takes_char(lines[i][j]) by {}
}

} // verus!
