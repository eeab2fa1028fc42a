//! What a terminal, its emulator and its programs start out with, and the sizes they are given.
use crate::builder::{new_emulator, AlternateScroll, PtyOptions, Surroundings};
use crate::env::{env_map, terminal_env, Env};
use crate::geometry::{Pixels, TerminalBounds};
use crate::grid::{CursorShape, CursorStyle, TermConfig};
use crate::task::{Shell, TaskState};
use crate::terminal::{SelectionPhase, Terminal};
use std::path::PathBuf;
use vstd::prelude::*;

verus! {

/// Of the variables of one name the last counts, and nothing counts that was not given.
pub proof fn the_last_variable_counts(vars: Seq<(String, String)>, i: int, name: Seq<char>)
    ensures
        0 <= i < vars.len() && vars[i].0@ == name && (forall|j: int|
            i < j < vars.len() ==> (#[trigger] vars[j]).0@ != name) ==> env_map(vars).contains_pair(
            name,
            vars[i].1@,
        ),
        (forall|j: int| 0 <= j < vars.len() ==> (#[trigger] vars[j]).0@ != name) ==> !env_map(
            vars,
        ).dom().contains(name),
    decreases vars.len(),
{
    if vars.len() > 0 {
        let ahead = vars.drop_last();
        the_last_variable_counts(ahead, i, name);
        assert forall|j: int| 0 <= j < ahead.len() implies #[trigger] ahead[j] == vars[j] by {}
        if vars.last().0@ != name {
            if 0 <= i && forall|j: int| i < j < vars.len() ==> (#[trigger] vars[j]).0@ != name {
                assert(forall|j: int| i < j < ahead.len() ==> (#[trigger] ahead[j]).0@ != name);
            }
            if forall|j: int| 0 <= j < vars.len() ==> (#[trigger] vars[j]).0@ != name {
                assert(forall|j: int| 0 <= j < ahead.len() ==> (#[trigger] ahead[j]).0@ != name);
            }
        } else {
            assert(vars[vars.len() - 1].0@ == name);
        }
    }
}

/// The language is set for programs where neither the process of the terminal nor the caller has
/// set one, and is left alone otherwise.
pub proof fn the_language_is_set_where_there_is_none(
    given: Map<Seq<char>, Seq<char>>,
    lang_is_set: bool,
    version: Seq<char>,
)
    ensures
        ({
            let env = terminal_env(given, lang_is_set, version);
            let lang = seq!['L', 'A', 'N', 'G'];
            &&& given.dom().contains(lang) ==> env.contains_pair(lang, given[lang])
            &&& !given.dom().contains(lang) && lang_is_set ==> !env.dom().contains(lang)
            &&& !given.dom().contains(lang) && !lang_is_set ==> env.contains_pair(
                lang,
                "en_US.UTF-8"@,
            )
        }),
{
    reveal_strlit("LANG");
    reveal_strlit("ZED_TERM");
    reveal_strlit("TERM_PROGRAM");
    reveal_strlit("TERM");
    reveal_strlit("TERM_PROGRAM_VERSION");
    let lang = seq!['L', 'A', 'N', 'G'];
    assert("LANG"@ =~= lang);
    assert(lang[0] == 'L');
    assert("ZED_TERM"@[0] == 'Z');
    assert("TERM_PROGRAM"@[0] == 'T');
    assert("TERM"@[0] == 'T');
    assert("TERM_PROGRAM_VERSION"@[0] == 'T');
}

/// One can scroll back as far as was asked for, up to a hundred thousand lines; where nothing was
/// asked for, ten thousand; and in the terminal of a task all there is, whatever was asked for.
pub proof fn one_can_scroll_back_as_far_as_asked(asked: Option<usize>, lines: usize)
    ensures
        crate::builder::scrollback(true, asked) == 100_000,
        crate::builder::scrollback(false, None) == 10_000,
        lines <= 100_000 ==> crate::builder::scrollback(false, Some(lines)) == lines,
        lines > 100_000 ==> crate::builder::scrollback(false, Some(lines)) == 100_000,
{
}

/// A pty runs the program that was asked for, with its arguments and in its directory: the user's
/// own shell where none was asked for, unless another stands for it, and the home directory where
/// none was given. What the program wrote last is read to the end.
pub proof fn a_pty_runs_what_was_asked_for(
    options: PtyOptions,
    working_directory: Option<PathBuf>,
    shell: Shell,
    env: Env,
    surroundings: Surroundings,
)
    requires
        options.is_for(working_directory, shell, env, surroundings),
    ensures
        options.drain_on_exit,
        options.working_directory is Some,
        working_directory is Some ==> options.working_directory == working_directory,
        working_directory is None ==> options.working_directory == Some(surroundings.home),
        options.env@.contains_pair("TERM"@, "xterm-256color"@),
        options.env@.contains_pair("TERM_PROGRAM_VERSION"@, surroundings.version@),
        !surroundings.lang_is_set && !env@.dom().contains("LANG"@) ==> options.env@.contains_pair(
            "LANG"@,
            "en_US.UTF-8"@,
        ),
        surroundings.lang_is_set && !env@.dom().contains("LANG"@)
            ==> !options.env@.dom().contains("LANG"@),
        env@.dom().contains("LANG"@) ==> options.env@.contains_pair("LANG"@, env@["LANG"@]),
        match shell {
            Shell::System => match surroundings.system_shell {
                Some(program) => options.shell is Some && options.shell->0.program@ == program@
                    && options.shell->0.args@.len() == 0,
                None => options.shell is None,
            },
            Shell::Program(program) => options.shell is Some && options.shell->0.program@
                == program@ && options.shell->0.args@.len() == 0,
            Shell::WithArguments { program, args, .. } => {
                &&& options.shell is Some
                &&& options.shell->0.program@ == program@
                &&& options.shell->0.args@.len() == args@.len()
                &&& forall|i: int|
                    0 <= i < args@.len() ==> (#[trigger] options.shell->0.args@[i])@ == args@[i]@
            },
        },
{
    crate::laws::programs_know_their_terminal(
        env@,
        surroundings.lang_is_set,
        surroundings.version@,
        "LANG"@,
    );
    the_language_is_set_where_there_is_none(
        env@,
        surroundings.lang_is_set,
        surroundings.version@,
    );
    reveal_strlit("LANG");
    assert("LANG"@ =~= seq!['L', 'A', 'N', 'G']);
    if options.shell is Some {
        let texts = crate::text::texts(options.shell->0.args@);
        assert(texts.len() == options.shell->0.args@.len());
        if let Shell::WithArguments { program, args, .. } = shell {
            assert forall|i: int| 0 <= i < args@.len() implies (
            #[trigger] options.shell->0.args@[i])@ == args@[i]@ by {
                assert(texts[i] == options.shell->0.args@[i]@);
                assert(crate::text::texts(args@)[i] == args@[i]@);
            }
        }
    }
}

/// A terminal has the task, the cursor and the title that it was given, and takes no title for one
/// that the system sends for the shell it runs. Only a shell with arguments comes with a title.
pub proof fn a_terminal_is_made_as_asked(
    t: Terminal,
    python_venv_directory: Option<PathBuf>,
    task: Option<TaskState>,
    shell: Shell,
    cursor_style: CursorStyle,
    asked: Option<usize>,
    is_ssh_terminal: bool,
    surroundings: Surroundings,
)
    requires
        t.is_of(
            python_venv_directory,
            task,
            shell,
            cursor_style,
            asked,
            is_ssh_terminal,
            surroundings,
        ),
    ensures
        t.task == task,
        t.is_ssh_terminal == is_ssh_terminal,
        t.python_venv_directory == python_venv_directory,
        t.term_config.default_cursor_style == cursor_style,
        t.term_config.scrolling_history <= 100_000,
        task is Some ==> t.term_config.scrolling_history == 100_000,
        t.last_mouse_move_time == surroundings.now,
        !surroundings.shell_sends_title ==> t.shell_program is None,
        match shell {
            Shell::System => t.title_override is None && (surroundings.shell_sends_title ==> (
            surroundings.system_shell is Some ==> t.shell_program is Some && t.shell_program->0@
                == surroundings.system_shell->0@)),
            Shell::Program(program) => t.title_override is None && (surroundings.shell_sends_title
                ==> t.shell_program is Some && t.shell_program->0@ == program@),
            Shell::WithArguments { program, title_override, .. } => {
                &&& t.title_override is Some == title_override is Some
                &&& title_override is Some ==> t.title_override->0@ == title_override->0@
                &&& surroundings.shell_sends_title ==> t.shell_program is Some
                    && t.shell_program->0@ == program@
            },
        },
{
}

/// In a new terminal nothing waits, nothing was sent, nothing is selected and nothing is shown; it
/// is not in vi mode, the wheel has not moved, and no link was looked for.
pub proof fn a_new_terminal_is_empty(t: Terminal)
    requires
        t.is_new(),
    ensures
        t.queue().len() == 0,
        t.pty_tx@.len() == 0,
        t.completion_tx@.len() == 0,
        t.matches@.len() == 0,
        t.last_mouse is None,
        t.selection_head is None,
        t.selection_phase == SelectionPhase::Ended,
        !t.vi_mode_enabled,
        t.breadcrumb_text@.len() == 0,
        t.pty_info.current is None,
        t.next_link_id == 0,
        t.scroll_px == (Pixels { bits: 0, whole: 0 }),
        t.last_hyperlink_search_position is None,
        t.last_content.cells@.len() == 0,
        t.last_content.display_offset == 0,
        t.last_content.selection is None,
        t.last_content.selection_text is None,
        t.last_content.last_hovered_word is None,
        t.last_content.cursor.shape == CursorShape::Block,
        t.last_content.cursor_char == '\0',
        t.last_content.cursor.point.line == 0,
        t.last_content.cursor.point.column == 0,
        !t.last_content.scrolled_to_top,
        !t.last_content.scrolled_to_bottom,
        t.last_content.terminal_bounds.lines == 6,
        t.last_content.terminal_bounds.columns == 100,
        t.last_content.mode.bits == 163969,
{
}

/// A new emulator has alternate scrolling on or off as asked, and differs in nothing else.
pub proof fn alternate_scrolling_is_as_asked(config: TermConfig)
    requires
        crate::alac::fresh(config, 100, 6).mode.bits == 163969,
    ensures
        ({
            let on = new_emulator(config, AlternateScroll::On);
            let off = new_emulator(config, AlternateScroll::Off);
            &&& on == crate::alac::fresh(config, 100, 6)
            &&& on.mode.bits & 32768 != 0
            &&& off.mode.bits & 32768 == 0
            &&& off.mode.bits | 32768 == on.mode.bits
            &&& off.lines == on.lines
            &&& off.columns == on.columns
            &&& off.screen_lines == on.screen_lines
            &&& off.history == on.history
            &&& off.cursor == on.cursor
            &&& off.selection == on.selection
            &&& off.limit == on.limit
        }),
{
    assert(163969u32 & 32768 != 0 && (163969u32 & !32768u32) & 32768 == 0 && (163969u32
        & !32768u32) | 32768 == 163969u32) by (bit_vector);
}

/// Lengths are ordered as the numbers they stand for: positive ones by their bits, negative ones
/// the other way round, and all negative ones before the positive. A length that is neither nothing
/// nor infinite nor no number holds itself once.
pub proof fn lengths_are_ordered(p: Pixels, q: Pixels)
    ensures
        p.bits < 0x8000_0000 && q.bits < 0x8000_0000 ==> (p.rank() < q.rank() <==> p.bits < q.bits),
        p.bits >= 0x8000_0000 && q.bits >= 0x8000_0000 ==> (p.rank() < q.rank() <==> q.bits
            < p.bits),
        p.bits >= 0x8000_0000 && q.bits < 0x8000_0000 ==> p.rank() < q.rank(),
        p.spec_held_by_itself() <= 1,
        1 <= p.bits < 0x7f80_0000 || 0x8000_0001 <= p.bits < 0xff80_0000 <==>
            p.spec_held_by_itself() == 1,
{
}

/// Bounds that hold no cell are made to hold one, and others stay: a height below a line becomes
/// the line, a width below a cell the cell, unless that is nothing or no number. Where they lie and
/// how large the cells are is kept.
pub proof fn bounds_hold_a_cell(b: TerminalBounds)
    ensures
        ({
            let c = b.spec_at_least_one_cell();
            &&& c.cell_width == b.cell_width
            &&& c.line_height == b.line_height
            &&& c.bounds.origin == b.bounds.origin
            &&& c.bounds.size.height.rank() >= b.line_height.rank()
            &&& c.bounds.size.width.rank() >= b.cell_width.rank()
            &&& b.bounds.size.height.rank() >= b.line_height.rank() ==> c.bounds.size.height
                == b.bounds.size.height && c.lines == b.lines
            &&& b.bounds.size.width.rank() >= b.cell_width.rank() ==> c.bounds.size.width
                == b.bounds.size.width && c.columns == b.columns
            &&& b.bounds.size.height.rank() < b.line_height.rank() ==> c.bounds.size.height
                == b.line_height
            &&& b.bounds.size.width.rank() < b.cell_width.rank() ==> c.bounds.size.width
                == b.cell_width
            &&& b.bounds.size.height.rank() < b.line_height.rank() && 1 <= b.line_height.bits
                < 0x7f80_0000 ==> c.lines == 1
            &&& b.bounds.size.width.rank() < b.cell_width.rank() && 1 <= b.cell_width.bits
                < 0x7f80_0000 ==> c.columns == 1
            &&& b.bounds.size.height.rank() < b.line_height.rank() && (b.line_height.bits == 0
                || 0x7f80_0000 <= b.line_height.bits <= 0x8000_0000) ==> c.lines == 0
            &&& b.bounds.size.width.rank() < b.cell_width.rank() && (b.cell_width.bits == 0
                || 0x7f80_0000 <= b.cell_width.bits <= 0x8000_0000) ==> c.columns == 0
        }),
{
}

/// A pty is told how many lines and columns there are, and how high and wide a cell is in whole
/// pixels, each where it can be counted in 16 bits; a negative length counts as none and a longer
/// one as the longest.
pub proof fn a_pty_is_told_its_size(b: TerminalBounds)
    ensures
        ({
            let size = b.window_size();
            &&& b.lines < 65536 ==> size.num_lines == b.lines
            &&& b.columns < 65536 ==> size.num_cols == b.columns
            &&& 0 <= b.line_height.whole < 65536 ==> size.cell_height == b.line_height.whole
            &&& 0 <= b.cell_width.whole < 65536 ==> size.cell_width == b.cell_width.whole
            &&& b.line_height.whole < 0 ==> size.cell_height == 0
            &&& b.cell_width.whole < 0 ==> size.cell_width == 0
            &&& b.line_height.whole > 65535 ==> size.cell_height == 65535
            &&& b.cell_width.whole > 65535 ==> size.cell_width == 65535
            &&& size.num_lines == b.lines % 65536
            &&& size.num_cols == b.columns % 65536
        }),
{
}

} // verus!
