//! Setting a terminal up.
use crate::alac;
use crate::alac::ZedListener;
use crate::batch::Pump;
use crate::content::TerminalContent;
use crate::env::Env;
use crate::events::{InternalEventView, MsgView, Notifier};
use crate::geometry::{Pixels, TerminalBounds};
use crate::grid::{CursorStyle, TermConfig, TermMode, TermView, ALTERNATE_SCROLL};
use crate::task::{Shell, TaskState};
use crate::terminal::{PtyProcessInfo, SelectionPhase, Terminal};
use alacritty_terminal::term::Term;
use std::collections::VecDeque;
use std::path::PathBuf;
use vstd::prelude::*;

verus! {

/// How far one can scroll back where nothing is said about it.
pub const DEFAULT_SCROLL_HISTORY_LINES: usize = 10_000;

/// How far one can scroll back at most.
pub const MAX_SCROLL_HISTORY_LINES: usize = 100_000;

/// Whether the wheel sends arrow keys on the alternate screen.
#[derive(Clone, Copy, Debug, PartialEq, Eq, Structural)]
pub enum AlternateScroll {
    On,
    Off,
}

/// A program and its arguments.
pub struct PtyShell {
    pub program: String,
    pub args: Vec<String>,
}

/// What a pty is started with.
pub struct PtyOptions {
    /// The program, where it is not the user's own shell.
    pub shell: Option<PtyShell>,
    pub working_directory: Option<PathBuf>,
    /// Whether what the program wrote last is still read once it has ended.
    pub drain_on_exit: bool,
    pub env: Env,
}

/// What the surroundings of a terminal contribute to setting it up.
pub struct Surroundings {
    /// Whether the process has a language set in its environment.
    pub lang_is_set: bool,
    /// The version of the application.
    pub version: String,
    /// The program that stands for the system's shell, where a pty does not know it by itself.
    pub system_shell: Option<String>,
    /// Whether the system sends the path of the shell as a title.
    pub shell_sends_title: bool,
    /// The user's home directory.
    pub home: PathBuf,
    /// The time.
    pub now: u64,
}

/// The program of a shell.
pub open spec fn program_of(shell: Shell, system_shell: Option<String>) -> Option<Seq<char>> {
    match shell {
        Shell::System => crate::content::optional_text(system_shell),
        Shell::Program(program) => Some(program@),
        Shell::WithArguments { program, .. } => Some(program@),
    }
}

/// The arguments of a shell.
pub open spec fn args_of(shell: Shell) -> Seq<Seq<char>> {
    match shell {
        Shell::WithArguments { args, .. } => crate::text::texts(args@),
        _ => Seq::empty(),
    }
}

/// The title that a shell comes with.
pub open spec fn title_of(shell: Shell) -> Option<Seq<char>> {
    match shell {
        Shell::WithArguments { title_override, .. } => crate::content::optional_text(
            title_override,
        ),
        _ => None,
    }
}

/// How far one can scroll back: a task may write a lot, and is given all there is.
pub open spec fn scrollback(has_task: bool, max_scroll_history_lines: Option<usize>) -> int {
    let given = match max_scroll_history_lines {
        Some(lines) => lines,
        None => DEFAULT_SCROLL_HISTORY_LINES,
    };
    if has_task {
        MAX_SCROLL_HISTORY_LINES as int
    } else {
        crate::grid::smaller(given as int, MAX_SCROLL_HISTORY_LINES as int)
    }
}

/// The emulator of a new terminal.
pub open spec fn new_emulator(config: TermConfig, alternate_scroll: AlternateScroll) -> TermView {
    let bounds = TerminalBounds::unlaid();
    let v = crate::alac::fresh(config, bounds.columns as nat, bounds.lines as nat);
    match alternate_scroll {
        AlternateScroll::On => v,
        AlternateScroll::Off => TermView {
            mode: TermMode { bits: v.mode.bits & !ALTERNATE_SCROLL },
            ..v
        },
    }
}

/// How far one can scroll back.
pub fn scrolling_history(has_task: bool, max_scroll_history_lines: Option<usize>) -> (n: usize)
    ensures
        n == scrollback(has_task, max_scroll_history_lines),
        n <= MAX_SCROLL_HISTORY_LINES,
{
    if has_task {
        MAX_SCROLL_HISTORY_LINES
    } else {
        let given: usize = match max_scroll_history_lines {
            Some(lines) => lines,
            None => DEFAULT_SCROLL_HISTORY_LINES,
        };
        if given < MAX_SCROLL_HISTORY_LINES {
            given
        } else {
            MAX_SCROLL_HISTORY_LINES
        }
    }
}

/// A shell taken apart.
struct ShellParams {
    program: String,
    args: Option<Vec<String>>,
    title_override: Option<String>,
}

fn shell_params(shell: Shell, system_shell: Option<String>) -> (params: Option<ShellParams>)
    ensures
        params is Some == program_of(shell, system_shell) is Some,
        params is Some ==> {
            &&& program_of(shell, system_shell) == Some(params->0.program@)
            &&& args_of(shell) == (match params->0.args {
                Some(args) => crate::text::texts(args@),
                None => Seq::<Seq<char>>::empty(),
            })
            &&& title_of(shell) == crate::content::optional_text(params->0.title_override)
        },
        params is None ==> title_of(shell) is None,
{
    match shell {
        Shell::System => match system_shell {
            Some(program) => Some(ShellParams { program, args: None, title_override: None }),
            None => None,
        },
        Shell::Program(program) => Some(ShellParams { program, args: None, title_override: None }),
        Shell::WithArguments { program, args, title_override } => Some(
            ShellParams { program, args: Some(args), title_override },
        ),
    }
}

impl PtyOptions {
    /// Whether a pty is started with what the caller and the surroundings have given.
    pub open spec fn is_for(
        self,
        working_directory: Option<PathBuf>,
        shell: Shell,
        env: Env,
        surroundings: Surroundings,
    ) -> bool {
        &&& self.shell is Some == program_of(shell, surroundings.system_shell) is Some
        &&& self.shell is Some ==> {
            &&& program_of(shell, surroundings.system_shell) == Some(self.shell->0.program@)
            &&& crate::text::texts(self.shell->0.args@) == args_of(shell)
        }
        &&& self.working_directory == Some(
            match working_directory {
                Some(dir) => dir,
                None => surroundings.home,
            },
        )
        &&& self.drain_on_exit
        &&& self.env.well_formed()
        &&& self.env@ == crate::env::terminal_env(
            env@,
            surroundings.lang_is_set,
            surroundings.version@,
        )
    }
}

impl Terminal {
    /// Whether the terminal has just been made: nothing waits, nothing is shown, nothing is
    /// selected.
    pub open spec fn is_new(self) -> bool {
        &&& self.pty_tx@ == Seq::<MsgView>::empty()
        &&& self.completion_tx@ == Seq::<Option<i32>>::empty()
        &&& self.queue() == Seq::<InternalEventView>::empty()
        &&& self.last_mouse is None
        &&& self.matches@.len() == 0
        &&& self.last_content.is_empty_content()
        &&& self.selection_head is None
        &&& self.breadcrumb_text@ == Seq::<char>::empty()
        &&& self.pty_info.current is None
        &&& self.scroll_px == Pixels::spec_zero()
        &&& self.next_link_id == 0
        &&& self.selection_phase == SelectionPhase::Ended
        &&& !self.vi_mode_enabled
        &&& self.last_hyperlink_search_position is None
    }

    /// Whether the terminal has been made of what the caller and the surroundings have given.
    pub open spec fn is_of(
        self,
        python_venv_directory: Option<PathBuf>,
        task: Option<TaskState>,
        shell: Shell,
        cursor_style: CursorStyle,
        max_scroll_history_lines: Option<usize>,
        is_ssh_terminal: bool,
        surroundings: Surroundings,
    ) -> bool {
        &&& self.task == task
        &&& self.term_config.scrolling_history == scrollback(
            task is Some,
            max_scroll_history_lines,
        )
        &&& self.term_config.default_cursor_style == cursor_style
        &&& crate::content::optional_text(self.title_override) == title_of(shell)
        &&& self.python_venv_directory == python_venv_directory
        &&& self.is_ssh_terminal == is_ssh_terminal
        &&& self.last_mouse_move_time == surroundings.now
        &&& crate::content::optional_text(self.shell_program) == (
        if surroundings.shell_sends_title {
            program_of(shell, surroundings.system_shell)
        } else {
            None
        })
    }
}

/// A terminal that is about to be connected to a pty: the terminal, its emulator, and what the pty
/// is to be started with.
pub struct TerminalBuilder {
    pub terminal: Terminal,
    pub term: Term<ZedListener>,
    pub pty_options: PtyOptions,
}

impl TerminalBuilder {
    /// Sets a terminal up. The emulator tells `listener` what happens in it.
    pub fn new(
        working_directory: Option<PathBuf>,
        python_venv_directory: Option<PathBuf>,
        task: Option<TaskState>,
        shell: Shell,
        env: Env,
        cursor_style: CursorStyle,
        alternate_scroll: AlternateScroll,
        max_scroll_history_lines: Option<usize>,
        is_ssh_terminal: bool,
        surroundings: Surroundings,
        listener: ZedListener,
    ) -> (builder: TerminalBuilder)
        requires
            env.well_formed(),
        ensures
            builder.pty_options.is_for(working_directory, shell, env, surroundings),
            builder.terminal.is_new(),
            builder.terminal.is_of(
                python_venv_directory,
                task,
                shell,
                cursor_style,
                max_scroll_history_lines,
                is_ssh_terminal,
                surroundings,
            ),
            alac::term_view(builder.term) == new_emulator(
                builder.terminal.term_config,
                alternate_scroll,
            ),
            builder.terminal.vi_agrees(alac::term_view(builder.term)),
            builder.terminal.term_config.is_limited(),
            alac::term_view(builder.term).is_limited(),
    {
        let mut env = env;
        env.set_up(surroundings.lang_is_set, surroundings.version.as_str());

        let (pty_shell, title_override, shell_program) = match shell_params(
            shell,
            surroundings.system_shell,
        ) {
            Some(params) => {
                let shell_program = if surroundings.shell_sends_title {
                    Some(params.program.clone())
                } else {
                    None
                };
                let args: Vec<String> = match params.args {
                    Some(args) => args,
                    None => Vec::new(),
                };
                assert(crate::text::texts(args@) =~= args_of(shell));
                (
                    Some(PtyShell { program: params.program, args }),
                    params.title_override,
                    shell_program,
                )
            },
            None => (None, None, None),
        };
        let pty_options = PtyOptions {
            shell: pty_shell,
            working_directory: Some(
                match working_directory {
                    Some(dir) => dir,
                    None => surroundings.home,
                },
            ),
            drain_on_exit: true,
            env,
        };

        let config = TermConfig {
            scrolling_history: scrolling_history(task.is_some(), max_scroll_history_lines),
            default_cursor_style: cursor_style,
        };
        let bounds = TerminalBounds::default();
        let mut term = alac::new_term(config, &bounds, listener);

        // The emulator starts with alternate scrolling on.
        if alternate_scroll == AlternateScroll::Off {
            alac::unset_alternate_scroll(&mut term);
        }

        assert(163969u32 & 65536 != 65536) by (bit_vector);
        assert((163969u32 & !32768u32) & 65536 != 65536) by (bit_vector);
        let terminal = Terminal {
            pty_tx: Notifier::new(),
            completion_tx: Vec::new(),
            term_config: config,
            events: VecDeque::new(),
            last_mouse: None,
            matches: Vec::new(),
            last_content: TerminalContent::default(),
            selection_head: None,
            breadcrumb_text: String::new(),
            pty_info: PtyProcessInfo { current: None },
            title_override,
            python_venv_directory,
            scroll_px: Pixels::zero(),
            next_link_id: 0,
            selection_phase: SelectionPhase::Ended,
            task,
            vi_mode_enabled: false,
            is_ssh_terminal,
            last_mouse_move_time: surroundings.now,
            last_hyperlink_search_position: None,
            shell_program,
        };
        assert(terminal.queue() =~= Seq::<InternalEventView>::empty());
        TerminalBuilder { terminal, term, pty_options }
    }

    /// Hands the terminal out, together with its emulator and the delivery of that one's events,
    /// which has yet to begin.
    pub fn subscribe(self) -> (subscribed: (Terminal, Term<ZedListener>, Pump))
        ensures
            subscribed.0 == self.terminal,
            subscribed.1 == self.term,
            subscribed.2 == Pump::Waiting,
    {
        (self.terminal, self.term, Pump::Waiting)
    }
}

} // verus!
