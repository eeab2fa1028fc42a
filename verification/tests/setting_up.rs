use futures::channel::mpsc::unbounded;
use std::path::PathBuf;
use terminal::alac::ZedListener;
use terminal::builder::{
    scrolling_history, AlternateScroll, PtyOptions, Surroundings, TerminalBuilder,
};
use terminal::env::Env;
use terminal::error::{directory_text, TerminalError};
use terminal::grid::{CursorShape, CursorStyle};
use terminal::task::{HideStrategy, Shell, TaskId, TaskState, TaskStatus};
use terminal::terminal::{ProcessInfo, PtyProcessInfo, Terminal};

fn surroundings(lang_is_set: bool) -> Surroundings {
    Surroundings {
        lang_is_set,
        version: "1.2.3".to_owned(),
        system_shell: None,
        shell_sends_title: false,
        home: PathBuf::from("/home/user"),
        now: 0,
    }
}

fn build(
    directory: Option<&str>,
    task: Option<TaskState>,
    shell: Shell,
    env: Env,
    is_ssh: bool,
    surroundings: Surroundings,
) -> (Terminal, PtyOptions) {
    let (sender, _) = unbounded();
    let builder = TerminalBuilder::new(
        directory.map(PathBuf::from),
        Some(PathBuf::from("/venv")),
        task,
        shell,
        env,
        CursorStyle { shape: CursorShape::Block, blinking: false },
        AlternateScroll::On,
        Some(500_000),
        is_ssh,
        surroundings,
        ZedListener(sender),
    );
    (builder.terminal, builder.pty_options)
}

fn var<'a>(env: &'a Env, name: &str) -> Option<&'a str> {
    let found: Vec<&str> = env
        .vars
        .iter()
        .filter(|(n, _)| n == name)
        .map(|(_, value)| value.as_str())
        .collect();
    assert!(found.len() <= 1);
    found.first().copied()
}

fn with_arguments(title: Option<&str>) -> Shell {
    Shell::WithArguments {
        program: "bash".to_owned(),
        args: vec!["-l".to_owned(), "-c".to_owned()],
        title_override: title.map(|title| title.to_owned()),
    }
}

fn short(text: &str, max: usize) -> String {
    text.chars().take(max).collect()
}

#[test]
fn programs_are_told_their_terminal() {
    let env = Env::of(vec![
        ("TERM".to_owned(), "dumb".to_owned()),
        ("PATH".to_owned(), "/bin".to_owned()),
        ("PATH".to_owned(), "/usr/bin".to_owned()),
    ]);
    assert_eq!(env.vars.len(), 2);
    let (_, options) = build(None, None, Shell::System, env, false, surroundings(false));
    assert_eq!(var(&options.env, "TERM"), Some("xterm-256color"));
    assert_eq!(var(&options.env, "TERM_PROGRAM"), Some("zed"));
    assert_eq!(var(&options.env, "TERM_PROGRAM_VERSION"), Some("1.2.3"));
    assert_eq!(var(&options.env, "ZED_TERM"), Some("true"));
    assert_eq!(var(&options.env, "PATH"), Some("/usr/bin"));
    assert_eq!(var(&options.env, "LANG"), Some("en_US.UTF-8"));
    assert!(options.drain_on_exit);
}

#[test]
fn a_language_is_set_only_where_there_is_none() {
    let (_, options) = build(None, None, Shell::System, Env::new(), false, surroundings(true));
    assert_eq!(var(&options.env, "LANG"), None);
    let env = Env::of(vec![("LANG".to_owned(), "de".to_owned())]);
    assert!(env.contains("LANG") && !env.contains("lang"));
    let (_, options) = build(None, None, Shell::System, env, false, surroundings(false));
    assert_eq!(var(&options.env, "LANG"), Some("de"));
}

#[test]
fn a_pty_is_given_its_shell_and_directory() {
    let (terminal, options) =
        build(None, None, Shell::System, Env::new(), true, surroundings(true));
    assert!(options.shell.is_none());
    assert_eq!(options.working_directory, Some(PathBuf::from("/home/user")));
    assert!(terminal.is_ssh_terminal);
    assert!(terminal.title_override.is_none());
    assert_eq!(terminal.python_venv_directory, Some(PathBuf::from("/venv")));
    assert_eq!(terminal.term_config.scrolling_history, 100_000);

    let system = Surroundings { system_shell: Some("pwsh".to_owned()), ..surroundings(true) };
    let (_, options) = build(Some("/work"), None, Shell::System, Env::new(), false, system);
    assert_eq!(options.shell.unwrap().program, "pwsh");
    assert_eq!(options.working_directory, Some(PathBuf::from("/work")));

    let shell = Shell::Program("fish".to_owned());
    let (terminal, options) = build(None, None, shell, Env::new(), false, surroundings(true));
    let pty_shell = options.shell.unwrap();
    assert_eq!(pty_shell.program, "fish");
    assert!(pty_shell.args.is_empty());
    assert!(terminal.shell_program.is_none());

    let titled = Surroundings { shell_sends_title: true, ..surroundings(true) };
    let (terminal, options) =
        build(None, None, with_arguments(Some("box")), Env::new(), false, titled);
    let pty_shell = options.shell.unwrap();
    assert_eq!(pty_shell.program, "bash");
    assert_eq!(pty_shell.args, vec!["-l", "-c"]);
    assert_eq!(terminal.title_override.as_deref(), Some("box"));
    assert_eq!(terminal.shell_program.as_deref(), Some("bash"));
}

#[test]
fn the_scrollback_is_limited() {
    assert_eq!(scrolling_history(false, None), 10_000);
    assert_eq!(scrolling_history(false, Some(5)), 5);
    assert_eq!(scrolling_history(false, Some(100_001)), 100_000);
    assert_eq!(scrolling_history(true, Some(5)), 100_000);
}

#[test]
fn failures_are_told() {
    let error = TerminalError {
        directory: Some(PathBuf::from("/work")),
        shell: with_arguments(Some("box")),
        source: "no pty".to_owned(),
    };
    assert_eq!(error.fmt_directory(), "/work");
    assert_eq!(error.fmt_shell(), "bash -l -c (box)");
    assert_eq!(
        error.message(),
        "Working directory: /work Shell command: `bash -l -c (box)`, IOError: no pty"
    );
    let fmt = |shell: Shell| {
        TerminalError { directory: None, shell, source: String::new() }.fmt_shell()
    };
    assert_eq!(fmt(Shell::System), "<system defined shell>");
    assert_eq!(fmt(Shell::Program("fish".to_owned())), "fish");
    assert_eq!(fmt(with_arguments(None)), "bash -l -c");
}

#[test]
fn a_missing_directory_is_told_as_the_home_directory() {
    assert_eq!(
        directory_text(&None, Some(PathBuf::from("/home/user"))),
        "<none specified, using home directory> /home/user"
    );
    assert_eq!(directory_text(&None, None), "<none specified, could not find home directory>");
    assert_eq!(directory_text(&Some(PathBuf::from("/a")), None), "/a");
    let error =
        TerminalError { directory: None, shell: Shell::System, source: String::new() };
    assert!(error.fmt_directory().starts_with("<none specified, "));
}

fn process(argv: Vec<&str>) -> PtyProcessInfo {
    PtyProcessInfo {
        current: Some(ProcessInfo {
            name: "vim".to_owned(),
            cwd: PathBuf::from("/home/user/a-directory-with-a-long-name"),
            argv: argv.into_iter().map(|arg| arg.to_owned()).collect(),
        }),
    }
}

#[test]
fn titles_come_from_what_runs() {
    let (mut terminal, _) =
        build(None, None, Shell::System, Env::new(), false, surroundings(true));
    assert_eq!(terminal.title(true, short), "Terminal");
    terminal.pty_info = process(vec!["vim", "a.rs", "b.rs"]);
    assert_eq!(
        terminal.title(false, short),
        "a-directory-with-a-long-name — vim a.rs b.rs"
    );
    assert_eq!(terminal.title(true, short), "a-directory-with-a-long-n — vim a.rs b.rs");
    terminal.pty_info = process(vec![]);
    assert_eq!(terminal.title(false, short), "a-directory-with-a-long-name — vim");
    terminal.pty_info = process(vec!["vim"]);
    assert_eq!(terminal.title(false, short), "a-directory-with-a-long-name — vim ");
    terminal.pty_info.current.as_mut().unwrap().cwd = PathBuf::from("/");
    assert_eq!(terminal.title(false, short), " — vim ");

    let long = "a title that is longer than others";
    let (mut terminal, _) =
        build(None, None, with_arguments(Some(long)), Env::new(), false, surroundings(true));
    terminal.pty_info = process(vec![]);
    assert_eq!(terminal.title(true, short), long);
}

#[test]
fn a_task_names_its_terminal() {
    let task = TaskState {
        id: TaskId("id".to_owned()),
        full_label: "the full label".to_owned(),
        label: "a label that is longer than others".to_owned(),
        command_label: String::new(),
        status: TaskStatus::Running,
        hide: HideStrategy::Never,
        show_summary: false,
        show_command: false,
        show_rerun: false,
    };
    let (terminal, _) = build(
        None,
        Some(task),
        with_arguments(Some("box")),
        Env::new(),
        false,
        surroundings(true),
    );
    assert_eq!(terminal.title(false, short), "the full label");
    assert_eq!(terminal.title(true, short), "a label that is longer th");
}

#[test]
fn a_remote_terminal_has_no_directory() {
    let (mut terminal, _) =
        build(None, None, Shell::System, Env::new(), true, surroundings(true));
    terminal.pty_info = process(vec![]);
    assert_eq!(terminal.working_directory(), None);
    assert!(terminal.client_side_working_directory().is_some());
    terminal.is_ssh_terminal = false;
    assert_eq!(
        terminal.working_directory(),
        Some(PathBuf::from("/home/user/a-directory-with-a-long-name"))
    );
    terminal.pty_info = PtyProcessInfo { current: None };
    assert_eq!(terminal.working_directory(), None);
}
