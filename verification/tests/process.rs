use alacritty_terminal::event::Event as AlacTermEvent;
use alacritty_terminal::event::WindowSize;
use alacritty_terminal::index::{Column, Line, Point, Side};
use alacritty_terminal::selection::{Selection, SelectionType};
use alacritty_terminal::term::ClipboardType;
use alacritty_terminal::term::Term;
use alacritty_terminal::vte::ansi::Processor;
use alacritty_terminal::vte::ansi::Rgb as AlacRgb;
use futures::channel::mpsc::unbounded;
use std::path::PathBuf;
use std::sync::Arc;
use terminal::alac::ZedListener;
use terminal::builder::{AlternateScroll, Surroundings, TerminalBuilder};
use terminal::color::{requested_color, Color, Hsla, RequestedColor, Theme};
use terminal::env::Env;
use terminal::events::{Context, Msg};
use terminal::geometry::{Bounds, Pixels, Size, TerminalBounds};
use terminal::grid::{CursorShape, CursorStyle, Rgb};
use terminal::process::{append_text_to_term, Circumstances};
use terminal::task::{
    task_summary, HideStrategy, Shell, TaskId, TaskState, TaskStatus,
};
use terminal::terminal::{Completion, Terminal};

fn build(
    task: Option<TaskState>,
    shell: Shell,
    shell_sends_title: bool,
) -> (Terminal, Term<ZedListener>) {
    let (sender, _) = unbounded();
    let (terminal, term, _) = TerminalBuilder::new(
        None,
        None,
        task,
        shell,
        Env::new(),
        CursorStyle { shape: CursorShape::Block, blinking: true },
        AlternateScroll::On,
        None,
        false,
        Surroundings {
            lang_is_set: true,
            version: "1".to_owned(),
            system_shell: None,
            shell_sends_title,
            home: PathBuf::from("/"),
            now: 0,
        },
        ZedListener(sender),
    )
    .subscribe();
    (terminal, term)
}

fn task(hide: HideStrategy, show_summary: bool, show_command: bool) -> TaskState {
    TaskState {
        id: TaskId("id".to_owned()),
        full_label: "cargo\r\nbuild\n--all".to_owned(),
        label: "build".to_owned(),
        command_label: "cargo build".to_owned(),
        status: TaskStatus::Running,
        hide,
        show_summary,
        show_command,
        show_rerun: false,
    }
}

fn told(cx: &mut Context) -> String {
    let effects = std::mem::take(&mut cx.effects);
    format!("{:?}", effects)
}

fn text(terminal: &Terminal, term: &Term<ZedListener>) -> String {
    terminal.try_get_content(term).unwrap().trim_end().to_owned()
}

fn quiet() -> Circumstances {
    Circumstances { clipboard: None, process_changed: false }
}

/// Tells themed colours by their hue, and fixed ones by their channels.
fn to_rgb(color: Color) -> Rgb {
    match color {
        Color::Themed(hsla) => Rgb { r: hsla.h as u8, g: 1, b: 2 },
        Color::Fixed(rgba) => Rgb { r: rgba.r, g: rgba.g, b: rgba.b },
    }
}

fn take_with(
    terminal: &mut Terminal,
    term: &mut Term<ZedListener>,
    event: AlacTermEvent,
    circumstances: Circumstances,
) -> String {
    let mut cx = Context::new();
    assert!(terminal.try_process_event(event, circumstances, &theme(), to_rgb, term, &mut cx));
    told(&mut cx)
}

fn take(terminal: &mut Terminal, term: &mut Term<ZedListener>, event: AlacTermEvent) -> String {
    take_with(terminal, term, event, quiet())
}

#[test]
fn a_status_changes_once_the_task_ends() {
    let mut status = TaskStatus::Running;
    status.register_terminal_exit();
    assert_eq!(status, TaskStatus::Unknown);
    status.register_task_exit(0);
    assert_eq!(status, TaskStatus::Completed { success: true });
    status.register_terminal_exit();
    assert_eq!(status, TaskStatus::Completed { success: true });
    status.register_task_exit(-1);
    assert_eq!(status, TaskStatus::Completed { success: false });
}

#[test]
fn summaries_tell_how_a_task_ended() {
    let task = task(HideStrategy::Never, true, true);
    assert_eq!(
        task_summary(&task, Some(0)),
        (
            true,
            "⏵ Task `cargo\rbuild\r--all` finished successfully".to_owned(),
            "⏵ Command: cargo build".to_owned()
        )
    );
    let (success, line, _) = task_summary(&task, Some(-42));
    assert!(!success);
    assert_eq!(
        line,
        "⏵ Task `cargo\rbuild\r--all` finished with non-zero error code: -42"
    );
    let (success, line, _) = task_summary(&task, None);
    assert!(!success);
    assert_eq!(line, "⏵ Task `cargo\rbuild\r--all` finished");
}

#[test]
fn a_finished_task_shows_its_end_once() {
    let (mut terminal, mut term) =
        build(Some(task(HideStrategy::Never, true, true)), Shell::System, false);
    assert_eq!(terminal.term_config.scrolling_history, 100_000);
    assert!(terminal.kill_active_task());
    assert_eq!(terminal.wait_for_completed_task(), Completion::Awaited);
    let mut processor: Processor = Processor::new();
    processor.advance(&mut term, b"output");
    assert_eq!(take(&mut terminal, &mut term, AlacTermEvent::ChildExit(3)), "[]");
    let shown = "output\n⏵ Task `cargobuild--all` finished with non-zero error code: 3\n\
                 ⏵ Command: cargo build";
    assert_eq!(text(&terminal, &term), shown);
    assert_eq!(terminal.task().unwrap().status, TaskStatus::Completed { success: false });
    assert!(!terminal.kill_active_task());
    assert_eq!(terminal.wait_for_completed_task(), Completion::Reported);
    assert_eq!(take(&mut terminal, &mut term, AlacTermEvent::Exit), "[]");
    assert_eq!(text(&terminal, &term), shown);
    assert_eq!(terminal.task().unwrap().status, TaskStatus::Completed { success: false });
    assert_eq!(terminal.completion_tx, vec![Some(3), None]);
}

#[test]
fn a_terminal_is_closed_as_its_task_has_it() {
    for (hide, code, closed) in [
        (HideStrategy::Never, Some(0), false),
        (HideStrategy::Always, Some(1), true),
        (HideStrategy::OnSuccess, Some(0), true),
        (HideStrategy::OnSuccess, Some(1), false),
        (HideStrategy::OnSuccess, None, false),
        (HideStrategy::Always, None, true),
    ] {
        let (mut terminal, mut term) = build(Some(task(hide, false, false)), Shell::System, false);
        let event = match code {
            Some(code) => AlacTermEvent::ChildExit(code),
            None => AlacTermEvent::Exit,
        };
        let told = take(&mut terminal, &mut term, event);
        assert_eq!(told, if closed { "[Emit(CloseTerminal)]" } else { "[]" });
        assert_eq!(text(&terminal, &term), "");
        let status = match code {
            Some(code) => TaskStatus::Completed { success: code == 0 },
            None => TaskStatus::Unknown,
        };
        assert_eq!(terminal.task().unwrap().status, status);
    }
}

#[test]
fn a_terminal_without_a_task_closes_on_exit_alone() {
    let (mut terminal, mut term) = build(None, Shell::System, false);
    assert!(terminal.task().is_none());
    assert_eq!(terminal.wait_for_completed_task(), Completion::Missing);
    assert_eq!(take(&mut terminal, &mut term, AlacTermEvent::ChildExit(0)), "[]");
    assert_eq!(take(&mut terminal, &mut term, AlacTermEvent::Exit), "[Emit(CloseTerminal)]");
    assert_eq!(terminal.completion_tx, vec![Some(0), None]);
}

#[test]
fn a_summary_is_shown_in_one_column() {
    let (mut terminal, mut term) =
        build(Some(task(HideStrategy::Always, true, false)), Shell::System, false);
    term.resize(alacritty_terminal::term::test::TermSize::new(1, 2));
    let told = take(&mut terminal, &mut term, AlacTermEvent::ChildExit(0));
    assert_eq!(told, "[Emit(CloseTerminal)]");
    assert_eq!(terminal.task().unwrap().status, TaskStatus::Completed { success: true });
    assert_eq!(
        text(&terminal, &term),
        "\n\u{23f5} Task `cargobuild--all` finished successfully"
    );
}

#[test]
fn a_wide_summary_needs_room() {
    let wide = || TaskState {
        full_label: "\u{6c49}".to_owned(),
        ..task(HideStrategy::Always, true, false)
    };
    let (mut terminal, mut term) = build(Some(wide()), Shell::System, false);
    term.resize(alacritty_terminal::term::test::TermSize::new(1, 2));
    let mut cx = Context::new();
    let event = AlacTermEvent::ChildExit(0);
    assert!(!terminal.try_process_event(event, quiet(), &theme(), to_rgb, &mut term, &mut cx));
    assert_eq!(terminal.task().unwrap().status, TaskStatus::Running);
    assert_eq!(told(&mut cx), "[]");
    assert!(terminal.completion_tx.is_empty());

    // Where full lines do not go on, such a character is left out
    let mut processor: Processor = Processor::new();
    processor.advance(&mut term, b"\x1b[?7l");
    take(&mut terminal, &mut term, AlacTermEvent::ChildExit(0));
    assert_eq!(terminal.task().unwrap().status, TaskStatus::Completed { success: true });

    let (mut terminal, mut term) = build(Some(wide()), Shell::System, false);
    term.resize(alacritty_terminal::term::test::TermSize::new(2, 2));
    take(&mut terminal, &mut term, AlacTermEvent::ChildExit(0));
    assert!(text(&terminal, &term).contains('\u{6c49}'));
}

#[test]
fn a_selection_moves_up_as_text_is_appended() {
    let at = |line: i32| {
        Some(Selection::new(
            SelectionType::Simple,
            Point::new(Line(line), Column(0)),
            Side::Left,
        ))
    };
    let end = || AlacTermEvent::ChildExit(0);
    let (mut terminal, mut term) =
        build(Some(task(HideStrategy::Never, true, false)), Shell::System, false);
    term.selection = at(i32::MIN);
    let mut cx = Context::new();
    assert!(!terminal.try_process_event(end(), quiet(), &theme(), to_rgb, &mut term, &mut cx));
    assert_eq!(terminal.task().unwrap().status, TaskStatus::Running);
    term.selection = at(i32::MIN + 1000);
    take(&mut terminal, &mut term, end());
    assert_eq!(terminal.task().unwrap().status, TaskStatus::Completed { success: true });

    let (mut terminal, mut term) =
        build(Some(task(HideStrategy::Never, false, false)), Shell::System, false);
    term.selection = at(i32::MIN);
    take(&mut terminal, &mut term, end());
    assert_eq!(terminal.task().unwrap().status, TaskStatus::Completed { success: true });
}

#[test]
fn a_size_with_too_many_pixels_is_refused() {
    let pixels = |value: f32| Pixels { bits: value.to_bits(), whole: value as i32 };
    let bounds = |lines: usize, height: f32| {
        let corner = terminal::geometry::Point { x: pixels(0.), y: pixels(0.) };
        let size = Size { width: pixels(100.), height: pixels(height * lines as f32) };
        TerminalBounds::new(
            pixels(height),
            pixels(10.),
            Bounds { origin: corner, size },
            lines,
            10,
        )
    };
    let (mut terminal, mut term) = build(None, Shell::System, false);
    let asked = || {
        AlacTermEvent::TextAreaSizeRequest(Arc::new(|size| {
            let (height, width) =
                (size.num_lines * size.cell_height, size.num_cols * size.cell_width);
            format!("{} {}", height, width)
        }))
    };
    terminal.last_content.terminal_bounds = bounds(300, 300.);
    let mut cx = Context::new();
    assert!(!terminal.try_process_event(asked(), quiet(), &theme(), to_rgb, &mut term, &mut cx));
    assert!(sent(&terminal).is_empty());
    terminal.last_content.terminal_bounds = bounds(255, 257.);
    take(&mut terminal, &mut term, asked());
    assert_eq!(sent(&terminal), vec![b"65535 100".to_vec()]);
}

#[test]
fn text_is_appended_below_the_output() {
    let (terminal, mut term) = build(None, Shell::System, false);
    append_text_to_term(&mut term, &vec!["one".to_owned(), "t\u{6c49}o".to_owned()]);
    assert_eq!(text(&terminal, &term), "\none\nt\u{6c49}o");
}

#[test]
fn text_can_be_appended_again() {
    let (terminal, mut term) = build(None, Shell::System, false);
    append_text_to_term(&mut term, &vec!["one".to_owned()]);
    append_text_to_term(&mut term, &vec!["two".to_owned()]);
    assert_eq!(text(&terminal, &term), "\none\n\ntwo");
}

#[test]
fn titles_are_shown_but_for_that_of_the_shell() {
    let (mut terminal, mut term) =
        build(None, Shell::Program("pwsh.exe".to_owned()), true);
    assert_eq!(take(&mut terminal, &mut term, AlacTermEvent::Title("pwsh.exe".to_owned())), "[]");
    assert_eq!(terminal.breadcrumb_text, "");
    let told = take(&mut terminal, &mut term, AlacTermEvent::Title("vim".to_owned()));
    assert_eq!(told, "[Emit(BreadcrumbsChanged)]");
    assert_eq!(terminal.breadcrumb_text, "vim");
    let told = take(&mut terminal, &mut term, AlacTermEvent::ResetTitle);
    assert_eq!(told, "[Emit(BreadcrumbsChanged)]");
    assert_eq!(terminal.breadcrumb_text, "");

    let (mut terminal, mut term) = build(None, Shell::Program("sh".to_owned()), false);
    take(&mut terminal, &mut term, AlacTermEvent::Title("sh".to_owned()));
    assert_eq!(terminal.breadcrumb_text, "sh");
}

fn sent(terminal: &Terminal) -> Vec<Vec<u8>> {
    terminal
        .pty_tx
        .messages
        .iter()
        .map(|message| match message {
            Msg::Input(bytes) => bytes.clone(),
            _ => vec![],
        })
        .collect()
}

#[test]
fn other_events_are_taken_up() {
    let (mut terminal, mut term) = build(None, Shell::System, false);
    let mut take = |event: AlacTermEvent| take(&mut terminal, &mut term, event);
    assert_eq!(take(AlacTermEvent::Bell), "[Emit(Bell)]");
    assert_eq!(take(AlacTermEvent::MouseCursorDirty), "[]");
    assert_eq!(take(AlacTermEvent::CursorBlinkingChange), "[Emit(BlinkChanged(true))]");
    assert_eq!(take(AlacTermEvent::Wakeup), "[Emit(Wakeup)]");
    assert_eq!(
        take(AlacTermEvent::ClipboardStore(ClipboardType::Clipboard, "x".to_owned())),
        "[WriteToClipboard(\"x\")]"
    );
    assert_eq!(take(AlacTermEvent::PtyWrite("é".to_owned())), "[]");
    assert_eq!(sent(&terminal), vec![vec![0xc3, 0xa9]]);
    let changed = Circumstances { clipboard: None, process_changed: true };
    assert_eq!(
        take_with(&mut terminal, &mut term, AlacTermEvent::Wakeup, changed),
        "[Emit(Wakeup), Emit(TitleChanged)]"
    );
    terminal.shutdown();
    assert!(matches!(terminal.pty_tx.messages.last(), Some(Msg::Shutdown)));
}

#[test]
fn requests_are_answered_in_their_own_form() {
    let (mut terminal, mut term) = build(None, Shell::System, false);
    let load = || {
        AlacTermEvent::ClipboardLoad(
            ClipboardType::Clipboard,
            Arc::new(|text: &str| format!("<{}>", text)),
        )
    };
    let full = Circumstances { clipboard: Some("text".to_owned()), process_changed: false };
    assert_eq!(take_with(&mut terminal, &mut term, load(), full), "[]");
    assert_eq!(take(&mut terminal, &mut term, load()), "[]");
    let size = AlacTermEvent::TextAreaSizeRequest(Arc::new(|size: WindowSize| {
        format!("{} {} {} {}", size.num_lines, size.num_cols, size.cell_width, size.cell_height)
    }));
    assert_eq!(take(&mut terminal, &mut term, size), "[]");
    let color = |index: usize| {
        AlacTermEvent::ColorRequest(
            index,
            Arc::new(move |color: AlacRgb| {
                format!("{}: {} {} {}", index, color.r, color.g, color.b)
            }),
        )
    };
    assert_eq!(take(&mut terminal, &mut term, color(7)), "[]");
    assert_eq!(take(&mut terminal, &mut term, color(17)), "[]");
    let mut processor: Processor = Processor::new();
    processor.advance(&mut term, b"\x1b]4;7;rgb:12/34/56\x07");
    assert_eq!(take(&mut terminal, &mut term, color(7)), "[]");
    let answers: Vec<String> =
        sent(&terminal).into_iter().map(|bytes| String::from_utf8(bytes).unwrap()).collect();
    assert_eq!(
        answers,
        vec!["<text>", "<>", "6 100 5 5", "7: 7 1 2", "17: 0 0 95", "7: 18 52 86"]
    );
}

#[test]
fn a_colour_that_is_none_is_refused() {
    let (mut terminal, mut term) = build(None, Shell::System, false);
    let mut cx = Context::new();
    let event = AlacTermEvent::ColorRequest(269, Arc::new(|_| String::new()));
    assert!(!terminal.try_process_event(event, quiet(), &theme(), to_rgb, &mut term, &mut cx));
    assert!(sent(&terminal).is_empty());
}

fn theme() -> Theme {
    let color = |n: u32| Hsla { h: n, s: 0, l: 0, a: 0 };
    Theme {
        terminal_ansi_black: color(0),
        terminal_ansi_red: color(1),
        terminal_ansi_green: color(2),
        terminal_ansi_yellow: color(3),
        terminal_ansi_blue: color(4),
        terminal_ansi_magenta: color(5),
        terminal_ansi_cyan: color(6),
        terminal_ansi_white: color(7),
        terminal_ansi_bright_black: color(8),
        terminal_ansi_bright_red: color(9),
        terminal_ansi_bright_green: color(10),
        terminal_ansi_bright_yellow: color(11),
        terminal_ansi_bright_blue: color(12),
        terminal_ansi_bright_magenta: color(13),
        terminal_ansi_bright_cyan: color(14),
        terminal_ansi_bright_white: color(15),
        terminal_foreground: color(256),
        terminal_background: color(257),
        cursor: color(258),
        terminal_ansi_dim_black: color(259),
        terminal_ansi_dim_red: color(260),
        terminal_ansi_dim_green: color(261),
        terminal_ansi_dim_yellow: color(262),
        terminal_ansi_dim_blue: color(263),
        terminal_ansi_dim_magenta: color(264),
        terminal_ansi_dim_cyan: color(265),
        terminal_ansi_dim_white: color(266),
        terminal_bright_foreground: color(267),
    }
}

#[test]
fn a_colour_that_a_program_has_set_is_answered() {
    let (_, mut term) = build(None, Shell::System, false);
    assert!(matches!(
        requested_color(&term, 1, &theme()),
        RequestedColor::Default(Color::Themed(Hsla { h: 1, .. }))
    ));
    let mut processor: Processor = Processor::new();
    processor.advance(&mut term, b"\x1b]4;1;rgb:12/34/56\x07");
    assert!(matches!(
        requested_color(&term, 1, &theme()),
        RequestedColor::Chosen(Rgb { r: 0x12, g: 0x34, b: 0x56 })
    ));
}
