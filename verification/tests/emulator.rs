use alacritty_terminal::event::Event as AlacTermEvent;
use alacritty_terminal::index::{Column, Line, Point as AlacPoint, Side as AlacSide};
use alacritty_terminal::selection::{Selection, SelectionType as AlacSelectionType};
use alacritty_terminal::term::search::RegexSearch;
use alacritty_terminal::term::Term;
use alacritty_terminal::vte::ansi::Processor;
use futures::channel::mpsc::{unbounded, UnboundedReceiver};
use std::path::PathBuf;
use terminal::alac::ZedListener;
use terminal::batch::Pump;
use terminal::builder::{AlternateScroll, Surroundings, TerminalBuilder};
use terminal::content::{make_content, TerminalContent};
use terminal::env::Env;
use terminal::events::{Context, Effect, Event, InternalEvent, MaybeNavigationTarget, Msg};
use terminal::geometry::{Bounds, Pixels, Point, Size, TerminalBounds};
use terminal::grid::{
    CursorShape, CursorStyle, GridPoint, GridRange, Side, TermMode, ViMotion,
    ALTERNATE_SCROLL, DEFAULT_MODE, VI,
};
use terminal::input::{Keystroke, Modifiers};
use terminal::links::FoundLink;
use terminal::mouse::MouseButton;
use terminal::sync::{EventInputs, HoverProbe, SyncOutcome};
use terminal::task::Shell;
use terminal::terminal::{PtyProcessInfo, ProcessInfo, SelectionPhase, Terminal};

struct Setup {
    terminal: Terminal,
    term: Term<ZedListener>,
    events: UnboundedReceiver<AlacTermEvent>,
    cx: Context,
}

fn px(value: f32) -> Pixels {
    Pixels { bits: value.to_bits(), whole: value as i32 }
}

fn origin() -> Point {
    Point { x: px(0.), y: px(0.) }
}

fn bounds_of(lines: usize, columns: usize) -> TerminalBounds {
    TerminalBounds::new(
        px(20.),
        px(10.),
        Bounds {
            origin: origin(),
            size: Size { width: px(10. * columns as f32), height: px(20. * lines as f32) },
        },
        lines,
        columns,
    )
}

fn surroundings() -> Surroundings {
    Surroundings {
        lang_is_set: true,
        version: "1.2.3".to_owned(),
        system_shell: None,
        shell_sends_title: false,
        home: PathBuf::from("/home/user"),
        now: 7,
    }
}

fn setup() -> Setup {
    let (sender, events) = unbounded();
    let (terminal, term, pump) = TerminalBuilder::new(
        None,
        None,
        None,
        Shell::System,
        Env::new(),
        CursorStyle { shape: CursorShape::Beam, blinking: true },
        AlternateScroll::On,
        None,
        false,
        surroundings(),
        ZedListener(sender),
    )
    .subscribe();
    assert!(matches!(pump, Pump::Waiting));
    let mut setup = Setup { terminal, term, events, cx: Context::new() };
    setup.terminal.set_size(bounds_of(4, 10));
    run(&mut setup);
    setup
}

fn inputs() -> EventInputs {
    EventInputs {
        hover: HoverProbe {
            position: origin(),
            offset: origin(),
            in_bounds: false,
            moved: false,
            now: 0,
        },
        hit: (GridPoint { line: 0, column: 0 }, Side::Left),
        link: None,
        keep_selection_on_copy: false,
        has_primary: true,
    }
}

fn run_with(setup: &mut Setup, make: impl Fn() -> EventInputs) {
    let outcome = setup.terminal.sync(&mut setup.term, |_, _, _| make(), &mut setup.cx);
    assert_eq!(outcome, SyncOutcome::Shown);
    assert_eq!(setup.terminal.events.len(), 0);
}

fn run(setup: &mut Setup) {
    run_with(setup, inputs);
}

fn feed(setup: &mut Setup, text: &str) {
    let mut processor: Processor = Processor::new();
    processor.advance(&mut setup.term, text.as_bytes());
}

fn shown(setup: &Setup) -> Vec<String> {
    let columns = setup.terminal.last_content.terminal_bounds.columns;
    setup
        .terminal
        .last_content
        .cells
        .chunks(columns)
        .map(|row| row.iter().map(|cell| cell.c).collect::<String>().trim_end().to_owned())
        .collect()
}

fn told(setup: &mut Setup) -> String {
    let effects = std::mem::take(&mut setup.cx.effects);
    format!("{:?}", effects)
}

fn key(key: &str, shift: bool, control: bool) -> Keystroke {
    Keystroke {
        modifiers: Modifiers { control, shift, secondary: false },
        key: key.to_owned(),
    }
}

#[test]
fn a_new_terminal_has_default_modes() {
    let (sender, _events) = unbounded();
    let builder = TerminalBuilder::new(
        None,
        None,
        None,
        Shell::System,
        Env::new(),
        CursorStyle { shape: CursorShape::Block, blinking: false },
        AlternateScroll::Off,
        Some(50),
        false,
        surroundings(),
        ZedListener(sender),
    );
    assert_eq!(builder.term.mode().bits(), DEFAULT_MODE & !ALTERNATE_SCROLL);
    assert_eq!(builder.terminal.term_config.scrolling_history, 50);
    assert_eq!(builder.terminal.viewport_lines(&builder.term), 6);
    assert_eq!(builder.terminal.last_mouse_move_time, 7);
    assert!(!builder.terminal.vi_mode_enabled());
}

#[test]
fn a_size_is_taken_over_and_told_to_the_pty() {
    let mut setup = setup();
    assert_eq!(setup.terminal.last_content.cells.len(), 40);
    assert_eq!(setup.terminal.viewport_lines(&setup.term), 4);
    assert!(matches!(&setup.terminal.pty_tx.messages[0], Msg::Resize(size)
        if size.num_lines == 4 && size.num_cols == 10 && size.cell_width == 10
            && size.cell_height == 20));
    // The same size is no news
    setup.terminal.set_size(bounds_of(4, 10));
    assert_eq!(setup.terminal.events.len(), 0);
    setup.terminal.set_size(bounds_of(0, 0));
    run(&mut setup);
    assert_eq!(setup.terminal.last_content.terminal_bounds, bounds_of(1, 1));
    assert_eq!(setup.terminal.viewport_lines(&setup.term), 1);
}

#[test]
fn written_text_is_shown() {
    let mut setup = setup();
    feed(&mut setup, "hello\r\nworld");
    run(&mut setup);
    assert_eq!(shown(&setup), vec!["hello", "world", "", ""]);
    let content = setup.terminal.last_content();
    assert_eq!(content.cursor.point, GridPoint { line: 1, column: 5 });
    assert_eq!(content.cursor.shape, CursorShape::Beam);
    assert_eq!(content.cursor_char, ' ');
    assert!(content.scrolled_to_top && content.scrolled_to_bottom);
    assert_eq!(content.mode, TermMode { bits: DEFAULT_MODE });
    assert_eq!(content.cells[11].point, GridPoint { line: 1, column: 1 });
    assert_eq!(content.cells[11].c, 'o');
}

#[test]
fn a_hidden_cursor_is_not_drawn() {
    let mut setup = setup();
    feed(&mut setup, "\x1b[?25l");
    run(&mut setup);
    assert_eq!(setup.terminal.last_content.cursor.shape, CursorShape::Hidden);
}

#[test]
fn the_cursor_on_a_wide_character_is_drawn_on_its_first_column() {
    let mut setup = setup();
    feed(&mut setup, "\u{6c49}\x1b[1;2H");
    run(&mut setup);
    assert_eq!(setup.terminal.last_content.cursor.point, GridPoint { line: 0, column: 0 });
    assert_eq!(setup.terminal.last_content.cursor_char, '\u{6c49}');
}

#[test]
fn scrolling_moves_over_the_scrollback() {
    let mut setup = setup();
    feed(&mut setup, "1\r\n2\r\n3\r\n4\r\n5\r\n6\r\n7");
    run(&mut setup);
    assert_eq!(shown(&setup), vec!["4", "5", "6", "7"]);
    assert!(setup.terminal.scrolled_to_bottom() && !setup.terminal.scrolled_to_top());
    assert_eq!(setup.terminal.total_lines(&setup.term), 7);

    setup.terminal.scroll_line_up();
    run(&mut setup);
    assert_eq!(shown(&setup), vec!["3", "4", "5", "6"]);
    assert!(!setup.terminal.scrolled_to_bottom() && !setup.terminal.scrolled_to_top());
    assert_eq!(setup.terminal.last_content.cells[0].point, GridPoint { line: -1, column: 0 });

    setup.terminal.scroll_to_top();
    run(&mut setup);
    assert_eq!(shown(&setup), vec!["1", "2", "3", "4"]);
    assert!(setup.terminal.scrolled_to_top());

    setup.terminal.scroll_down_by(2);
    run(&mut setup);
    assert_eq!(shown(&setup), vec!["3", "4", "5", "6"]);
    setup.terminal.scroll_up_by(1);
    setup.terminal.scroll_page_down();
    run(&mut setup);
    assert_eq!(shown(&setup), vec!["4", "5", "6", "7"]);
    setup.terminal.scroll_page_up();
    setup.terminal.scroll_line_down();
    run(&mut setup);
    assert_eq!(setup.terminal.last_content.display_offset, 2);
    setup.terminal.scroll_to_bottom();
    run(&mut setup);
    assert_eq!(setup.terminal.last_content.display_offset, 0);
}

#[test]
fn a_scroll_too_far_to_count_is_refused() {
    let mut setup = setup();
    feed(&mut setup, "1\r\n2\r\n3\r\n4\r\n5\r\n6\r\n7");
    setup.terminal.scroll_line_up();
    run(&mut setup);
    setup.terminal.scroll_up_by(0x7fff_ffff);
    let outcome = setup.terminal.sync(&mut setup.term, |_, _, _| inputs(), &mut setup.cx);
    assert_eq!(outcome, SyncOutcome::Refused);
    assert_eq!(setup.terminal.events.len(), 1);
}

#[test]
fn clearing_keeps_the_line_of_the_cursor() {
    let mut setup = setup();
    feed(&mut setup, "1\r\n2\r\n3\r\n4\r\n5\r\nsix\r\n7\x1b[3;2H");
    run(&mut setup);
    told(&mut setup);
    setup.terminal.clear();
    run(&mut setup);
    assert_eq!(shown(&setup), vec!["six", "", "", ""]);
    assert_eq!(setup.terminal.last_content.cursor.point, GridPoint { line: 0, column: 1 });
    assert_eq!(setup.terminal.total_lines(&setup.term), 4);
    assert_eq!(told(&mut setup), "[Emit(Wakeup)]");
    setup.terminal.clear();
    run(&mut setup);
    assert_eq!(shown(&setup), vec!["six", "", "", ""]);
}

#[test]
fn clearing_a_single_line_keeps_it() {
    let mut setup = setup();
    setup.terminal.set_size(bounds_of(1, 10));
    run(&mut setup);
    feed(&mut setup, "abc");
    setup.terminal.clear();
    run(&mut setup);
    assert_eq!(shown(&setup), vec!["abc"]);
}

#[test]
fn everything_can_be_selected_and_copied() {
    let mut setup = setup();
    feed(&mut setup, "one\r\ntwo");
    assert!(setup.terminal.try_select_all(&setup.term));
    run(&mut setup);
    assert_eq!(setup.terminal.last_content.selection_text.as_deref(), Some("one\ntwo\n\n"));
    assert_eq!(setup.terminal.selection_head, Some(GridPoint { line: 3, column: 9 }));
    let range = setup.terminal.last_content.selection.unwrap();
    assert_eq!(range.start, GridPoint { line: 0, column: 0 });
    assert_eq!(range.end, GridPoint { line: 3, column: 9 });
    assert!(!range.is_block);
    assert_eq!(
        told(&mut setup),
        "[WriteToPrimary(\"one\\ntwo\\n\\n\"), Emit(SelectionsChanged)]"
    );

    setup.terminal.copy(Some(true));
    run(&mut setup);
    assert_eq!(told(&mut setup), "[WriteToClipboard(\"one\\ntwo\\n\\n\")]");
    assert!(setup.terminal.last_content.selection.is_some());

    setup.terminal.copy(None);
    run(&mut setup);
    assert_eq!(
        told(&mut setup),
        "[WriteToClipboard(\"one\\ntwo\\n\\n\"), Emit(SelectionsChanged)]"
    );
    assert!(setup.terminal.last_content.selection.is_none());
    assert!(setup.terminal.last_content.selection_text.is_none());

    setup.terminal.copy(Some(false));
    run(&mut setup);
    assert_eq!(told(&mut setup), "[]");
}

#[test]
fn a_setting_can_keep_the_copied_selection() {
    let mut setup = setup();
    feed(&mut setup, "one");
    setup.terminal.select_all(&setup.term);
    setup.terminal.copy(None);
    run_with(&mut setup, || EventInputs { keep_selection_on_copy: true, ..inputs() });
    assert!(setup.terminal.last_content.selection.is_some());
}

#[test]
fn a_match_is_selected_and_scrolled_to() {
    let mut setup = setup();
    feed(&mut setup, "abc\r\nxyz\r\nabc\r\n4\r\n5\r\n6\r\n7");
    run(&mut setup);
    let found = setup
        .terminal
        .try_find_matches(&setup.term, "abc")
        .unwrap();
    let first = GridRange {
        start: GridPoint { line: -3, column: 0 },
        end: GridPoint { line: -3, column: 2 },
    };
    let second = GridRange {
        start: GridPoint { line: -1, column: 0 },
        end: GridPoint { line: -1, column: 2 },
    };
    assert_eq!(found, vec![first, second]);
    setup.terminal.matches = found;

    setup.terminal.activate_match(2);
    assert_eq!(setup.terminal.events.len(), 0);
    setup.terminal.activate_match(0);
    assert_eq!(setup.terminal.events.len(), 2);
    run(&mut setup);
    assert_eq!(setup.terminal.last_content.selection_text.as_deref(), Some("abc"));
    assert_eq!(setup.terminal.last_content.display_offset, 3);
    assert_eq!(setup.terminal.selection_head, Some(first.end));

    let other = GridRange {
        start: GridPoint { line: 0, column: 0 },
        end: GridPoint { line: 0, column: 0 },
    };
    setup.terminal.select_matches(&vec![other, second]);
    assert_eq!(setup.terminal.events.len(), 1);
    run(&mut setup);
    assert_eq!(setup.terminal.last_content.selection.unwrap().start, second.start);
}

#[test]
fn dragging_moves_the_end_of_the_selection() {
    let mut setup = setup();
    feed(&mut setup, "hello world");
    run(&mut setup);
    let modifiers = Modifiers { control: false, shift: false, secondary: false };
    setup.terminal.mouse_down(
        MouseButton::Left,
        &modifiers,
        1,
        origin(),
        (GridPoint { line: 0, column: 1 }, Side::Left),
        None,
        None,
    );
    run(&mut setup);
    assert!(setup.terminal.last_content.selection.is_none());
    told(&mut setup);
    setup.terminal.mouse_drag(&modifiers, origin(), None, &mut setup.cx);
    assert!(setup.terminal.selection_started());
    run_with(&mut setup, || EventInputs {
        hit: (GridPoint { line: 0, column: 3 }, Side::Right),
        ..inputs()
    });
    assert_eq!(setup.terminal.last_content.selection_text.as_deref(), Some("ell"));
    assert_eq!(setup.terminal.selection_head, Some(GridPoint { line: 0, column: 3 }));
    assert_eq!(told(&mut setup), "[WriteToPrimary(\"ell\"), Emit(SelectionsChanged)]");
}

#[test]
fn words_and_lines_are_selected_by_clicks() {
    let mut setup = setup();
    feed(&mut setup, "ab cd\r\nxy");
    run(&mut setup);
    let modifiers = Modifiers { control: false, shift: false, secondary: false };
    let hit = (GridPoint { line: 0, column: 4 }, Side::Left);
    setup.terminal.mouse_down(MouseButton::Left, &modifiers, 2, origin(), hit, None, None);
    run(&mut setup);
    assert_eq!(setup.terminal.last_content.selection_text.as_deref(), Some("cd"));
    setup.terminal.mouse_down(MouseButton::Left, &modifiers, 3, origin(), hit, None, None);
    run(&mut setup);
    assert_eq!(setup.terminal.last_content.selection_text.as_deref(), Some("ab cd\n"));
    setup.terminal.select_word_at_event_position((GridPoint { line: 1, column: 0 }, Side::Right));
    run(&mut setup);
    assert_eq!(setup.terminal.last_content.selection_text.as_deref(), Some("xy"));
    let head = GridPoint { line: 1, column: 0 };
    assert_eq!(setup.terminal.selection_head, Some(head));
}

#[test]
fn vi_mode_is_switched_in_the_terminal_and_its_emulator() {
    let mut setup = setup();
    feed(&mut setup, "abc");
    setup.terminal.toggle_vi_mode();
    run(&mut setup);
    assert!(setup.terminal.vi_mode_enabled());
    assert!(setup.terminal.last_content.mode.contains(VI));
    assert_eq!(setup.terminal.last_content.cursor.point, GridPoint { line: 0, column: 3 });
    setup.terminal.toggle_vi_mode();
    run(&mut setup);
    assert!(!setup.terminal.vi_mode_enabled());
    assert!(!setup.terminal.last_content.mode.contains(VI));
}

#[test]
fn vi_keys_move_the_cursor() {
    let mut setup = setup();
    feed(&mut setup, "one two");
    setup.terminal.toggle_vi_mode();
    run(&mut setup);
    assert!(setup.terminal.try_keystroke(&key("0", false, false), None));
    run(&mut setup);
    assert_eq!(setup.terminal.last_content.cursor.point, GridPoint { line: 0, column: 0 });
    setup.terminal.vi_motion(&key("w", false, false));
    run(&mut setup);
    assert_eq!(setup.terminal.last_content.cursor.point, GridPoint { line: 0, column: 4 });
    setup.terminal.vi_motion(&key("$", false, false));
    run(&mut setup);
    assert_eq!(setup.terminal.last_content.cursor.point, GridPoint { line: 0, column: 6 });
    setup.terminal.vi_motion(&key("l", true, false));
    run(&mut setup);
    assert_eq!(setup.terminal.last_content.cursor.point.line, 3);
    setup.terminal.vi_motion(&key("i", false, false));
    run(&mut setup);
    assert!(!setup.terminal.vi_mode_enabled());
}

#[test]
fn vi_keys_select() {
    let mut setup = setup();
    feed(&mut setup, "one two\r");
    setup.terminal.toggle_vi_mode();
    run(&mut setup);
    setup.terminal.vi_motion(&key("v", false, false));
    run(&mut setup);
    setup.terminal.vi_motion(&key("w", false, false));
    run_with(&mut setup, || EventInputs {
        hit: (GridPoint { line: 0, column: 2 }, Side::Right),
        ..inputs()
    });
    assert!(setup.terminal.last_content.selection.is_some());
    setup.terminal.vi_motion(&key("y", false, false));
    told(&mut setup);
    run(&mut setup);
    assert!(matches!(&setup.cx.effects[0], Effect::WriteToClipboard(text) if !text.is_empty()));
    assert!(setup.terminal.last_content.selection.is_none());
    setup.terminal.vi_motion(&key("v", false, false));
    setup.terminal.vi_motion(&key("escape", false, false));
    run(&mut setup);
    assert!(setup.term.selection.is_none());
}

#[test]
fn scrolling_in_vi_mode_takes_the_cursor_and_the_selection_along() {
    let mut setup = setup();
    feed(&mut setup, "1\r\n 2\r\n3\r\n4\r\n5\r\n6\r\n7");
    setup.terminal.toggle_vi_mode();
    setup.terminal.vi_motion(&key("v", false, false));
    run(&mut setup);
    setup.terminal.vi_motion(&key("v", false, false));
    run(&mut setup);
    told(&mut setup);
    setup.terminal.vi_motion(&key("g", false, false));
    run(&mut setup);
    assert_eq!(setup.terminal.last_content.cursor.point, GridPoint { line: -3, column: 0 });
    assert_eq!(setup.terminal.selection_head, Some(GridPoint { line: -3, column: 0 }));
    assert!(told(&mut setup).ends_with("Emit(SelectionsChanged)]"));
    setup.terminal.vi_motion(&key("g", true, false));
    run(&mut setup);
    assert_eq!(setup.terminal.last_content.cursor.point, GridPoint { line: 3, column: 0 });
    assert_eq!(setup.terminal.last_content.display_offset, 0);
    // Half a line height of 20 pixels is ten lines, and the cursor stops at the top
    setup.terminal.vi_motion(&key("u", false, true));
    run(&mut setup);
    assert_eq!(setup.terminal.last_content.cursor.point, GridPoint { line: -3, column: 0 });
    setup.terminal.scroll_line_down();
    run(&mut setup);
    assert_eq!(setup.terminal.last_content.cursor.point, GridPoint { line: -1, column: 0 });
    setup.terminal.scroll_line_up();
    run(&mut setup);
    assert_eq!(setup.terminal.last_content.cursor.point, GridPoint { line: -2, column: 1 });
    setup.terminal.vi_motion(&key("b", false, true));
    run(&mut setup);
    assert_eq!(setup.terminal.last_content.cursor.point.line, -3);
    setup.terminal.vi_motion(&key("f", false, true));
    run(&mut setup);
    assert_eq!(setup.terminal.last_content.display_offset, 0);
}

#[test]
fn a_motion_off_the_grid_is_refused() {
    let mut setup = setup();
    setup.terminal.set_size(bounds_of(1, 10));
    setup.terminal.toggle_vi_mode();
    run(&mut setup);
    setup.terminal.vi_motion(&key("m", true, false));
    // The selection is updated first; the middle of a single line is above it
    assert_eq!(setup.terminal.events.len(), 2);
    let outcome = setup.terminal.sync(&mut setup.term, |_, _, _| inputs(), &mut setup.cx);
    assert_eq!(outcome, SyncOutcome::Refused);
    assert_eq!(setup.terminal.events.len(), 1);
}

fn over(offset: f32, moved: bool, now: u64) -> EventInputs {
    EventInputs {
        hover: HoverProbe {
            position: Point { x: px(offset), y: px(0.) },
            offset: Point { x: px(offset), y: px(0.) },
            in_bounds: true,
            moved,
            now,
        },
        ..inputs()
    }
}

#[test]
fn links_are_looked_for_now_and_then() {
    let mut setup = setup();
    setup.terminal.word_from_position(over(1., false, 1_000_000).hover);
    assert_eq!(setup.terminal.events.len(), 1);
    assert_eq!(setup.terminal.last_mouse_move_time, 1_000_000);
    // Neither moved nor late enough
    setup.terminal.word_from_position(over(2., false, 101_999_999).hover);
    assert_eq!(setup.terminal.events.len(), 1);
    setup.terminal.word_from_position(over(2., true, 2_000_000).hover);
    assert_eq!(setup.terminal.events.len(), 2);
    setup.terminal.word_from_position(over(2., false, 103_000_000).hover);
    assert_eq!(setup.terminal.events.len(), 3);
    // A clock that went back does not count
    setup.terminal.word_from_position(over(2., false, 0).hover);
    assert_eq!(setup.terminal.events.len(), 3);
    // While selecting, nothing is looked for
    setup.terminal.selection_phase = SelectionPhase::Selecting;
    setup.terminal.word_from_position(over(2., true, 0).hover);
    assert_eq!(setup.terminal.events.len(), 3);
}

fn link(text: &str, is_url: bool) -> Option<FoundLink> {
    Some(FoundLink {
        text: text.to_owned(),
        is_url,
        span: GridRange {
            start: GridPoint { line: 0, column: 0 },
            end: GridPoint { line: 0, column: 4 },
        },
    })
}

#[test]
fn the_link_under_the_mouse_is_told_once() {
    let mut setup = setup();
    setup.terminal.pty_info = PtyProcessInfo {
        current: Some(ProcessInfo {
            name: "zsh".to_owned(),
            cwd: PathBuf::from("/work"),
            argv: vec![],
        }),
    };
    told(&mut setup);
    setup.terminal.take_link(link("a.rs", false), false, &mut setup.cx);
    let word = setup.terminal.last_content.last_hovered_word.clone().unwrap();
    assert_eq!(word.word, "a.rs");
    assert_eq!(word.id, 0);
    assert_eq!(
        told(&mut setup),
        "[Emit(NewNavigationTarget(Some(PathLike(PathLikeTarget { maybe_path: \"a.rs\", \
         terminal_dir: Some(\"/work\") })))), Notify]"
    );
    setup.terminal.take_link(link("a.rs", false), false, &mut setup.cx);
    assert_eq!(setup.terminal.last_content.last_hovered_word.clone().unwrap().id, 0);
    assert_eq!(told(&mut setup), "[]");
    setup.terminal.take_link(link("b.rs", false), false, &mut setup.cx);
    assert_eq!(setup.terminal.last_content.last_hovered_word.clone().unwrap().id, 1);
    told(&mut setup);
    setup.terminal.take_link(None, false, &mut setup.cx);
    assert!(setup.terminal.last_content.last_hovered_word.is_none());
    assert_eq!(told(&mut setup), "[Emit(NewNavigationTarget(None))]");
}

#[test]
fn a_found_link_is_opened_when_asked() {
    let mut setup = setup();
    setup.terminal.events.push_back(InternalEvent::FindHyperlink(origin(), true));
    told(&mut setup);
    run_with(&mut setup, || EventInputs { link: link("https://a.b", true), ..inputs() });
    assert!(matches!(
        &setup.cx.effects[0],
        Effect::Emit(Event::Open(MaybeNavigationTarget::Url(url))) if url == "https://a.b"
    ));
    assert!(setup.terminal.last_content.last_hovered_word.is_none());
}

#[test]
fn link_numbers_start_again_after_the_last() {
    let mut setup = setup();
    setup.terminal.next_link_id = usize::MAX;
    assert_eq!(setup.terminal.next_link_id(), usize::MAX);
    assert_eq!(setup.terminal.next_link_id(), 0);
}

#[test]
fn a_link_is_looked_for_on_the_grid() {
    let setup = setup();
    let at = |line: i32, column: usize| {
        let p = setup.terminal.hyperlink_point(&setup.term, GridPoint { line, column }).unwrap();
        (p.line, p.column)
    };
    assert_eq!(at(1, 3), (1, 3));
    assert_eq!(at(1, 30), (1, 9));
    assert_eq!(at(9, 3), (3, 9));
    assert_eq!(at(-9, 3), (0, 0));
}

#[test]
fn lines_are_put_together_and_trimmed() {
    let mut setup = setup();
    feed(&mut setup, "short  \r\n\r\n0123456789abc\r\nx");
    let lines = |n: usize| setup.terminal.try_last_n_non_empty_lines(&setup.term, n).unwrap();
    assert_eq!(lines(0), Vec::<String>::new());
    assert_eq!(lines(1), vec!["x"]);
    assert_eq!(lines(2), vec!["0123456789abc", "x"]);
    assert_eq!(lines(3), vec!["short", "0123456789abc", "x"]);
    assert_eq!(lines(9), vec!["short", "0123456789abc", "x"]);
    let content = setup.terminal.try_get_content(&setup.term).unwrap();
    assert_eq!(content, "short\n\n0123456789abc\nx");
}

#[test]
fn the_cursor_can_be_given_another_style() {
    let mut setup = setup();
    let style = CursorStyle { shape: CursorShape::Underline, blinking: false };
    setup.terminal.set_cursor_shape(style, &mut setup.term);
    run(&mut setup);
    assert_eq!(setup.terminal.last_content.cursor.shape, CursorShape::Underline);
    assert_eq!(setup.terminal.term_config.default_cursor_style, style);
}

#[test]
fn what_is_shown_depends_on_the_emulator_alone() {
    let mut setup = setup();
    feed(&mut setup, "abc");
    run(&mut setup);
    let again = make_content(&setup.term, &setup.terminal.last_content);
    assert_eq!(again.cells.len(), setup.terminal.last_content.cells.len());
    assert_eq!(again.cursor, setup.terminal.last_content.cursor);
}

#[test]
fn the_listener_is_told_by_the_emulator() {
    let mut setup = setup();
    feed(&mut setup, "\x07");
    let mut bell = false;
    while let Ok(Some(event)) = setup.events.try_next() {
        bell = bell || matches!(event, AlacTermEvent::Bell);
    }
    assert!(bell);
}

#[test]
fn a_selected_block_is_refused() {
    let mut setup = setup();
    feed(&mut setup, "abc");
    setup.term.selection = Some(alacritty_terminal::selection::Selection::new(
        alacritty_terminal::selection::SelectionType::Block,
        alacritty_terminal::index::Point::new(
            alacritty_terminal::index::Line(0),
            alacritty_terminal::index::Column(0),
        ),
        alacritty_terminal::index::Side::Left,
    ));
    setup.terminal.copy(None);
    let outcome = setup.terminal.sync(&mut setup.term, |_, _, _| inputs(), &mut setup.cx);
    assert_eq!(outcome, SyncOutcome::Refused);
}

#[test]
fn events_are_carried_out_in_order() {
    let mut setup = setup();
    feed(&mut setup, "1\r\n2\r\n3\r\n4\r\n5\r\n6\r\n7");
    run(&mut setup);
    setup.terminal.scroll_line_up();
    setup.terminal.select_all(&setup.term);
    setup.terminal.copy(None);
    let seen = std::cell::RefCell::new(Vec::new());
    let outcome = setup.terminal.sync(
        &mut setup.term,
        |event, terminal, _| {
            let name = match event {
                InternalEvent::Scroll(_) => "scroll",
                InternalEvent::SetSelection(Some(_)) => "select",
                InternalEvent::SetSelection(None) => "deselect",
                InternalEvent::Copy(_) => "copy",
                InternalEvent::FindHyperlink(_, _) => "find",
                _ => "other",
            };
            seen.borrow_mut().push((name, terminal.events.len()));
            over(1., true, 0)
        },
        &mut setup.cx,
    );
    assert_eq!(outcome, SyncOutcome::Shown);
    assert_eq!(
        seen.into_inner(),
        vec![("scroll", 3), ("select", 3), ("copy", 2), ("find", 2), ("deselect", 1)]
    );
}

#[test]
fn a_hyperlink_under_the_mouse_is_opened() {
    let mut setup = setup();
    feed(&mut setup, "a\x1b]8;;https://zed.dev\x1b\\link\x1b]8;;\x1b\\");
    run(&mut setup);
    told(&mut setup);
    let plain = Modifiers { control: false, shift: false, secondary: false };
    let secondary = Modifiers { secondary: true, ..plain };
    assert!(setup.terminal.is_cell_shown(0, 2));
    let mut release = |modifiers: &Modifiers, row: usize, col: usize| {
        setup.terminal.mouse_up(
            MouseButton::Left,
            modifiers,
            false,
            row,
            col,
            origin(),
            None,
            &mut setup.cx,
        );
        let waiting = setup.terminal.events.len();
        setup.terminal.events.clear();
        (format!("{:?}", std::mem::take(&mut setup.cx.effects)), waiting)
    };
    assert_eq!(release(&plain, 0, 2), ("[OpenUrl(\"https://zed.dev\")]".to_owned(), 0));
    assert_eq!(release(&secondary, 0, 4), ("[OpenUrl(\"https://zed.dev\")]".to_owned(), 0));
    assert_eq!(release(&plain, 0, 0), ("[]".to_owned(), 0));
    assert_eq!(release(&secondary, 0, 0), ("[]".to_owned(), 1));
    assert_eq!(release(&secondary, 7, 70), ("[]".to_owned(), 1));
}

#[test]
fn typing_shows_the_bottom_and_deselects() {
    let mut setup = setup();
    feed(&mut setup, "1\r\n2\r\n3\r\n4\r\n5\r\n6\r\n7");
    setup.terminal.scroll_to_top();
    setup.terminal.select_all(&setup.term);
    run(&mut setup);
    assert!(setup.terminal.scrolled_to_top());
    assert!(setup.terminal.last_content.selection.is_some());
    setup.terminal.input(b"x".to_vec());
    run(&mut setup);
    assert!(setup.terminal.scrolled_to_bottom());
    assert!(setup.terminal.last_content.selection.is_none());
    assert!(matches!(
        setup.terminal.pty_tx.messages.last(),
        Some(Msg::Input(bytes)) if bytes == b"x"
    ));
}

#[test]
fn text_that_cannot_be_read_is_refused() {
    let mut setup = setup();
    // A wide character whose first column is deleted
    feed(&mut setup, "\u{6c49}\x1b[1;1H\x1b[P");
    assert!(setup.terminal.try_get_content(&setup.term).is_none());
    let outcome = setup.terminal.sync(&mut setup.term, |_, _, _| inputs(), &mut setup.cx);
    assert_eq!(outcome, SyncOutcome::Refused);
    // Elsewhere on the grid the rest can be selected
    feed(&mut setup, "\x1b[3;1Hrest");
    let rest = GridRange {
        start: GridPoint { line: 2, column: 0 },
        end: GridPoint { line: 2, column: 3 },
    };
    setup.terminal.matches = vec![rest];
    setup.terminal.activate_match(0);
    run(&mut setup);
    assert_eq!(setup.terminal.last_content.selection_text.as_deref(), Some("rest"));
    setup.terminal.select_all(&setup.term);
    let outcome = setup.terminal.sync(&mut setup.term, |_, _, _| inputs(), &mut setup.cx);
    assert_eq!(outcome, SyncOutcome::Refused);
}

#[test]
fn nothing_is_shown_at_first() {
    let content = TerminalContent::default();
    assert_eq!(content.mode.bits, alacritty_terminal::term::TermMode::default().bits());
    assert!(content.cells.is_empty());
    assert_eq!(content.cursor.shape, CursorShape::Block);
    assert_eq!(content.cursor.point, GridPoint { line: 0, column: 0 });
    assert_eq!(content.cursor_char, char::default());
    assert_eq!(content.terminal_bounds, TerminalBounds::default());
    assert!(!content.scrolled_to_top && !content.scrolled_to_bottom);
}

fn refused(setup: &mut Setup) -> bool {
    let outcome = setup.terminal.sync(&mut setup.term, |_, _, _| inputs(), &mut setup.cx);
    outcome == SyncOutcome::Refused
}

fn selection(ty: AlacSelectionType, line: i32, column: usize, side: AlacSide) -> Selection {
    Selection::new(ty, AlacPoint::new(Line(line), Column(column)), side)
}

fn span(line: i32, start: usize, end: usize) -> GridRange {
    GridRange {
        start: GridPoint { line, column: start },
        end: GridPoint { line, column: end },
    }
}

#[test]
fn matches_are_found_one_behind_the_other() {
    let mut setup = setup();
    feed(&mut setup, "aXaXa\r\n\u{6c49}b\u{6c49}b\r\nAxx\r\n     xxxxx");
    let find = |pattern: &str| setup.terminal.try_find_matches(&setup.term, pattern).unwrap();
    assert_eq!(find("X"), vec![span(0, 1, 1), span(0, 3, 3)]);
    assert_eq!(find("a"), vec![span(0, 0, 0), span(0, 2, 2), span(0, 4, 4), span(2, 0, 0)]);
    // A wide character is matched with both of its columns
    assert_eq!(find("\u{6c49}b"), vec![span(1, 0, 2), span(1, 3, 5)]);
    // Up to the last cell of the grid
    assert_eq!(find("xx+"), vec![span(2, 1, 2), span(3, 5, 9)]);
    assert_eq!(find("nowhere"), vec![]);
    assert!(setup.terminal.try_find_matches(&setup.term, "(").is_none());
    let searcher = RegexSearch::new("X").unwrap();
    assert_eq!(setup.terminal.find_matches(&setup.term, searcher).len(), 2);
}

#[test]
fn a_search_ends_at_the_last_cell() {
    let mut setup = setup();
    // No column is left for the wide character: a cell stays free at the end of the first line
    feed(&mut setup, "012345678\u{6c49}z\x1b[4;1H0123456789");
    let find = |pattern: &str| setup.terminal.try_find_matches(&setup.term, pattern).unwrap();
    assert_eq!(find("8"), vec![span(0, 8, 8), span(3, 8, 8)]);
    assert_eq!(find("9"), vec![span(3, 9, 9)]);
    assert_eq!(find("\u{6c49}").len(), 1);
    assert_eq!(find("\u{6c49}")[0].end, GridPoint { line: 1, column: 1 });
    assert_eq!(find("z"), vec![span(1, 2, 2)]);
    // The same cell in the lowest line
    feed(&mut setup, "\x1b[4;10H\u{6c49}");
    let found = setup.terminal.try_find_matches(&setup.term, "[0-9]").unwrap();
    assert_eq!(found.last().unwrap().end.line, 2);
}

#[test]
fn a_large_automaton_is_searched_with_anew_for_each_match() {
    let mut setup = setup();
    feed(&mut setup, &"ab1 cd2 ".repeat(5));
    let pattern = "(?:[a-z]|\\d){1,60}\\d";
    let found = setup.terminal.try_find_matches(&setup.term, pattern).unwrap();
    assert_eq!(found.len(), 10);
}

#[test]
fn without_a_primary_selection_no_text_is_read() {
    let mut setup = setup();
    let without = || EventInputs { has_primary: false, ..inputs() };
    feed(&mut setup, "one");
    setup.terminal.select_all(&setup.term);
    run_with(&mut setup, without);
    assert_eq!(told(&mut setup), "[Emit(SelectionsChanged)]");
    assert_eq!(setup.terminal.last_content.selection_text.as_deref(), Some("one\n\n\n"));

    // What cannot be read can be selected there, as long as it does not have to be shown
    feed(&mut setup, "\x1b[1;1H\u{6c49}\x1b[1;1H\x1b[P\x1b[2;1H");
    setup.terminal.select_all(&setup.term);
    setup.terminal.events.push_back(InternalEvent::SetSelection(None));
    run_with(&mut setup, without);
    assert_eq!(told(&mut setup), "[Emit(SelectionsChanged), Emit(SelectionsChanged)]");
    setup.terminal.select_all(&setup.term);
    setup.terminal.events.push_back(InternalEvent::SetSelection(None));
    assert!(refused(&mut setup));
    assert_eq!(setup.terminal.events.len(), 2);
}

#[test]
fn a_scroll_in_vi_mode_reads_the_selected_text_alone() {
    let mut setup = setup();
    // The lowest line starts with half a wide character
    feed(&mut setup, "1\r\n2\r\n3\r\n4\r\n5\r\n6\r\n\u{6c49}\x1b[4;1H\x1b[P\x1b[2;1H");
    setup.terminal.toggle_vi_mode();
    run(&mut setup);
    setup.term.selection = Some(selection(AlacSelectionType::Simple, -2, 0, AlacSide::Left));
    setup.terminal.scroll_line_up();
    run(&mut setup);
    assert_eq!(setup.terminal.last_content.cursor.point, GridPoint { line: 0, column: 0 });
    assert_eq!(setup.terminal.last_content.selection_text.as_deref(), Some("2\n3\n4"));
    told(&mut setup);
    // Backwards it ends to the right of the first cell
    setup.terminal.scroll_to_top();
    run(&mut setup);
    assert_eq!(setup.terminal.last_content.selection_text.as_deref(), Some(""));
    assert_eq!(told(&mut setup), "[WriteToPrimary(\"\"), Emit(SelectionsChanged)]");
    // Down to that line the text cannot be read
    setup.terminal.scroll_to_bottom();
    assert!(refused(&mut setup));
}

#[test]
fn a_selection_takes_in_its_first_cell_as_it_follows_the_cursor() {
    let half_in_line_1 = || {
        let mut setup = setup();
        feed(&mut setup, "\r\n\u{6c49}x\x1b[2;1H\x1b[P\x1b[3;1H");
        setup.terminal.toggle_vi_mode();
        run(&mut setup);
        setup
    };
    let right_of_it = selection(AlacSelectionType::Simple, 1, 0, AlacSide::Right);

    // With nothing selected yet, the half character stays out of it
    let mut setup = half_in_line_1();
    setup.term.selection = Some(right_of_it.clone());
    setup.terminal.scroll_line_down();
    run(&mut setup);
    assert_eq!(setup.terminal.last_content.selection_text.as_deref(), Some("x\n"));

    // A selection that follows takes the cell in which it starts in, and that cannot be read
    let mut setup = half_in_line_1();
    let mut followed = right_of_it;
    followed.update(AlacPoint::new(Line(2), Column(0)), AlacSide::Right);
    setup.term.selection = Some(followed);
    run(&mut setup);
    setup.terminal.scroll_line_down();
    assert!(refused(&mut setup));
}

#[test]
fn the_first_cell_that_is_no_space_is_found_on_a_line_that_goes_on() {
    let mut setup = setup();
    // The lowest line goes on past the grid
    feed(&mut setup, "\x1b[4;1H  x\x1b[4;10H");
    setup.term.grid_mut()[Line(3)][Column(9)].flags.insert(
        alacritty_terminal::term::cell::Flags::WRAPLINE,
    );
    setup.terminal.toggle_vi_mode();
    run(&mut setup);
    setup.terminal.vi_motion(&key("^", false, false));
    run(&mut setup);
    assert_eq!(setup.terminal.last_content.cursor.point, GridPoint { line: 3, column: 2 });
    setup.terminal.vi_motion(&key("^", false, false));
    run(&mut setup);
    assert_eq!(setup.terminal.last_content.cursor.point, GridPoint { line: 3, column: 2 });

    // With nothing on that line the emulator looks past the grid from its last cell
    setup.term.grid_mut()[Line(3)][Column(2)].c = ' ';
    setup.terminal.vi_motion(&key("^", false, false));
    run(&mut setup);
    assert_eq!(setup.terminal.last_content.cursor.point, GridPoint { line: 3, column: 9 });
    setup.terminal.vi_motion(&key("^", false, false));
    assert!(refused(&mut setup));
    setup.terminal.events.clear();

    // Unless there is something on the lines above that go on in it
    setup.term.grid_mut()[Line(2)][Column(9)].flags.insert(
        alacritty_terminal::term::cell::Flags::WRAPLINE,
    );
    setup.term.grid_mut()[Line(2)][Column(4)].c = 'y';
    setup.terminal.vi_motion(&key("^", false, false));
    run(&mut setup);
    assert_eq!(setup.terminal.last_content.cursor.point, GridPoint { line: 2, column: 4 });
}

#[test]
fn a_terminal_gets_one_column_wide() {
    let mut setup = setup();
    feed(&mut setup, "ab");
    setup.terminal.set_size(bounds_of(4, 1));
    run(&mut setup);
    assert_eq!(setup.terminal.last_content.terminal_bounds, bounds_of(4, 1));
    assert_eq!(shown(&setup), vec!["b", "", "", ""]);
    let lines = setup.terminal.try_last_n_non_empty_lines(&setup.term, 2).unwrap();
    assert_eq!(lines, vec!["ab"]);
}

#[test]
fn a_wide_character_does_not_go_into_one_column() {
    let mut setup = setup();
    feed(&mut setup, "\u{6c49}");
    setup.terminal.set_size(bounds_of(4, 1));
    assert!(refused(&mut setup));
    assert_eq!(setup.terminal.last_content.terminal_bounds, bounds_of(4, 10));
    setup.terminal.events.clear();
    setup.terminal.set_size(bounds_of(4, 2));
    run(&mut setup);
    assert_eq!(setup.terminal.last_content.terminal_bounds.columns, 2);
}

#[test]
fn a_terminal_gets_one_column_wide_on_the_alternate_screen() {
    let mut setup = setup();
    feed(&mut setup, "ab\x1b[?1049h\u{6c49}");
    run(&mut setup);
    setup.terminal.set_size(bounds_of(4, 1));
    // Whether something wide is on the other screen cannot be seen
    let outcome = setup.terminal.try_sync(&mut setup.term, |_, _, _| inputs(), &mut setup.cx);
    assert_eq!(outcome, None);
    assert_eq!(setup.terminal.events.len(), 1);
    assert_eq!(setup.terminal.last_content.terminal_bounds, bounds_of(4, 10));
    // Nothing is
    run(&mut setup);
    assert_eq!(setup.terminal.last_content.terminal_bounds, bounds_of(4, 1));
    assert_eq!(setup.term.grid()[Line(0)].len(), 1);
    feed(&mut setup, "\x1b[?1049l");
    let outcome = setup.terminal.try_sync(&mut setup.term, |_, _, _| inputs(), &mut setup.cx);
    assert_eq!(outcome, Some(SyncOutcome::Shown));
    let lines = setup.terminal.try_last_n_non_empty_lines(&setup.term, 2).unwrap();
    assert_eq!(lines, vec!["ab"]);
}

fn moved(setup: &mut Setup, motion: ViMotion) -> GridPoint {
    setup.terminal.events.push_back(InternalEvent::ViMotion(motion));
    run(setup);
    setup.terminal.last_content.cursor.point
}

fn put_vi_cursor(setup: &mut Setup, line: i32, column: usize) {
    setup.term.vi_mode_cursor.point = AlacPoint::new(Line(line), Column(column));
}

#[test]
fn motions_that_do_not_look_at_the_cursor_bring_it_back() {
    let mut setup = setup();
    feed(&mut setup, "a\r\n b\r\nc\r\n  d");
    setup.terminal.toggle_vi_mode();
    run(&mut setup);
    for (motion, line, column) in
        [(ViMotion::High, 0, 0), (ViMotion::Middle, 1, 1), (ViMotion::Low, 3, 2)]
    {
        put_vi_cursor(&mut setup, 4, 77);
        assert_eq!(moved(&mut setup, motion), GridPoint { line, column });
    }
    put_vi_cursor(&mut setup, 4, 0);
    assert_eq!(moved(&mut setup, ViMotion::Up), GridPoint { line: 3, column: 0 });
    assert_eq!(moved(&mut setup, ViMotion::Down), GridPoint { line: 3, column: 0 });
    put_vi_cursor(&mut setup, -1, 0);
    assert_eq!(moved(&mut setup, ViMotion::Down), GridPoint { line: 0, column: 0 });

    // The others do look
    for motion in [ViMotion::Left, ViMotion::Right, ViMotion::Last, ViMotion::Bracket] {
        put_vi_cursor(&mut setup, 4, 0);
        setup.terminal.events.push_back(InternalEvent::ViMotion(motion));
        assert!(refused(&mut setup));
        setup.terminal.events.clear();
    }
    put_vi_cursor(&mut setup, i32::MAX, 0);
    setup.terminal.events.push_back(InternalEvent::ViMotion(ViMotion::Down));
    assert!(refused(&mut setup));
}

#[test]
fn the_end_of_a_word_is_found_from_a_cell_left_free() {
    let mut setup = setup();
    // No column is left for the wide character in the lowest line, and its own scrolls away
    feed(&mut setup, "\x1b[4;1H012345678\u{6c49}\x1b[T\x1b[4;1H");
    setup.terminal.toggle_vi_mode();
    run(&mut setup);
    put_vi_cursor(&mut setup, 3, 9);
    assert!(setup.term.grid()[Line(3)][Column(9)]
        .flags
        .contains(alacritty_terminal::term::cell::Flags::LEADING_WIDE_CHAR_SPACER));
    let end = GridPoint { line: 3, column: 9 };
    assert_eq!(moved(&mut setup, ViMotion::WordRightEnd), end);
    for motion in [ViMotion::Right, ViMotion::WordRight, ViMotion::Last] {
        setup.terminal.events.push_back(InternalEvent::ViMotion(motion));
        assert!(refused(&mut setup));
        setup.terminal.events.clear();
    }
}

#[test]
fn the_last_cell_of_a_line_is_found_where_the_line_goes_on() {
    let wrapped = alacritty_terminal::term::cell::Flags::WRAPLINE;
    let mut setup = setup();
    feed(&mut setup, "\x1b[4;1Habc");
    setup.terminal.toggle_vi_mode();
    run(&mut setup);
    // The lowest line goes on past the grid, and so it claims from its second column
    setup.term.grid_mut()[Line(3)][Column(1)].flags.insert(wrapped);
    put_vi_cursor(&mut setup, 3, 1);
    assert_eq!(moved(&mut setup, ViMotion::Last), GridPoint { line: 3, column: 2 });
    // To the right of it there is nothing
    setup.term.grid_mut()[Line(3)][Column(2)].c = ' ';
    put_vi_cursor(&mut setup, 3, 1);
    setup.terminal.events.push_back(InternalEvent::ViMotion(ViMotion::Last));
    assert!(refused(&mut setup));
}

#[test]
fn a_selection_moves_with_the_lines_of_the_screen() {
    let mut setup = setup();
    feed(&mut setup, "1\r\n2\r\n3\r\n4\r\n5");
    run(&mut setup);
    let mut picked = selection(AlacSelectionType::Simple, 3, 0, AlacSide::Left);
    picked.update(AlacPoint::new(Line(3), Column(0)), AlacSide::Right);
    setup.term.selection = Some(picked);
    setup.terminal.set_size(bounds_of(2, 10));
    run(&mut setup);
    assert_eq!(setup.terminal.last_content.selection_text.as_deref(), Some("5"));
    assert_eq!(setup.terminal.last_content.selection.unwrap().start.line, 1);

    // One that is as high as lines can be counted cannot move up with them
    setup.term.selection =
        Some(selection(AlacSelectionType::Simple, i32::MIN, 0, AlacSide::Left));
    setup.terminal.set_size(bounds_of(1, 10));
    assert!(refused(&mut setup));
    setup.terminal.events.clear();
    setup.terminal.set_size(bounds_of(3, 10));
    run(&mut setup);
    // The width drops the selection, wherever it is
    setup.term.selection =
        Some(selection(AlacSelectionType::Simple, i32::MIN, 0, AlacSide::Left));
    setup.terminal.set_size(bounds_of(1, 9));
    run(&mut setup);
    assert!(setup.term.selection.is_none());
}

#[test]
fn a_selection_past_the_columns_that_can_be_counted_is_refused() {
    let mut setup = setup();
    let mut far = selection(AlacSelectionType::Simple, -5, usize::MAX, AlacSide::Right);
    far.update(AlacPoint::new(Line(-5), Column(usize::MAX)), AlacSide::Left);
    setup.term.selection = Some(far.clone());
    assert!(refused(&mut setup));
    setup.terminal.toggle_vi_mode();
    setup.terminal.scroll_line_up();
    assert!(refused(&mut setup));
    assert_eq!(setup.terminal.events.len(), 1);
    setup.terminal.events.clear();
    setup.terminal.events.push_back(InternalEvent::ViMotion(ViMotion::First));
    assert!(refused(&mut setup));
    setup.terminal.events.clear();

    // The same cells from left to right, or a word there, do no harm
    far.update(AlacPoint::new(Line(-5), Column(usize::MAX)), AlacSide::Right);
    setup.term.selection = Some(far);
    run(&mut setup);
    assert!(setup.terminal.last_content.selection.is_none());
    setup.term.selection =
        Some(selection(AlacSelectionType::Semantic, 1, usize::MAX, AlacSide::Left));
    run(&mut setup);
    assert!(setup.terminal.last_content.selection.is_some());
}

#[test]
fn what_was_shown_can_be_copied() {
    let mut setup = setup();
    feed(&mut setup, "abc");
    setup.terminal.select_all(&setup.term);
    run(&mut setup);
    let copy = setup.terminal.last_content.clone();
    let content = &setup.terminal.last_content;
    assert_eq!(copy.cells.len(), content.cells.len());
    assert_eq!(copy.cells[1].c, 'b');
    assert_eq!(copy.cells[1].point, content.cells[1].point);
    assert_eq!(copy.selection, content.selection);
    assert_eq!(copy.selection_text, content.selection_text);
    assert_eq!(copy.cursor, content.cursor);
    assert_eq!(copy.terminal_bounds, content.terminal_bounds);
    assert_eq!(copy.scrolled_to_top, content.scrolled_to_top);
}
