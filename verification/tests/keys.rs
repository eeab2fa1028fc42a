use futures::channel::mpsc::unbounded;
use std::path::PathBuf;
use terminal::alac::ZedListener;
use terminal::builder::{AlternateScroll, Surroundings, TerminalBuilder};
use terminal::env::Env;
use terminal::events::{Context, Effect, InternalEvent, Msg, Position};
use terminal::geometry::{Pixels, Point};
use terminal::grid::{
    CursorShape, CursorStyle, GridPoint, Scroll, Side, TermMode, ViMotion, ALTERNATE_SCROLL,
    ALT_SCREEN, BRACKETED_PASTE, FOCUS_IN_OUT, MOUSE_MODE, MOUSE_REPORT_CLICK,
};
use terminal::input::{paste_text, vi_command, Keystroke, Modifiers, ViCommand};
use terminal::mouse::{drag_line_delta, ClipboardItem, MouseButton, TouchPhase, WheelMotion};
use terminal::sync::HoverProbe;
use terminal::task::Shell;
use terminal::terminal::{SelectionPhase, Terminal};

fn build() -> Terminal {
    let (sender, _) = unbounded();
    TerminalBuilder::new(
        None,
        None,
        None,
        Shell::System,
        Env::new(),
        CursorStyle { shape: CursorShape::Block, blinking: false },
        AlternateScroll::On,
        None,
        false,
        Surroundings {
            lang_is_set: true,
            version: "1".to_owned(),
            system_shell: None,
            shell_sends_title: false,
            home: PathBuf::from("/"),
            now: 0,
        },
        ZedListener(sender),
    )
    .terminal
}

fn px(value: f32) -> Pixels {
    Pixels { bits: value.to_bits(), whole: value as i32 }
}

fn at(x: f32) -> Point {
    Point { x: px(x), y: px(0.) }
}

fn plain() -> Modifiers {
    Modifiers { control: false, shift: false, secondary: false }
}

fn key(key: &str, modifiers: Modifiers) -> Keystroke {
    Keystroke { modifiers, key: key.to_owned() }
}

fn sent(terminal: &Terminal) -> Vec<String> {
    terminal
        .pty_tx
        .messages
        .iter()
        .map(|message| match message {
            Msg::Input(bytes) => String::from_utf8(bytes.clone()).unwrap(),
            other => format!("{:?}", other),
        })
        .collect()
}

fn probe(in_bounds: bool) -> HoverProbe {
    HoverProbe { position: at(3.), offset: at(3.), in_bounds, moved: true, now: 1 }
}

#[test]
fn vi_keys_stand_for_commands() {
    let motion = |key: &str| vi_command(key, false, 0);
    for (key, expected) in [
        ("h", ViMotion::Left),
        ("left", ViMotion::Left),
        ("j", ViMotion::Down),
        ("down", ViMotion::Down),
        ("k", ViMotion::Up),
        ("up", ViMotion::Up),
        ("l", ViMotion::Right),
        ("right", ViMotion::Right),
        ("w", ViMotion::WordRight),
        ("b", ViMotion::WordLeft),
        ("e", ViMotion::WordRightEnd),
        ("%", ViMotion::Bracket),
        ("$", ViMotion::Last),
        ("0", ViMotion::First),
        ("^", ViMotion::FirstOccupied),
        ("H", ViMotion::High),
        ("M", ViMotion::Middle),
        ("L", ViMotion::Low),
    ] {
        assert_eq!(motion(key), ViCommand::Motion(expected));
    }
    assert_eq!(motion("g"), ViCommand::Scroll(Scroll::Top));
    assert_eq!(motion("G"), ViCommand::Scroll(Scroll::Bottom));
    assert_eq!(vi_command("b", true, 0), ViCommand::Scroll(Scroll::PageUp));
    assert_eq!(vi_command("f", true, 0), ViCommand::Scroll(Scroll::PageDown));
    assert_eq!(vi_command("d", true, 19), ViCommand::Scroll(Scroll::Delta(-9)));
    assert_eq!(vi_command("u", true, 19), ViCommand::Scroll(Scroll::Delta(9)));
    assert_eq!(vi_command("u", true, -19), ViCommand::Scroll(Scroll::Delta(-9)));
    assert_eq!(motion("f"), ViCommand::Nothing);
    assert_eq!(motion("v"), ViCommand::Select);
    assert_eq!(motion("escape"), ViCommand::Deselect);
    assert_eq!(motion("y"), ViCommand::Yank);
    assert_eq!(motion("i"), ViCommand::Insert);
    assert_eq!(motion("q"), ViCommand::Nothing);
}

#[test]
fn vi_keys_do_nothing_outside_vi_mode() {
    let mut terminal = build();
    terminal.vi_motion(&key("g", plain()));
    assert_eq!(terminal.events.len(), 0);
}

#[test]
fn shift_turns_a_key_into_upper_case() {
    let mut terminal = build();
    terminal.vi_mode_enabled = true;
    assert!(terminal.try_keystroke(&key("g", Modifiers { shift: true, ..plain() }), None));
    assert!(matches!(terminal.events[0], InternalEvent::Scroll(Scroll::Bottom)));
    assert!(terminal.try_keystroke(&key("g", plain()), None));
    assert!(matches!(terminal.events[1], InternalEvent::Scroll(Scroll::Top)));
}

#[test]
fn a_motion_moves_the_end_of_the_selection_to_the_cursor_first() {
    let mut terminal = build();
    terminal.vi_mode_enabled = true;
    terminal.last_content.cursor.point = GridPoint { line: 2, column: 3 };
    terminal.vi_motion(&key("h", plain()));
    assert_eq!(terminal.events.len(), 2);
    assert!(matches!(
        terminal.events[0],
        InternalEvent::UpdateSelection(Position::Corner { cell, cell_width, line_height })
            if cell == (GridPoint { line: 2, column: 3 })
                && cell_width.whole == 5 && line_height.whole == 5
    ));
    assert!(matches!(terminal.events[1], InternalEvent::ViMotion(ViMotion::Left)));
}

#[test]
fn keys_are_sent_to_the_program() {
    let mut terminal = build();
    assert!(!terminal.try_keystroke(&key("shift", plain()), None));
    assert_eq!(sent(&terminal), Vec::<String>::new());
    assert!(terminal.try_keystroke(&key("up", plain()), Some("\x1b[A".to_owned())));
    assert_eq!(sent(&terminal), vec!["\x1b[A"]);
    assert!(matches!(terminal.events[0], InternalEvent::Scroll(Scroll::Bottom)));
    assert!(matches!(terminal.events[1], InternalEvent::SetSelection(None)));
}

#[test]
fn pasted_text_has_its_line_ends_changed() {
    let mode = TermMode { bits: 0 };
    assert_eq!(paste_text("a\r\nb\nc\r", mode), "a\rb\rc\r");
    assert_eq!(paste_text("\r\r\n\n", mode), "\r\r\r");
    let mut terminal = build();
    terminal.paste("x\ny");
    assert_eq!(sent(&terminal), vec!["x\ry"]);
}

#[test]
fn pasted_text_is_put_in_brackets() {
    let mode = TermMode { bits: BRACKETED_PASTE };
    assert_eq!(paste_text("a\x1b[201~\nb", mode), "\x1b[200~a[201~\nb\x1b[201~");
    let mut terminal = build();
    terminal.last_content.mode = mode;
    terminal.paste("x");
    assert_eq!(sent(&terminal), vec!["\x1b[200~x\x1b[201~"]);
}

#[test]
fn focus_is_told_to_programs_that_asked() {
    let mut terminal = build();
    terminal.focus_in();
    terminal.focus_out();
    assert_eq!(sent(&terminal), Vec::<String>::new());
    terminal.last_content.mode = TermMode { bits: FOCUS_IN_OUT };
    terminal.focus_in();
    terminal.focus_out();
    assert_eq!(sent(&terminal), vec!["\x1b[I", "\x1b[O"]);
}

#[test]
fn modifiers_point_links_out() {
    let mut terminal = build();
    let mut cx = Context::new();
    terminal.try_modifiers_change(&plain(), probe(true), &mut cx);
    assert_eq!(terminal.events.len(), 0);
    let secondary = Modifiers { secondary: true, ..plain() };
    terminal.try_modifiers_change(&secondary, probe(false), &mut cx);
    assert_eq!(terminal.events.len(), 0);
    terminal.try_modifiers_change(&secondary, probe(true), &mut cx);
    assert!(matches!(terminal.events[0], InternalEvent::FindHyperlink(p, false) if p == at(3.)));
    assert!(cx.effects.iter().all(|effect| matches!(effect, Effect::Notify)));
    assert_eq!(cx.effects.len(), 3);
}

#[test]
fn a_resting_mouse_is_reported_once() {
    let mut terminal = build();
    let point = GridPoint { line: 1, column: 1 };
    assert!(terminal.mouse_changed(point, Side::Left));
    assert!(!terminal.mouse_changed(point, Side::Left));
    assert!(terminal.mouse_changed(point, Side::Right));

    terminal.last_content.mode = TermMode { bits: MOUSE_REPORT_CLICK };
    assert!(terminal.mouse_mode(false));
    assert!(!terminal.mouse_mode(true));
    let mut cx = Context::new();
    let report = || Some(b"moved".to_vec());
    terminal.mouse_move(&plain(), (point, Side::Right), report(), probe(true), &mut cx);
    assert_eq!(sent(&terminal), Vec::<String>::new());
    terminal.mouse_move(&plain(), (point, Side::Left), report(), probe(true), &mut cx);
    assert_eq!(sent(&terminal), vec!["moved"]);
    assert_eq!(cx.effects.len(), 2);
}

#[test]
fn a_moving_mouse_looks_for_links() {
    let mut terminal = build();
    let mut cx = Context::new();
    let hit = (GridPoint { line: 1, column: 1 }, Side::Left);
    terminal.mouse_move(&plain(), hit, None, probe(true), &mut cx);
    assert_eq!(terminal.events.len(), 0);
    let secondary = Modifiers { secondary: true, ..plain() };
    terminal.mouse_move(&secondary, hit, None, probe(true), &mut cx);
    assert_eq!(terminal.events.len(), 1);
    assert!(terminal.last_mouse.is_none());
}

#[test]
fn a_drag_scrolls_three_lines_at_most() {
    assert_eq!(drag_line_delta(None), None);
    assert_eq!(drag_line_delta(Some(2)), Some(2));
    assert_eq!(drag_line_delta(Some(30)), Some(3));
    assert_eq!(drag_line_delta(Some(-4)), Some(-3));

    let mut terminal = build();
    let mut cx = Context::new();
    terminal.mouse_drag(&plain(), at(1.), Some(9), &mut cx);
    assert_eq!(terminal.selection_phase, SelectionPhase::Selecting);
    assert!(matches!(
        terminal.events[0],
        InternalEvent::UpdateSelection(Position::Mouse(p)) if p == at(1.)
    ));
    assert!(matches!(terminal.events[1], InternalEvent::Scroll(Scroll::Delta(3))));
    assert_eq!(cx.effects.len(), 1);

    // Inside the terminal nothing scrolls, and nothing is drawn yet
    terminal.mouse_drag(&plain(), at(1.), None, &mut cx);
    assert_eq!(terminal.events.len(), 3);
    assert_eq!(cx.effects.len(), 1);

    terminal.last_content.mode = TermMode { bits: ALT_SCREEN };
    terminal.mouse_drag(&plain(), at(1.), Some(9), &mut cx);
    assert_eq!(terminal.events.len(), 4);
    assert_eq!(cx.effects.len(), 2);

    terminal.last_content.mode = TermMode { bits: MOUSE_MODE };
    terminal.mouse_drag(&plain(), at(1.), Some(9), &mut cx);
    assert_eq!(terminal.events.len(), 4);
}

#[test]
fn clicks_select_by_their_number() {
    let mut terminal = build();
    let hit = (GridPoint { line: 1, column: 1 }, Side::Left);
    let shift = Modifiers { shift: true, ..plain() };
    terminal.mouse_down(MouseButton::Left, &plain(), 0, at(1.), hit, None, None);
    terminal.mouse_down(MouseButton::Left, &plain(), 4, at(1.), hit, None, None);
    terminal.mouse_down(MouseButton::Right, &plain(), 1, at(1.), hit, None, None);
    terminal.mouse_down(MouseButton::Other, &plain(), 1, at(1.), hit, None, None);
    assert_eq!(terminal.events.len(), 0);
    terminal.mouse_down(MouseButton::Left, &shift, 1, at(1.), hit, None, None);
    assert!(matches!(terminal.events[0], InternalEvent::UpdateSelection(Position::Mouse(_))));
    terminal.mouse_down(MouseButton::Left, &shift, 2, at(1.), hit, None, None);
    assert!(matches!(
        &terminal.events[1],
        InternalEvent::SetSelection(Some((_, head))) if *head == hit.0
    ));
}

#[test]
fn the_middle_button_puts_text_in() {
    let mut terminal = build();
    let hit = (GridPoint { line: 1, column: 1 }, Side::Left);
    let click = |terminal: &mut Terminal, item: Option<ClipboardItem>| {
        terminal.mouse_down(MouseButton::Middle, &plain(), 1, at(1.), hit, None, item)
    };
    click(&mut terminal, None);
    assert_eq!(sent(&terminal), Vec::<String>::new());
    click(&mut terminal, Some(ClipboardItem { text: Some("p".to_owned()) }));
    click(&mut terminal, Some(ClipboardItem { text: None }));
    assert_eq!(sent(&terminal), vec!["p", ""]);
    assert_eq!(terminal.events.len(), 4);
}

#[test]
fn a_program_with_the_mouse_is_sent_reports() {
    let mut terminal = build();
    terminal.last_content.mode = TermMode { bits: MOUSE_REPORT_CLICK };
    let hit = (GridPoint { line: 1, column: 1 }, Side::Left);
    terminal.mouse_down(
        MouseButton::Left,
        &plain(),
        1,
        at(1.),
        hit,
        Some(b"down".to_vec()),
        None,
    );
    terminal.last_mouse = Some(hit);
    let mut cx = Context::new();
    terminal.mouse_up(
        MouseButton::Left,
        &plain(),
        true,
        0,
        0,
        at(1.),
        Some(b"up".to_vec()),
        &mut cx,
    );
    assert_eq!(sent(&terminal), vec!["down", "up"]);
    assert_eq!(terminal.events.len(), 0);
    assert!(terminal.last_mouse.is_none());
}

#[test]
fn a_released_button_copies() {
    let mut terminal = build();
    let mut cx = Context::new();
    terminal.selection_phase = SelectionPhase::Selecting;
    // Without any cell, as one was being selected
    terminal.mouse_up(MouseButton::Left, &plain(), true, 0, 0, at(1.), None, &mut cx);
    assert!(matches!(terminal.events[0], InternalEvent::Copy(Some(true))));
    assert_eq!(terminal.selection_phase, SelectionPhase::Ended);
    assert!(!terminal.is_cell_shown(0, 0));
}

#[test]
fn a_moved_wheel_scrolls() {
    let mut terminal = build();
    let motion = WheelMotion { old_offset: 1, new_offset: 4, scroll_px: px(2.) };
    let still = WheelMotion { old_offset: 4, new_offset: 4, scroll_px: px(3.) };
    let wheel = |terminal: &mut Terminal, phase: TouchPhase, motion: WheelMotion, shift: bool| {
        terminal.scroll_wheel(
            phase,
            motion,
            shift,
            |lines: i32| Some(vec![vec![b'r'; lines as usize], b"s".to_vec()]),
            |lines: i32| vec![b'a'; lines as usize],
        )
    };
    wheel(&mut terminal, TouchPhase::Moved, motion, false);
    assert!(matches!(terminal.events[0], InternalEvent::Scroll(Scroll::Delta(3))));
    assert_eq!(terminal.scroll_px, px(2.));
    wheel(&mut terminal, TouchPhase::Moved, still, false);
    wheel(&mut terminal, TouchPhase::Ended, motion, false);
    assert_eq!(terminal.events.len(), 1);
    assert_eq!(terminal.scroll_px, px(3.));
    wheel(&mut terminal, TouchPhase::Started, motion, false);
    assert_eq!(terminal.scroll_px, px(0.));

    terminal.last_content.mode = TermMode { bits: ALT_SCREEN | ALTERNATE_SCROLL };
    wheel(&mut terminal, TouchPhase::Moved, motion, false);
    assert_eq!(sent(&terminal), vec!["aaa"]);
    wheel(&mut terminal, TouchPhase::Moved, motion, true);
    assert_eq!(terminal.events.len(), 2);

    terminal.last_content.mode = TermMode { bits: MOUSE_MODE };
    wheel(&mut terminal, TouchPhase::Moved, motion, false);
    assert_eq!(sent(&terminal), vec!["aaa", "rrr", "s"]);
}
