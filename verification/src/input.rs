//! Keys, text and focus.
use crate::alac;
use crate::events::{Context, EffectView, InternalEvent, InternalEventView, MsgView, Position};
use crate::grid::{
    AnchorView, GridPoint, Scroll, SelectionType, SelectionView, Side, TermMode, ViMotion,
    BRACKETED_PASTE, FOCUS_IN_OUT,
};
use crate::sync::HoverProbe;
use crate::terminal::Terminal;
use crate::text::{normalize_line_ends, remove_char, str_eq, to_uppercase};
use vstd::prelude::*;
use vstd::string::*;

verus! {

/// The keys that modify others.
#[derive(Clone, Copy, Debug, PartialEq, Eq, Structural)]
pub struct Modifiers {
    pub control: bool,
    pub shift: bool,
    /// The key for following links: the system's own, or control, as the system has it.
    pub secondary: bool,
}

/// A key, and the keys held down with it.
#[derive(Clone, Debug)]
pub struct Keystroke {
    pub modifiers: Modifiers,
    pub key: String,
}

/// What a key does in vi mode.
#[derive(Clone, Copy, Debug, PartialEq, Eq, Structural)]
pub enum ViCommand {
    /// Moves the cursor, and the end of the selection to where it was.
    Motion(ViMotion),
    /// Scrolls.
    Scroll(Scroll),
    /// Starts a selection at the cursor.
    Select,
    /// Drops the selection.
    Deselect,
    /// Copies the selection and drops it.
    Yank,
    /// Shows the bottom and leaves vi mode.
    Insert,
    /// Nothing.
    Nothing,
}

/// Half of a number, cut off towards zero.
pub open spec fn half(n: int) -> int {
    if n >= 0 {
        n / 2
    } else {
        -((-n) / 2)
    }
}

/// The movement of the cursor that a key stands for.
pub open spec fn key_motion(key: Seq<char>, control: bool) -> Option<ViMotion> {
    if key == "h"@ || key == "left"@ {
        Some(ViMotion::Left)
    } else if key == "j"@ || key == "down"@ {
        Some(ViMotion::Down)
    } else if key == "k"@ || key == "up"@ {
        Some(ViMotion::Up)
    } else if key == "l"@ || key == "right"@ {
        Some(ViMotion::Right)
    } else if key == "w"@ {
        Some(ViMotion::WordRight)
    } else if key == "b"@ && !control {
        Some(ViMotion::WordLeft)
    } else if key == "e"@ {
        Some(ViMotion::WordRightEnd)
    } else if key == "%"@ {
        Some(ViMotion::Bracket)
    } else if key == "$"@ {
        Some(ViMotion::Last)
    } else if key == "0"@ {
        Some(ViMotion::First)
    } else if key == "^"@ {
        Some(ViMotion::FirstOccupied)
    } else if key == "H"@ {
        Some(ViMotion::High)
    } else if key == "M"@ {
        Some(ViMotion::Middle)
    } else if key == "L"@ {
        Some(ViMotion::Low)
    } else {
        None
    }
}

/// The scroll that a key stands for; half a line height, in pixels, is the number of lines that
/// `d` and `u` scroll.
pub open spec fn key_scroll(key: Seq<char>, control: bool, line_height: int) -> Option<Scroll> {
    if key == "g"@ {
        Some(Scroll::Top)
    } else if key == "G"@ {
        Some(Scroll::Bottom)
    } else if key == "b"@ && control {
        Some(Scroll::PageUp)
    } else if key == "f"@ && control {
        Some(Scroll::PageDown)
    } else if key == "d"@ && control {
        Some(Scroll::Delta((-half(line_height)) as i32))
    } else if key == "u"@ && control {
        Some(Scroll::Delta(half(line_height) as i32))
    } else {
        None
    }
}

/// What a key does in vi mode.
pub open spec fn key_command(key: Seq<char>, control: bool, line_height: int) -> ViCommand {
    match key_motion(key, control) {
        Some(motion) => ViCommand::Motion(motion),
        None => match key_scroll(key, control, line_height) {
            Some(scroll) => ViCommand::Scroll(scroll),
            None => if key == "v"@ {
                ViCommand::Select
            } else if key == "escape"@ {
                ViCommand::Deselect
            } else if key == "y"@ {
                ViCommand::Yank
            } else if key == "i"@ {
                ViCommand::Insert
            } else {
                ViCommand::Nothing
            },
        },
    }
}

/// A selection of nothing, to the right of a cell.
pub open spec fn empty_selection(p: GridPoint) -> SelectionView {
    let anchor = AnchorView { point: p, side: Side::Right };
    SelectionView { ty: SelectionType::Simple, start: anchor, end: anchor }
}

/// The text that is sent for pasted text: in brackets, where the program asked for them, and
/// without the character by which it could close them; else with its line ends as the key for
/// them sends.
pub open spec fn pasted(text: Seq<char>, mode: TermMode) -> Seq<char> {
    if mode.has(BRACKETED_PASTE) {
        "\x1b[200~"@ + text.filter(|c: char| c != '\x1b') + "\x1b[201~"@
    } else {
        crate::text::line_ends_to_cr(text)
    }
}

fn motion_of(key: &str, control: bool) -> (motion: Option<ViMotion>)
    ensures
        motion == key_motion(key@, control),
{
    if str_eq(key, "h") || str_eq(key, "left") {
        Some(ViMotion::Left)
    } else if str_eq(key, "j") || str_eq(key, "down") {
        Some(ViMotion::Down)
    } else if str_eq(key, "k") || str_eq(key, "up") {
        Some(ViMotion::Up)
    } else if str_eq(key, "l") || str_eq(key, "right") {
        Some(ViMotion::Right)
    } else if str_eq(key, "w") {
        Some(ViMotion::WordRight)
    } else if str_eq(key, "b") && !control {
        Some(ViMotion::WordLeft)
    } else if str_eq(key, "e") {
        Some(ViMotion::WordRightEnd)
    } else if str_eq(key, "%") {
        Some(ViMotion::Bracket)
    } else if str_eq(key, "$") {
        Some(ViMotion::Last)
    } else if str_eq(key, "0") {
        Some(ViMotion::First)
    } else if str_eq(key, "^") {
        Some(ViMotion::FirstOccupied)
    } else if str_eq(key, "H") {
        Some(ViMotion::High)
    } else if str_eq(key, "M") {
        Some(ViMotion::Middle)
    } else if str_eq(key, "L") {
        Some(ViMotion::Low)
    } else {
        None
    }
}

fn half_of(n: i32) -> (r: i32)
    ensures
        r == half(n as int),
        -0x4000_0000 <= r <= 0x4000_0000,
{
    if n >= 0 {
        n / 2
    } else {
        let m: i64 = -(n as i64);
        -((m / 2) as i32)
    }
}

fn scroll_of(key: &str, control: bool, line_height: i32) -> (scroll: Option<Scroll>)
    ensures
        scroll == key_scroll(key@, control, line_height as int),
{
    if str_eq(key, "g") {
        Some(Scroll::Top)
    } else if str_eq(key, "G") {
        Some(Scroll::Bottom)
    } else if str_eq(key, "b") && control {
        Some(Scroll::PageUp)
    } else if str_eq(key, "f") && control {
        Some(Scroll::PageDown)
    } else if str_eq(key, "d") && control {
        Some(Scroll::Delta(-half_of(line_height)))
    } else if str_eq(key, "u") && control {
        Some(Scroll::Delta(half_of(line_height)))
    } else {
        None
    }
}

/// What a key does in vi mode; `line_height` is in whole pixels.
pub fn vi_command(key: &str, control: bool, line_height: i32) -> (command: ViCommand)
    ensures
        command == key_command(key@, control, line_height as int),
{
    if let Some(motion) = motion_of(key, control) {
        return ViCommand::Motion(motion);
    }
    if let Some(scroll) = scroll_of(key, control, line_height) {
        return ViCommand::Scroll(scroll);
    }
    if str_eq(key, "v") {
        ViCommand::Select
    } else if str_eq(key, "escape") {
        ViCommand::Deselect
    } else if str_eq(key, "y") {
        ViCommand::Yank
    } else if str_eq(key, "i") {
        ViCommand::Insert
    } else {
        ViCommand::Nothing
    }
}

/// The text that is sent for pasted text.
pub fn paste_text(text: &str, mode: TermMode) -> (r: String)
    ensures
        r@ == pasted(text@, mode),
{
    if mode.contains(BRACKETED_PASTE) {
        let mut r = "\x1b[200~".to_owned();
        r.append(remove_char(text, '\x1b').as_str());
        r.append("\x1b[201~");
        r
    } else {
        normalize_line_ends(text)
    }
}

impl Keystroke {
    /// The key as it is read in vi mode: in upper case, where shift is held down.
    pub open spec fn shifted(self) -> Seq<char> {
        if self.modifiers.shift {
            crate::text::uppercase(self.key@)
        } else {
            self.key@
        }
    }
}

impl Terminal {
    /// The events by which a command of vi mode is carried out.
    pub open spec fn command_events(self, command: ViCommand) -> Seq<InternalEventView> {
        let cursor = self.last_content.cursor.point;
        match command {
            ViCommand::Motion(motion) => seq![
                InternalEventView::UpdateSelection(
                    Position::Corner {
                        cell: cursor,
                        cell_width: self.last_content.terminal_bounds.cell_width,
                        line_height: self.last_content.terminal_bounds.line_height,
                    },
                ),
                InternalEventView::ViMotion(motion),
            ],
            ViCommand::Scroll(scroll) => seq![InternalEventView::Scroll(scroll)],
            ViCommand::Select => seq![
                InternalEventView::SetSelection(Some((empty_selection(cursor), cursor))),
            ],
            ViCommand::Deselect => seq![InternalEventView::SetSelection(None)],
            ViCommand::Yank => seq![InternalEventView::Copy(Some(false))],
            ViCommand::Insert => seq![
                InternalEventView::Scroll(Scroll::Bottom),
                InternalEventView::ToggleViMode,
            ],
            ViCommand::Nothing => Seq::empty(),
        }
    }

    /// The command of vi mode that a keystroke stands for.
    pub open spec fn keystroke_command(self, keystroke: Keystroke) -> ViCommand {
        key_command(
            keystroke.shifted(),
            keystroke.modifiers.control,
            self.last_content.terminal_bounds.line_height.whole as int,
        )
    }

    /// Carries out a command of vi mode.
    pub fn run_vi_command(&mut self, command: ViCommand)
        ensures
            final(self).queues(*old(self), old(self).command_events(command)),
    {
        let cursor: GridPoint = self.last_content.cursor.point;
        match command {
            ViCommand::Motion(motion) => {
                self.push_event(
                    InternalEvent::UpdateSelection(
                        Position::Corner {
                            cell: cursor,
                            cell_width: self.last_content.terminal_bounds.cell_width,
                            line_height: self.last_content.terminal_bounds.line_height,
                        },
                    ),
                );
                self.push_event(InternalEvent::ViMotion(motion));
            },
            ViCommand::Scroll(scroll) => {
                self.push_event(InternalEvent::Scroll(scroll));
            },
            ViCommand::Select => {
                let selection = alac::new_selection(SelectionType::Simple, cursor, Side::Right);
                self.set_selection(Some((selection, cursor)));
            },
            ViCommand::Deselect => {
                self.set_selection(None);
            },
            ViCommand::Yank => {
                self.copy(Some(false));
            },
            ViCommand::Insert => {
                self.scroll_to_bottom();
                self.toggle_vi_mode();
            },
            ViCommand::Nothing => {},
        }
        assert(self.queue() =~= old(self).queue() + old(self).command_events(command));
    }

    /// Whether this is the terminal `before` once it has been given a key for vi mode.
    pub open spec fn moves_in_vi_mode(self, before: Terminal, keystroke: Keystroke) -> bool {
        if before.vi_mode_enabled {
            self.queues(before, before.command_events(before.keystroke_command(keystroke)))
        } else {
            self == before
        }
    }

    /// Takes a key in vi mode; does nothing outside of it.
    pub fn vi_motion(&mut self, keystroke: &Keystroke)
        ensures
            final(self).moves_in_vi_mode(*old(self), *keystroke),
    {
        if !self.vi_mode_enabled {
            return;
        }
        let key: String = if keystroke.modifiers.shift {
            to_uppercase(keystroke.key.as_str())
        } else {
            keystroke.key.clone()
        };
        let line_height: i32 = self.last_content.terminal_bounds.line_height().whole;
        let command = vi_command(key.as_str(), keystroke.modifiers.control, line_height);
        self.run_vi_command(command);
    }

    /// Whether this is the terminal `before` once it has been given a key, and `taken` whether the
    /// key meant anything to it.
    pub open spec fn takes_key(
        self,
        before: Terminal,
        keystroke: Keystroke,
        esc: Option<String>,
        taken: bool,
    ) -> bool {
        &&& taken == (before.vi_mode_enabled || esc is Some)
        &&& if before.vi_mode_enabled {
            self.queues(before, before.command_events(before.keystroke_command(keystroke)))
        } else {
            match esc {
                Some(esc) => self.has_input(before, vstd::utf8::encode_utf8(esc@)),
                None => self == before,
            }
        }
    }

    /// Takes a key; says whether it meant anything to the terminal. `esc` is what a program is sent
    /// for the key, where it is sent something.
    pub fn try_keystroke(&mut self, keystroke: &Keystroke, esc: Option<String>) -> (taken: bool)
        ensures
            final(self).takes_key(*old(self), *keystroke, esc, taken),
    {
        if self.vi_mode_enabled {
            self.vi_motion(keystroke);
            return true;
        }
        match esc {
            Some(esc) => {
                self.input(esc.as_str().as_bytes_vec());
                true
            },
            None => false,
        }
    }

    /// Whether this is the terminal `before` once the modifying keys have been taken notice of, and
    /// `told` the effects of that.
    pub open spec fn notices_modifiers(
        self,
        before: Terminal,
        modifiers: Modifiers,
        probe: HoverProbe,
        told: Seq<EffectView>,
    ) -> bool {
        &&& told == seq![EffectView::Notify]
        &&& if probe.in_bounds && modifiers.secondary {
            self.hovers(before, probe)
        } else {
            self == before
        }
    }

    /// Takes notice of the modifying keys: the one for following links makes the link under the
    /// mouse stand out.
    pub fn try_modifiers_change(
        &mut self,
        modifiers: &Modifiers,
        probe: HoverProbe,
        cx: &mut Context,
    )
        ensures
            final(cx)@ == old(cx)@.push(EffectView::Notify),
            final(self).notices_modifiers(
                *old(self),
                *modifiers,
                probe,
                final(cx)@.skip(old(cx)@.len() as int),
            ),
    {
        if probe.in_bounds && modifiers.secondary {
            self.refresh_hovered_word(probe);
        }
        cx.notify();
        assert(cx@.skip(old(cx)@.len() as int) =~= seq![EffectView::Notify]);
    }

    /// Whether this is the terminal `before` with the text pasted.
    pub open spec fn pastes(self, before: Terminal, text: Seq<char>) -> bool {
        self.has_input(
            before,
            vstd::utf8::encode_utf8(pasted(text, before.last_content.mode)),
        )
    }

    /// Pastes text.
    pub fn paste(&mut self, text: &str)
        ensures
            final(self).pastes(*old(self), text@),
    {
        let paste_text = paste_text(text, self.last_content.mode);
        self.input(paste_text.as_str().as_bytes_vec());
    }

    /// Whether this is the terminal `before` once it has got the focus, or lost it.
    pub open spec fn tells_focus(self, before: Terminal, focused: bool) -> bool {
        if before.last_content.mode.has(FOCUS_IN_OUT) {
            let text = if focused {
                "\x1b[I"@
            } else {
                "\x1b[O"@
            };
            self.sends(before, seq![MsgView::Input(vstd::utf8::encode_utf8(text))])
        } else {
            self == before
        }
    }

    /// The terminal has the focus now; a program that asked for it is told.
    pub fn focus_in(&mut self)
        ensures
            final(self).tells_focus(*old(self), true),
    {
        if self.last_content.mode.contains(FOCUS_IN_OUT) {
            self.write_to_pty("\x1b[I".as_bytes_vec());
        }
    }

    /// The terminal has lost the focus; a program that asked for it is told.
    pub fn focus_out(&mut self)
        ensures
            final(self).tells_focus(*old(self), false),
    {
        if self.last_content.mode.contains(FOCUS_IN_OUT) {
            self.write_to_pty("\x1b[O".as_bytes_vec());
        }
    }
}

} // verus!
