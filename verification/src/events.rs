//! What goes into a terminal, what waits in it, and what comes out of it.
use crate::geometry::{Pixels, Point, TerminalBounds, WindowSize};
use crate::grid::{GridPoint, Scroll, SelectionView, ViMotion};
use alacritty_terminal::selection::Selection;
use std::path::PathBuf;
use vstd::prelude::*;

verus! {

/// What a terminal tells its owner.
#[derive(Clone, Debug)]
pub enum Event {
    TitleChanged,
    BreadcrumbsChanged,
    CloseTerminal,
    Bell,
    Wakeup,
    BlinkChanged(bool),
    SelectionsChanged,
    NewNavigationTarget(Option<MaybeNavigationTarget>),
    Open(MaybeNavigationTarget),
}

/// A string in a terminal that may name a file.
#[derive(Clone, Debug)]
pub struct PathLikeTarget {
    /// A path of the file system, absolute or relative, existing or not. It may have a line and a
    /// column attached, as in `file.rs:1:23`.
    pub maybe_path: String,
    /// The working directory of the terminal.
    pub terminal_dir: Option<PathBuf>,
}

/// A string in a terminal that may be something to open.
#[derive(Clone, Debug)]
pub enum MaybeNavigationTarget {
    /// An address, of the web or otherwise.
    Url(String),
    /// Something that may be a path.
    PathLike(PathLikeTarget),
}

/// A navigation target by its text.
pub enum TargetView {
    Url(Seq<char>),
    PathLike { maybe_path: Seq<char>, terminal_dir: Option<PathBuf> },
}

impl View for MaybeNavigationTarget {
    type V = TargetView;

    open spec fn view(&self) -> TargetView {
        match *self {
            MaybeNavigationTarget::Url(url) => TargetView::Url(url@),
            MaybeNavigationTarget::PathLike(target) => TargetView::PathLike {
                maybe_path: target.maybe_path@,
                terminal_dir: target.terminal_dir,
            },
        }
    }
}

/// An event with its texts.
pub enum EventView {
    TitleChanged,
    BreadcrumbsChanged,
    CloseTerminal,
    Bell,
    Wakeup,
    BlinkChanged(bool),
    SelectionsChanged,
    NewNavigationTarget(Option<TargetView>),
    Open(TargetView),
}

impl View for Event {
    type V = EventView;

    open spec fn view(&self) -> EventView {
        match *self {
            Event::TitleChanged => EventView::TitleChanged,
            Event::BreadcrumbsChanged => EventView::BreadcrumbsChanged,
            Event::CloseTerminal => EventView::CloseTerminal,
            Event::Bell => EventView::Bell,
            Event::Wakeup => EventView::Wakeup,
            Event::BlinkChanged(blinking) => EventView::BlinkChanged(blinking),
            Event::SelectionsChanged => EventView::SelectionsChanged,
            Event::NewNavigationTarget(Some(target)) => EventView::NewNavigationTarget(
                Some(target@),
            ),
            Event::NewNavigationTarget(None) => EventView::NewNavigationTarget(None),
            Event::Open(target) => EventView::Open(target@),
        }
    }
}

/// Something to do outside of the terminal.
#[derive(Clone, Debug)]
pub enum Effect {
    /// Tell the owner.
    Emit(Event),
    /// Draw the terminal anew.
    Notify,
    /// Put the text on the clipboard.
    WriteToClipboard(String),
    /// Put the text on the primary selection, on a system that has one.
    WriteToPrimary(String),
    /// Open the address.
    OpenUrl(String),
}

/// An effect with its texts.
pub enum EffectView {
    Emit(EventView),
    Notify,
    WriteToClipboard(Seq<char>),
    WriteToPrimary(Seq<char>),
    OpenUrl(Seq<char>),
}

impl View for Effect {
    type V = EffectView;

    open spec fn view(&self) -> EffectView {
        match *self {
            Effect::Emit(event) => EffectView::Emit(event@),
            Effect::Notify => EffectView::Notify,
            Effect::WriteToClipboard(text) => EffectView::WriteToClipboard(text@),
            Effect::WriteToPrimary(text) => EffectView::WriteToPrimary(text@),
            Effect::OpenUrl(url) => EffectView::OpenUrl(url@),
        }
    }
}

/// What the application has to do, in order.
pub struct Context {
    pub effects: Vec<Effect>,
}

impl View for Context {
    type V = Seq<EffectView>;

    open spec fn view(&self) -> Seq<EffectView> {
        self.effects@.map_values(|e: Effect| e@)
    }
}

impl Context {
    /// Nothing to do yet.
    pub fn new() -> (cx: Context)
        ensures
            cx@ == Seq::<EffectView>::empty(),
    {
        let cx = Context { effects: Vec::new() };
        assert(cx@ =~= Seq::<EffectView>::empty());
        cx
    }

    fn push(&mut self, effect: Effect)
        ensures
            final(self)@ == old(self)@.push(effect@),
    {
        self.effects.push(effect);
        assert(self@ =~= old(self)@.push(effect@));
    }

    /// Tells the owner.
    pub fn emit(&mut self, event: Event)
        ensures
            final(self)@ == old(self)@.push(EffectView::Emit(event@)),
    {
        self.push(Effect::Emit(event));
    }

    /// Asks for the terminal to be drawn anew.
    pub fn notify(&mut self)
        ensures
            final(self)@ == old(self)@.push(EffectView::Notify),
    {
        self.push(Effect::Notify);
    }

    /// Puts the text on the clipboard.
    pub fn write_to_clipboard(&mut self, text: String)
        ensures
            final(self)@ == old(self)@.push(EffectView::WriteToClipboard(text@)),
    {
        self.push(Effect::WriteToClipboard(text));
    }

    /// Puts the text on the primary selection.
    pub fn write_to_primary(&mut self, text: String)
        ensures
            final(self)@ == old(self)@.push(EffectView::WriteToPrimary(text@)),
    {
        self.push(Effect::WriteToPrimary(text));
    }

    /// Opens the address.
    pub fn open_url(&mut self, url: String)
        ensures
            final(self)@ == old(self)@.push(EffectView::OpenUrl(url@)),
    {
        self.push(Effect::OpenUrl(url));
    }
}

/// Something for the pty.
#[derive(Clone, Debug)]
pub enum Msg {
    /// Bytes for the program.
    Input(Vec<u8>),
    /// A new size.
    Resize(WindowSize),
    /// The end.
    Shutdown,
}

/// A message with its bytes.
pub enum MsgView {
    Input(Seq<u8>),
    Resize(WindowSize),
    Shutdown,
}

impl View for Msg {
    type V = MsgView;

    open spec fn view(&self) -> MsgView {
        match *self {
            Msg::Input(bytes) => MsgView::Input(bytes@),
            Msg::Resize(size) => MsgView::Resize(size),
            Msg::Shutdown => MsgView::Shutdown,
        }
    }
}

/// What is to be sent to the pty, in order.
pub struct Notifier {
    pub messages: Vec<Msg>,
}

impl View for Notifier {
    type V = Seq<MsgView>;

    open spec fn view(&self) -> Seq<MsgView> {
        self.messages@.map_values(|m: Msg| m@)
    }
}

impl Notifier {
    /// Nothing to send yet.
    pub fn new() -> (n: Notifier)
        ensures
            n@ == Seq::<MsgView>::empty(),
    {
        let n = Notifier { messages: Vec::new() };
        assert(n@ =~= Seq::<MsgView>::empty());
        n
    }

    /// Sends a message.
    pub fn send(&mut self, message: Msg)
        ensures
            final(self)@ == old(self)@.push(message@),
    {
        self.messages.push(message);
        assert(self@ =~= old(self)@.push(message@));
    }

    /// Sends bytes for the program.
    pub fn notify(&mut self, bytes: Vec<u8>)
        ensures
            final(self)@ == old(self)@.push(MsgView::Input(bytes@)),
    {
        self.send(Msg::Input(bytes));
    }
}

/// A place in the terminal, measured from its top left corner.
#[derive(Clone, Copy, Debug, PartialEq, Eq, Structural)]
pub enum Position {
    /// A place of the mouse.
    Mouse(Point),
    /// The top left corner of a cell: its column times the cell width from the left, its line
    /// times the line height from the top.
    Corner { cell: GridPoint, cell_width: Pixels, line_height: Pixels },
}

/// Something that waits to be done to the emulator.
pub enum InternalEvent {
    Resize(TerminalBounds),
    Clear,
    Scroll(Scroll),
    ScrollToAlacPoint(GridPoint),
    /// The selection, where one is to be set, and its head.
    SetSelection(Option<(Selection, GridPoint)>),
    UpdateSelection(Position),
    /// A place of the mouse, measured from the top left corner of the terminal, and whether what
    /// is found there is to be opened.
    FindHyperlink(Point, bool),
    /// Whether the selection is kept, where that is said.
    Copy(Option<bool>),
    ToggleViMode,
    ViMotion(ViMotion),
}

/// A waiting event with its selection.
pub enum InternalEventView {
    Resize(TerminalBounds),
    Clear,
    Scroll(Scroll),
    ScrollToAlacPoint(GridPoint),
    SetSelection(Option<(SelectionView, GridPoint)>),
    UpdateSelection(Position),
    FindHyperlink(Point, bool),
    Copy(Option<bool>),
    ToggleViMode,
    ViMotion(ViMotion),
}

impl View for InternalEvent {
    type V = InternalEventView;

    open spec fn view(&self) -> InternalEventView {
        match *self {
            InternalEvent::Resize(bounds) => InternalEventView::Resize(bounds),
            InternalEvent::Clear => InternalEventView::Clear,
            InternalEvent::Scroll(scroll) => InternalEventView::Scroll(scroll),
            InternalEvent::ScrollToAlacPoint(p) => InternalEventView::ScrollToAlacPoint(p),
            InternalEvent::SetSelection(Some((s, head))) => InternalEventView::SetSelection(
                Some((crate::alac::selection_view(s), head)),
            ),
            InternalEvent::SetSelection(None) => InternalEventView::SetSelection(None),
            InternalEvent::UpdateSelection(position) => InternalEventView::UpdateSelection(
                position,
            ),
            InternalEvent::FindHyperlink(position, open) => InternalEventView::FindHyperlink(
                position,
                open,
            ),
            InternalEvent::Copy(keep) => InternalEventView::Copy(keep),
            InternalEvent::ToggleViMode => InternalEventView::ToggleViMode,
            InternalEvent::ViMotion(motion) => InternalEventView::ViMotion(motion),
        }
    }
}

/// What the emulator told.
#[derive(Clone, Debug)]
pub enum TermEvent {
    /// The program has another title.
    Title(String),
    /// The program has no title any more.
    ResetTitle,
    /// The program puts a text on the clipboard.
    ClipboardStore(String),
    /// The program asks for the text of the clipboard.
    ClipboardLoad,
    /// The program is to be sent a text.
    PtyWrite(String),
    /// The program asks for the size of the terminal.
    TextAreaSizeRequest,
    /// The cursor may blink now, or no longer.
    CursorBlinkingChange,
    /// The bell rings.
    Bell,
    /// The terminal is to be shut down.
    Exit,
    /// What is under the mouse may have changed.
    MouseCursorDirty,
    /// There is something new to show.
    Wakeup,
    /// The program asks for the colour of an index.
    ColorRequest(usize),
    /// The program ended with an exit code.
    ChildExit(i32),
}

/// What the emulator told, with its texts.
pub enum TermEventView {
    Title(Seq<char>),
    ResetTitle,
    ClipboardStore(Seq<char>),
    ClipboardLoad,
    PtyWrite(Seq<char>),
    TextAreaSizeRequest,
    CursorBlinkingChange,
    Bell,
    Exit,
    MouseCursorDirty,
    Wakeup,
    ColorRequest(usize),
    ChildExit(i32),
}

impl View for TermEvent {
    type V = TermEventView;

    open spec fn view(&self) -> TermEventView {
        match *self {
            TermEvent::Title(title) => TermEventView::Title(title@),
            TermEvent::ResetTitle => TermEventView::ResetTitle,
            TermEvent::ClipboardStore(text) => TermEventView::ClipboardStore(text@),
            TermEvent::ClipboardLoad => TermEventView::ClipboardLoad,
            TermEvent::PtyWrite(text) => TermEventView::PtyWrite(text@),
            TermEvent::TextAreaSizeRequest => TermEventView::TextAreaSizeRequest,
            TermEvent::CursorBlinkingChange => TermEventView::CursorBlinkingChange,
            TermEvent::Bell => TermEventView::Bell,
            TermEvent::Exit => TermEventView::Exit,
            TermEvent::MouseCursorDirty => TermEventView::MouseCursorDirty,
            TermEvent::Wakeup => TermEventView::Wakeup,
            TermEvent::ColorRequest(index) => TermEventView::ColorRequest(index),
            TermEvent::ChildExit(error_code) => TermEventView::ChildExit(error_code),
        }
    }
}

} // verus!
