//! The mouse over a terminal.
use crate::alac;
use crate::events::{Context, EffectView, InternalEvent, InternalEventView, MsgView, Position};
use crate::geometry::{content_index_for_mouse, Pixels, Point};
use crate::grid::{
    AnchorView, GridPoint, Scroll, SelectionType, SelectionView, Side, ALTERNATE_SCROLL,
    ALT_SCREEN, MOUSE_MODE,
};
use crate::input::Modifiers;
use crate::sync::HoverProbe;
use crate::terminal::{SelectionPhase, Terminal};
use vstd::prelude::*;
use vstd::string::*;

verus! {

/// A button of the mouse.
#[derive(Clone, Copy, Debug, PartialEq, Eq, Structural)]
pub enum MouseButton {
    Left,
    Middle,
    Right,
    Other,
}

/// What is on a clipboard; it may hold something other than text.
#[derive(Clone, Debug)]
pub struct ClipboardItem {
    pub text: Option<String>,
}

/// The stage of a movement on the wheel or the touchpad.
#[derive(Clone, Copy, Debug, PartialEq, Eq, Structural)]
pub enum TouchPhase {
    Started,
    Moved,
    Ended,
}

/// A movement of the wheel, added up with those before it: the whole lines of the sum before and
/// after it, and the sum itself, of which whole heights of the terminal are left out.
#[derive(Clone, Copy, Debug, PartialEq, Eq, Structural)]
pub struct WheelMotion {
    pub old_offset: i32,
    pub new_offset: i32,
    pub scroll_px: Pixels,
}

/// A selection of the given kind at the side of a cell.
pub open spec fn selection_at(ty: SelectionType, hit: (GridPoint, Side)) -> SelectionView {
    let anchor = AnchorView { point: hit.0, side: hit.1 };
    SelectionView { ty, start: anchor, end: anchor }
}

/// The waiting event that selects at the side of a cell.
pub open spec fn selects_at(ty: SelectionType, hit: (GridPoint, Side)) -> InternalEventView {
    InternalEventView::SetSelection(Some((selection_at(ty, hit), hit.0)))
}

/// What so many clicks in a row select.
pub open spec fn click_selects(click_count: int) -> Option<SelectionType> {
    if click_count == 1 {
        Some(SelectionType::Simple)
    } else if click_count == 2 {
        Some(SelectionType::Semantic)
    } else if click_count == 3 {
        Some(SelectionType::Lines)
    } else {
        None
    }
}

/// The report as it is sent to the program, where there is one.
pub open spec fn reported(report: Option<Vec<u8>>) -> Seq<MsgView> {
    match report {
        Some(bytes) => seq![MsgView::Input(bytes@)],
        None => Seq::empty(),
    }
}

/// The reports as they are sent to the program.
pub open spec fn all_reported(reports: Seq<Vec<u8>>) -> Seq<MsgView> {
    reports.map_values(|bytes: Vec<u8>| MsgView::Input(bytes@))
}

/// How many lines a drag beyond the edge scrolls: no more than three at a time.
pub fn drag_line_delta(lines: Option<i32>) -> (delta: Option<i32>)
    ensures
        match lines {
            Some(lines) => delta is Some && delta->0 == crate::grid::clamped(lines as int, -3, 3),
            None => delta is None,
        },
{
    match lines {
        Some(lines) => Some(
            if lines < -3 {
                -3
            } else if lines > 3 {
                3
            } else {
                lines
            },
        ),
        None => None,
    }
}

impl Terminal {
    /// Whether the mouse belongs to the program in the terminal.
    pub open spec fn in_mouse_mode(self, shift: bool) -> bool {
        self.last_content.mode.has_any(MOUSE_MODE) && !shift
    }

    /// Whether the cell, or the side of it, is another one than that of the mouse last time.
    pub open spec fn mouse_is_elsewhere(self, point: GridPoint, side: Side) -> bool {
        self.last_mouse != Some((point, side))
    }

    /// Whether the mouse is over another cell, or another side of it, than last time.
    pub fn mouse_changed(&mut self, point: GridPoint, side: Side) -> (changed: bool)
        ensures
            changed == old(self).mouse_is_elsewhere(point, side),
            *final(self) == (Terminal { last_mouse: Some((point, side)), ..*old(self) }),
    {
        match self.last_mouse {
            Some((old_point, old_side)) => {
                if old_point == point && old_side == side {
                    false
                } else {
                    self.last_mouse = Some((point, side));
                    true
                }
            },
            None => {
                self.last_mouse = Some((point, side));
                true
            },
        }
    }

    /// Whether the mouse belongs to the program in the terminal; with shift it never does.
    pub fn mouse_mode(&self, shift: bool) -> (r: bool)
        ensures
            r == self.in_mouse_mode(shift),
    {
        self.last_content.mode.intersects(MOUSE_MODE) && !shift
    }

    /// Sends a report to the program, where there is one.
    fn send_report(&mut self, report: Option<Vec<u8>>)
        ensures
            final(self).sends(*old(self), reported(report)),
    {
        match report {
            Some(bytes) => {
                self.write_to_pty(bytes);
            },
            None => {
                assert(self.pty_tx@ =~= old(self).pty_tx@ + reported(report));
            },
        }
    }

    /// Whether this is the terminal `before` once the mouse has moved to the cell and side `hit`,
    /// and `told` the effects of that.
    pub open spec fn follows_mouse(
        self,
        before: Terminal,
        modifiers: Modifiers,
        hit: (GridPoint, Side),
        report: Option<Vec<u8>>,
        probe: HoverProbe,
        told: Seq<EffectView>,
    ) -> bool {
        &&& told == seq![EffectView::Notify]
        &&& if before.in_mouse_mode(modifiers.shift) {
            self.sends(
                Terminal { last_mouse: Some(hit), ..before },
                if before.mouse_is_elsewhere(hit.0, hit.1) {
                    reported(report)
                } else {
                    Seq::empty()
                },
            )
        } else if modifiers.secondary {
            self.hovers(before, probe)
        } else {
            self == before
        }
    }

    /// The mouse moved to the cell and side `hit`. A program that has the mouse is sent `report`,
    /// if it is another cell or side; else, with the key for following links, the link under the
    /// mouse stands out.
    pub fn mouse_move(
        &mut self,
        modifiers: &Modifiers,
        hit: (GridPoint, Side),
        report: Option<Vec<u8>>,
        probe: HoverProbe,
        cx: &mut Context,
    )
        ensures
            final(cx)@ == old(cx)@.push(EffectView::Notify),
            final(self).follows_mouse(
                *old(self),
                *modifiers,
                hit,
                report,
                probe,
                final(cx)@.skip(old(cx)@.len() as int),
            ),
    {
        if self.mouse_mode(modifiers.shift) {
            if self.mouse_changed(hit.0, hit.1) {
                self.send_report(report);
            } else {
                assert(self.pty_tx@ =~= old(self).pty_tx@ + Seq::<MsgView>::empty());
            }
        } else if modifiers.secondary {
            self.word_from_position(probe);
        }
        cx.notify();
        assert(cx@.skip(old(cx)@.len() as int) =~= seq![EffectView::Notify]);
    }

    /// Whether this is the terminal `before` with the word at a cell selected.
    pub open spec fn selects_word(self, before: Terminal, hit: (GridPoint, Side)) -> bool {
        self.queues(before, seq![selects_at(SelectionType::Semantic, hit)])
    }

    /// Selects the word at a cell.
    pub fn select_word_at_event_position(&mut self, hit: (GridPoint, Side))
        ensures
            final(self).selects_word(*old(self), hit),
    {
        let selection = alac::new_selection(SelectionType::Semantic, hit.0, hit.1);
        self.set_selection(Some((selection, hit.0)));
    }

    /// The events of a drag to `position`, `lines` beyond the edge.
    pub open spec fn drag_events(self, position: Point, lines: Option<i32>) -> Seq<
        InternalEventView,
    > {
        let update = InternalEventView::UpdateSelection(Position::Mouse(position));
        if !self.last_content.mode.has(ALT_SCREEN) && lines is Some {
            seq![
                update,
                InternalEventView::Scroll(
                    Scroll::Delta(crate::grid::clamped(lines->0 as int, -3, 3) as i32),
                ),
            ]
        } else {
            seq![update]
        }
    }

    /// Whether this is the terminal `before` once the mouse has been dragged to `position`.
    pub open spec fn drags(
        self,
        before: Terminal,
        modifiers: Modifiers,
        position: Point,
        lines: Option<i32>,
    ) -> bool {
        if before.in_mouse_mode(modifiers.shift) {
            self == before
        } else {
            self.queues(
                Terminal { selection_phase: SelectionPhase::Selecting, ..before },
                before.drag_events(position, lines),
            )
        }
    }

    /// The effects of a drag: the terminal is drawn anew, unless it stays as it is.
    pub open spec fn drag_told(self, modifiers: Modifiers, lines: Option<i32>) -> Seq<EffectView> {
        if self.in_mouse_mode(modifiers.shift) || (!self.last_content.mode.has(ALT_SCREEN)
            && lines is None) {
            Seq::empty()
        } else {
            seq![EffectView::Notify]
        }
    }

    /// The mouse was dragged to `position`, measured from the top left corner of the terminal. The
    /// selection follows, and beyond the edge the terminal scrolls, unless the alternate screen is
    /// shown; `lines` tells how many lines beyond, negative ones below. A program that has the
    /// mouse is left to it.
    pub fn mouse_drag(
        &mut self,
        modifiers: &Modifiers,
        position: Point,
        lines: Option<i32>,
        cx: &mut Context,
    )
        ensures
            final(self).drags(*old(self), *modifiers, position, lines),
            final(cx)@ == old(cx)@ + old(self).drag_told(*modifiers, lines),
            old(self).in_mouse_mode(modifiers.shift) ==> *final(cx) == *old(cx),
    {
        assert(cx@ + Seq::<EffectView>::empty() =~= cx@);
        assert(cx@ + seq![EffectView::Notify] =~= cx@.push(EffectView::Notify));
        if !self.mouse_mode(modifiers.shift) {
            self.selection_phase = SelectionPhase::Selecting;
            self.push_event(InternalEvent::UpdateSelection(Position::Mouse(position)));
            // Doesn't make sense to scroll the alternate screen
            if !self.last_content.mode.contains(ALT_SCREEN) {
                match drag_line_delta(lines) {
                    Some(delta) => {
                        self.push_event(InternalEvent::Scroll(Scroll::Delta(delta)));
                        assert(self.queue() =~= old(self).queue() + old(self).drag_events(
                            position,
                            lines,
                        ));
                    },
                    None => {
                        return;
                    },
                }
            }
            cx.notify();
        }
    }

    /// The events of a click of the left button.
    pub open spec fn click_events(
        shift: bool,
        click_count: int,
        position: Point,
        hit: (GridPoint, Side),
    ) -> Seq<InternalEventView> {
        match click_selects(click_count) {
            Some(ty) => if ty == SelectionType::Simple && shift {
                seq![InternalEventView::UpdateSelection(Position::Mouse(position))]
            } else {
                seq![selects_at(ty, hit)]
            },
            None => Seq::empty(),
        }
    }

    /// Whether this is the terminal `before` once a button has gone down.
    pub open spec fn presses(
        self,
        before: Terminal,
        button: MouseButton,
        modifiers: Modifiers,
        click_count: int,
        position: Point,
        hit: (GridPoint, Side),
        report: Option<Vec<u8>>,
        primary: Option<ClipboardItem>,
    ) -> bool {
        if before.in_mouse_mode(modifiers.shift) {
            self.sends(before, reported(report))
        } else {
            match button {
                MouseButton::Left => self.queues(
                    before,
                    Self::click_events(modifiers.shift, click_count, position, hit),
                ),
                MouseButton::Middle => match primary {
                    Some(item) => self.has_input(
                        before,
                        match item.text {
                            Some(text) => vstd::utf8::encode_utf8(text@),
                            None => Seq::empty(),
                        },
                    ),
                    None => self == before,
                },
                _ => self == before,
            }
        }
    }

    /// A button went down at `position`, measured from the top left corner of the terminal, over
    /// the cell and side `hit`. A program that has the mouse is sent `report`. Else the left button
    /// selects, by the number of clicks in a row, and the middle one puts in the text of the
    /// primary selection, where the system has one.
    pub fn mouse_down(
        &mut self,
        button: MouseButton,
        modifiers: &Modifiers,
        click_count: usize,
        position: Point,
        hit: (GridPoint, Side),
        report: Option<Vec<u8>>,
        primary: Option<ClipboardItem>,
    )
        ensures
            final(self).presses(
                *old(self),
                button,
                *modifiers,
                click_count as int,
                position,
                hit,
                report,
                primary,
            ),
    {
        if self.mouse_mode(modifiers.shift) {
            self.send_report(report);
            return;
        }
        match button {
            MouseButton::Left => {
                let selection_type = match click_count {
                    1 => Some(SelectionType::Simple),
                    2 => Some(SelectionType::Semantic),
                    3 => Some(SelectionType::Lines),
                    _ => None,
                };
                match selection_type {
                    Some(ty) => {
                        if ty == SelectionType::Simple && modifiers.shift {
                            self.push_event(
                                InternalEvent::UpdateSelection(Position::Mouse(position)),
                            );
                        } else {
                            let selection = alac::new_selection(ty, hit.0, hit.1);
                            self.set_selection(Some((selection, hit.0)));
                        }
                    },
                    None => {
                        assert(self.queue() =~= old(self).queue()
                            + Seq::<InternalEventView>::empty());
                    },
                }
            },
            MouseButton::Middle => {
                if let Some(item) = primary {
                    let bytes: Vec<u8> = match item.text {
                        Some(text) => text.as_str().as_bytes_vec(),
                        None => Vec::new(),
                    };
                    self.input(bytes);
                }
            },
            _ => {},
        }
    }

    /// Whether the content has a cell for the mouse: in the given row and column, or nearest to
    /// it.
    pub open spec fn shows_cell(self, row: int, col: int) -> bool {
        let bounds = self.last_content.terminal_bounds;
        &&& bounds.lines >= 1
        &&& bounds.columns >= 1
        &&& bounds.lines * bounds.columns <= usize::MAX
        &&& crate::geometry::content_index(
            row,
            col,
            bounds.lines as int,
            bounds.columns as int,
        ) < self.last_content.cells@.len()
    }

    /// The address of the hyperlink in the cell under the mouse.
    pub open spec fn link_under_mouse(self, row: int, col: int) -> Option<Seq<char>> {
        let bounds = self.last_content.terminal_bounds;
        let i = crate::geometry::content_index(
            row,
            col,
            bounds.lines as int,
            bounds.columns as int,
        );
        crate::alac::cell_view(self.last_content.cells@[i].cell).link
    }

    /// Whether the content has a cell for the mouse.
    pub fn is_cell_shown(&self, row: usize, col: usize) -> (r: bool)
        ensures
            r == self.shows_cell(row as int, col as int),
    {
        let bounds = self.last_content.terminal_bounds;
        if bounds.lines < 1 || bounds.columns < 1 {
            return false;
        }
        match bounds.lines.checked_mul(bounds.columns) {
            Some(_) => content_index_for_mouse(col, row, &bounds) < self.last_content.cells.len(),
            None => false,
        }
    }

    /// What a button that went up leaves waiting, outside of mouse mode.
    pub open spec fn release_events(
        self,
        button: MouseButton,
        modifiers: Modifiers,
        copy_on_select: bool,
        row: int,
        col: int,
        position: Point,
    ) -> Seq<InternalEventView> {
        (if button == MouseButton::Left && copy_on_select {
            seq![InternalEventView::Copy(Some(true))]
        } else {
            Seq::empty()
        }) + (if self.selection_phase == SelectionPhase::Ended && self.link_under_mouse(
            row,
            col,
        ) is None && modifiers.secondary {
            seq![InternalEventView::FindHyperlink(position, true)]
        } else {
            Seq::empty()
        })
    }

    /// Whether this is the terminal `before` once a button has gone up.
    pub open spec fn releases(
        self,
        before: Terminal,
        button: MouseButton,
        modifiers: Modifiers,
        copy_on_select: bool,
        row: int,
        col: int,
        position: Point,
        report: Option<Vec<u8>>,
    ) -> bool {
        let ended = Terminal {
            selection_phase: SelectionPhase::Ended,
            last_mouse: None,
            ..before
        };
        if before.in_mouse_mode(modifiers.shift) {
            self.sends(ended, reported(report))
        } else {
            self.queues(
                ended,
                before.release_events(button, modifiers, copy_on_select, row, col, position),
            )
        }
    }

    /// The effects of a button that went up: a hyperlink is opened, where the mouse does not belong
    /// to the program and nothing was being selected.
    pub open spec fn release_told(self, modifiers: Modifiers, row: int, col: int) -> Seq<
        EffectView,
    > {
        let link = self.link_under_mouse(row, col);
        if !self.in_mouse_mode(modifiers.shift) && self.selection_phase == SelectionPhase::Ended
            && link is Some {
            seq![EffectView::OpenUrl(link->0)]
        } else {
            Seq::empty()
        }
    }

    /// A button went up at `position`, measured from the top left corner of the terminal; `row` and
    /// `col` are its distance from there in cells, rounded to the nearest. A program that has the
    /// mouse is sent `report`. Else what was selected is copied, where that is wanted, and where
    /// nothing was being selected, a hyperlink is opened, or a link looked for with the key for
    /// following links.
    pub fn mouse_up(
        &mut self,
        button: MouseButton,
        modifiers: &Modifiers,
        copy_on_select: bool,
        row: usize,
        col: usize,
        position: Point,
        report: Option<Vec<u8>>,
        cx: &mut Context,
    )
        requires
            !old(self).in_mouse_mode(modifiers.shift) && old(self).selection_phase
                == SelectionPhase::Ended ==> old(self).shows_cell(row as int, col as int),
        ensures
            final(self).releases(
                *old(self),
                button,
                *modifiers,
                copy_on_select,
                row as int,
                col as int,
                position,
                report,
            ),
            final(cx)@ == old(cx)@ + old(self).release_told(*modifiers, row as int, col as int),
    {
        assert(cx@ + Seq::<EffectView>::empty() =~= cx@);
        if self.mouse_mode(modifiers.shift) {
            self.send_report(report);
        } else {
            if button == MouseButton::Left && copy_on_select {
                self.copy(Some(true));
            }
            if self.selection_phase == SelectionPhase::Ended {
                let mouse_cell_index: usize = content_index_for_mouse(
                    col,
                    row,
                    &self.last_content.terminal_bounds,
                );
                match alac::cell_link(&self.last_content.cells[mouse_cell_index].cell) {
                    Some(uri) => {
                        cx.open_url(uri);
                        assert(cx@ =~= old(cx)@ + seq![EffectView::OpenUrl(uri@)]);
                    },
                    None => {
                        if modifiers.secondary {
                            self.push_event(InternalEvent::FindHyperlink(position, true));
                        }
                    },
                }
            }
            assert(self.queue() =~= old(self).queue() + old(self).release_events(
                button,
                *modifiers,
                copy_on_select,
                row as int,
                col as int,
                position,
            ));
        }
        self.selection_phase = SelectionPhase::Ended;
        self.last_mouse = None;
    }

    /// How many lines a movement of the wheel scrolls, if any; a movement that starts forgets what
    /// was left over from the last.
    pub fn determine_scroll_lines(&mut self, phase: TouchPhase, motion: WheelMotion) -> (lines:
        Option<i32>)
        requires
            phase == TouchPhase::Moved ==> i32::MIN <= motion.new_offset - motion.old_offset
                <= i32::MAX,
        ensures
            phase == TouchPhase::Moved ==> lines is Some && lines->0 == motion.new_offset
                - motion.old_offset,
            phase != TouchPhase::Moved ==> lines is None,
            *final(self) == (Terminal {
                scroll_px: (match phase {
                    TouchPhase::Started => Pixels::spec_zero(),
                    TouchPhase::Moved => motion.scroll_px,
                    TouchPhase::Ended => old(self).scroll_px,
                }),
                ..*old(self)
            }),
    {
        match phase {
            TouchPhase::Started => {
                self.scroll_px = Pixels::zero();
                None
            },
            TouchPhase::Moved => {
                self.scroll_px = motion.scroll_px;
                Some(motion.new_offset - motion.old_offset)
            },
            TouchPhase::Ended => None,
        }
    }

    /// Whether this is the terminal `before` once the wheel has been moved. A program that has the
    /// mouse is sent reports, one on the alternate screen arrow keys, where that is on; else the
    /// display scrolls.
    pub open spec fn wheel_moves(
        self,
        before: Terminal,
        motion: WheelMotion,
        shift: bool,
        reports: Option<Vec<Vec<u8>>>,
        arrows: Vec<u8>,
    ) -> bool {
        let lines = (motion.new_offset - motion.old_offset) as i32;
        let moved = Terminal { scroll_px: motion.scroll_px, ..before };
        if before.in_mouse_mode(shift) {
            self.sends(
                moved,
                match reports {
                    Some(reports) => all_reported(reports@),
                    None => Seq::empty(),
                },
            )
        } else if before.sends_arrows(shift) {
            self.sends(moved, seq![MsgView::Input(arrows@)])
        } else if lines != 0 {
            self.queues(moved, seq![InternalEventView::Scroll(Scroll::Delta(lines))])
        } else {
            self == moved
        }
    }

    /// Whether this is the terminal `before` once the wheel has been touched: a movement that
    /// starts forgets what was left over from the last, and one that ends changes nothing. A
    /// program is sent what `scroll_report` or `alt_scroll` gives for the lines of the movement.
    pub open spec fn turns_wheel<
        R: FnOnce(i32) -> Option<Vec<Vec<u8>>>,
        A: FnOnce(i32) -> Vec<u8>,
    >(
        self,
        before: Terminal,
        phase: TouchPhase,
        motion: WheelMotion,
        shift: bool,
        scroll_report: R,
        alt_scroll: A,
    ) -> bool {
        match phase {
            TouchPhase::Started => self == (Terminal { scroll_px: Pixels::spec_zero(), ..before }),
            TouchPhase::Ended => self == before,
            TouchPhase::Moved => exists|reports: Option<Vec<Vec<u8>>>, arrows: Vec<u8>|
                {
                    let lines = (motion.new_offset - motion.old_offset) as i32;
                    let mouse = before.in_mouse_mode(shift);
                    &&& mouse ==> call_ensures(scroll_report, (lines,), reports)
                    &&& !mouse && before.sends_arrows(shift) ==> call_ensures(
                        alt_scroll,
                        (lines,),
                        arrows,
                    )
                    &&& #[trigger] self.wheel_moves(before, motion, shift, reports, arrows)
                },
        }
    }

    /// Whether the wheel sends arrow keys, where the mouse does not belong to the program.
    pub open spec fn sends_arrows(self, shift: bool) -> bool {
        self.last_content.mode.has(ALT_SCREEN | ALTERNATE_SCROLL) && !shift
    }

    fn send_reports(&mut self, reports: Vec<Vec<u8>>)
        ensures
            final(self).sends(*old(self), all_reported(reports@)),
    {
        let ghost all = reports@;
        let mut rest = reports;
        let mut reversed: Vec<Vec<u8>> = Vec::new();
        while rest.len() > 0
            invariant
                rest@.len() + reversed@.len() == all.len(),
                rest@ == all.take(rest@.len() as int),
                forall|i: int|
                    0 <= i < reversed@.len() ==> #[trigger] reversed@[i] == all[all.len() - 1
                        - i],
            decreases rest@.len(),
        {
            if let Some(report) = rest.pop() {
                reversed.push(report);
                assert(rest@ =~= all.take(rest@.len() as int));
            }
        }
        assert(self.pty_tx@ =~= old(self).pty_tx@ + all_reported(all.take(0)));
        while reversed.len() > 0
            invariant
                reversed@.len() <= all.len(),
                forall|i: int|
                    0 <= i < reversed@.len() ==> #[trigger] reversed@[i] == all[all.len() - 1
                        - i],
                self.sends(*old(self), all_reported(all.take(all.len() - reversed@.len()))),
            decreases reversed@.len(),
        {
            let ghost k = all.len() - reversed@.len();
            if let Some(report) = reversed.pop() {
                assert(report == all[k]);
                self.write_to_pty(report);
                assert(self.pty_tx@ =~= old(self).pty_tx@ + all_reported(all.take(k + 1)));
            }
        }
        assert(all.take(all.len() as int) =~= all);
    }

    /// The wheel was moved. `scroll_report` gives what a program that has the mouse is sent for so
    /// many lines, `alt_scroll` the arrow keys for them.
    pub fn scroll_wheel<
        R: FnOnce(i32) -> Option<Vec<Vec<u8>>>,
        A: FnOnce(i32) -> Vec<u8>,
    >(
        &mut self,
        phase: TouchPhase,
        motion: WheelMotion,
        shift: bool,
        scroll_report: R,
        alt_scroll: A,
    )
        requires
            phase == TouchPhase::Moved ==> i32::MIN <= motion.new_offset - motion.old_offset
                <= i32::MAX,
            forall|lines: i32| call_requires(scroll_report, (lines,)),
            forall|lines: i32| call_requires(alt_scroll, (lines,)),
        ensures
            final(self).turns_wheel(
                *old(self),
                phase,
                motion,
                shift,
                scroll_report,
                alt_scroll,
            ),
    {
        let mouse_mode = self.mouse_mode(shift);
        let scroll_lines = self.determine_scroll_lines(phase, motion);
        let ghost moved = *self;
        let lines: i32 = match scroll_lines {
            Some(lines) => lines,
            None => {
                return;
            },
        };
        if mouse_mode {
            let reports = scroll_report(lines);
            let ghost given = reports;
            match reports {
                Some(reports) => {
                    self.send_reports(reports);
                },
                None => {
                    assert(self.pty_tx@ =~= moved.pty_tx@ + Seq::<MsgView>::empty());
                },
            }
            assert(self.wheel_moves(*old(self), motion, shift, given, arbitrary()));
        } else if self.last_content.mode.contains(ALT_SCREEN | ALTERNATE_SCROLL) && !shift {
            let arrows = alt_scroll(lines);
            let ghost given = arrows;
            self.write_to_pty(arrows);
            assert(self.wheel_moves(*old(self), motion, shift, None, given));
        } else {
            if lines != 0 {
                self.push_event(InternalEvent::Scroll(Scroll::Delta(lines)));
            }
            assert(self.wheel_moves(*old(self), motion, shift, None, arbitrary()));
        }
    }
}

} // verus!
