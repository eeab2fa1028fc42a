//! Carrying out what waits in a terminal: the emulator is brought up to date, and with it what the
//! terminal shows.
use crate::alac;
use crate::alac::ZedListener;
use crate::content::{make_content, HoveredWord, HoveredWordView, TerminalContent};
use crate::events::{
    Context, EffectView, Event, EventView, InternalEvent, InternalEventView,
    MaybeNavigationTarget, Msg, MsgView,
};
use crate::fitness::{content_is_fit, event_is_fit};
use crate::geometry::{Point, TerminalBounds, WindowSize};
use crate::grid::{GridPoint, GridRange, Scroll, Side, TermView, ALT_SCREEN, VI};
use crate::links::{navigation_target, FoundLink};
use crate::terminal::{SelectionPhase, Terminal};
use alacritty_terminal::term::Term;
use vstd::prelude::*;

verus! {

/// What is known of the mouse when the link under it is looked for.
#[derive(Clone, Copy, Debug, PartialEq, Eq, Structural)]
pub struct HoverProbe {
    /// Where the mouse is in the window.
    pub position: Point,
    /// Where it is, measured from the top left corner of the terminal.
    pub offset: Point,
    /// Whether that is inside the terminal.
    pub in_bounds: bool,
    /// Whether it is more than five pixels, counted along both axes, from where a link was last
    /// looked for.
    pub moved: bool,
    /// The time.
    pub now: u64,
}

/// What the surroundings of a terminal contribute to carrying out a waiting event.
pub struct EventInputs {
    /// The mouse.
    pub hover: HoverProbe,
    /// The cell and side at the position that the event speaks of, if it speaks of one, under the
    /// bounds of the terminal and the display offset of the emulator.
    pub hit: (GridPoint, Side),
    /// The link at that cell, brought onto the grid.
    pub link: Option<FoundLink>,
    /// Whether copying keeps the selection where nothing is said about it.
    pub keep_selection_on_copy: bool,
    /// Whether the system has a primary selection, which selected text goes to.
    pub has_primary: bool,
}

/// How many whole milliseconds lie between two moments; none where the second is earlier.
pub open spec fn millis_between(from: u64, to: u64) -> int {
    if to >= from {
        (to - from) / 1_000_000
    } else {
        0
    }
}

/// The selected text goes to the primary selection, where there is one.
pub open spec fn shared(v: TermView, has_primary: bool) -> Seq<EffectView> {
    match crate::alac::selected_text(v) {
        Some(text) => if has_primary {
            seq![EffectView::WriteToPrimary(text)]
        } else {
            Seq::empty()
        },
        None => Seq::empty(),
    }
}

/// The selected text goes to the primary selection, where there is one, and the owner is told.
pub open spec fn selection_told(v: TermView, has_primary: bool) -> Seq<EffectView> {
    shared(v, has_primary) + seq![EffectView::Emit(EventView::SelectionsChanged)]
}

/// Whether `after` is the emulator `v` cleared: no scrollback, the cursor's line on top and the
/// cursor on it, and below it nothing.
pub open spec fn clears(v: TermView, after: TermView) -> bool {
    &&& after == (TermView {
        cursor: GridPoint { line: 0, column: v.cursor.column },
        lines: after.lines,
        dirt: after.dirt,
        ..v.without_history(after.dirt)
    })
    &&& forall|l: int| #[trigger]
        after.lines.dom().contains(l) <==> 0 <= l < v.screen_lines
    &&& after.lines[0] == v.lines[v.cursor.line as int]
    &&& forall|l: int| 1 <= l < v.screen_lines ==> after.is_blank_line(#[trigger] after.lines[l])
}

/// Whether `p` is where a scroll in vi mode leaves its cursor, in the emulator `v` whose display
/// has been scrolled.
pub open spec fn vi_cursor_after(v: TermView, scroll: Scroll, p: GridPoint) -> bool {
    match scroll {
        Scroll::Delta(delta) => v.vi_scrolled(delta as int, p),
        Scroll::PageUp => v.vi_scrolled(v.screen_lines as int, p),
        Scroll::PageDown => v.vi_scrolled(-v.screen_lines, p),
        Scroll::Top => p == GridPoint { line: v.topmost() as i32, column: 0 },
        Scroll::Bottom => p == GridPoint { line: v.bottommost() as i32, column: 0 },
    }
}

/// Whether the vi mode cursor can be moved by a scroll in `i32` arithmetic.
pub open spec fn vi_scroll_fits(v: TermView, scroll: Scroll) -> bool {
    scroll matches Scroll::Delta(delta) ==> i32::MIN <= v.vi_cursor_within(
        v.scrolled_offset(scroll),
    ).line - delta <= i32::MAX
}

/// Whether the selected text can be read, where it goes to the primary selection.
pub open spec fn can_be_shared(v: TermView, has_primary: bool) -> bool {
    has_primary ==> v.selection_legible()
}

/// The emulator with the vi mode cursor at the given cell, and the end of the selection with it.
pub open spec fn with_vi_cursor(v: TermView, p: GridPoint) -> TermView {
    TermView {
        vi_cursor: p,
        selection: match v.selection {
            Some(s) => Some(s.with_end(p, Side::Right)),
            None => None,
        },
        ..v
    }
}

/// Whether the display can be scrolled, and in vi mode the cursor and the selection with it.
pub open spec fn display_scroll_fits(
    scroll: Scroll,
    vi_mode_enabled: bool,
    has_primary: bool,
    v: TermView,
) -> bool {
    let shown = v.display_scrolled(scroll);
    &&& v.scroll_fits(scroll)
    &&& v.mode.has(VI) ==> v.selection_sound()
    &&& vi_mode_enabled ==> vi_scroll_fits(v, scroll)
    &&& vi_mode_enabled && v.selection is Some ==> forall|p: GridPoint| #[trigger]
        vi_cursor_after(shown, scroll, p) ==> can_be_shared(with_vi_cursor(shown, p), has_primary)
}

/// Whether the emulator can carry the event out with what the surroundings contribute. Beyond a
/// sound grid this asks that positions can be counted in an `i32`, that it can be told what is
/// selected where the selection follows the vi mode cursor, and that the selected text can be read
/// where it is.
pub open spec fn event_fits(
    event: InternalEventView,
    inputs: EventInputs,
    vi_mode_enabled: bool,
    v: TermView,
) -> bool {
    &&& v.sized()
    &&& match event {
        InternalEventView::Resize(bounds) => {
            let b = bounds.spec_at_least_one_cell();
            v.resize_fits(b.columns as nat, b.lines as nat)
        },
        InternalEventView::Clear => v.on_screen(v.cursor),
        InternalEventView::Scroll(scroll) => display_scroll_fits(
            scroll,
            vi_mode_enabled,
            inputs.has_primary,
            v,
        ),
        InternalEventView::ScrollToAlacPoint(p) => v.reaches(p) && (v.mode.has(VI) && !v.in_sight(
            p.line as int,
        ) ==> v.selection_sound()),
        InternalEventView::SetSelection(Some((selection, _))) => can_be_shared(
            v.selecting(selection),
            inputs.has_primary,
        ),
        InternalEventView::SetSelection(None) => true,
        InternalEventView::UpdateSelection(_) => v.selection is Some ==> can_be_shared(
            v.selecting(v.selection->0.with_end(inputs.hit.0, inputs.hit.1)),
            inputs.has_primary,
        ),
        InternalEventView::Copy(_) => v.selection_legible(),
        InternalEventView::ToggleViMode => true,
        InternalEventView::ViMotion(motion) => v.motion_fits(motion),
        InternalEventView::FindHyperlink(_, _) => true,
    }
}

/// Whether the screen that is not shown does not stand in the way of the event: nothing wide may be
/// on it where the width becomes a single column.
pub open spec fn hidden_takes(event: InternalEventView, v: TermView) -> bool {
    event matches InternalEventView::Resize(bounds) ==> v.hidden_fits(
        bounds.spec_at_least_one_cell().columns as nat,
    )
}

/// Whether the event makes a terminal one column wide.
pub open spec fn makes_one_column(event: InternalEventView) -> bool {
    event matches InternalEventView::Resize(bounds) && bounds.spec_at_least_one_cell().columns == 1
}

impl Terminal {
    /// Whether the terminal and its emulator agree on vi mode.
    pub open spec fn vi_agrees(self, v: TermView) -> bool {
        self.vi_mode_enabled == v.mode.has(VI)
    }

    /// Whether the screen that is not shown does not stand in the way of any waiting event.
    pub open spec fn hidden_takes_all(self, v: TermView) -> bool {
        forall|i: int|
            0 <= i < self.queue().len() ==> hidden_takes(#[trigger] self.queue()[i], v)
    }

    /// Whether a link is to be looked for: never yet, or the mouse has moved, or the last time is
    /// more than a tenth of a second ago.
    pub open spec fn search_due(self, probe: HoverProbe) -> bool {
        self.last_hyperlink_search_position is None || probe.moved || millis_between(
            self.last_mouse_move_time,
            probe.now,
        ) > 100
    }

    /// Whether this is the terminal `before` once the mouse has been taken notice of. While the
    /// user selects, or with the mouse outside, no link is under it; else a link is looked for,
    /// where that is due.
    pub open spec fn hovers(self, before: Terminal, probe: HoverProbe) -> bool {
        if before.selection_phase == SelectionPhase::Selecting || !probe.in_bounds {
            self == (Terminal {
                last_content: TerminalContent { last_hovered_word: None, ..before.last_content },
                ..before
            })
        } else if before.search_due(probe) {
            &&& self == (Terminal {
                last_mouse_move_time: probe.now,
                last_hyperlink_search_position: Some(probe.position),
                events: self.events,
                ..before
            })
            &&& self.queue() == before.queue().push(
                InternalEventView::FindHyperlink(probe.offset, false),
            )
        } else {
            self == before
        }
    }

    /// Takes notice of the mouse.
    pub fn word_from_position(&mut self, probe: HoverProbe)
        ensures
            final(self).hovers(*old(self), probe),
    {
        if self.selection_phase == SelectionPhase::Selecting {
            self.last_content.last_hovered_word = None;
        } else if probe.in_bounds {
            let should_search = match self.last_hyperlink_search_position {
                Some(_) => {
                    let elapsed: u64 = if probe.now >= self.last_mouse_move_time {
                        probe.now - self.last_mouse_move_time
                    } else {
                        0
                    };
                    probe.moved || elapsed / 1_000_000 > 100
                },
                None => true,
            };
            if should_search {
                self.last_mouse_move_time = probe.now;
                self.last_hyperlink_search_position = Some(probe.position);
                self.push_event(InternalEvent::FindHyperlink(probe.offset, false));
                assert(self.queue() =~= old(self).queue().push(
                    InternalEventView::FindHyperlink(probe.offset, false),
                ));
            }
        } else {
            self.last_content.last_hovered_word = None;
        }
    }

    /// Takes notice of the mouse anew, because what is under it may have changed.
    pub fn refresh_hovered_word(&mut self, probe: HoverProbe)
        ensures
            final(self).hovers(*old(self), probe),
    {
        self.word_from_position(probe);
    }

    /// The next number for a link; after the largest comes zero.
    pub fn next_link_id(&mut self) -> (id: usize)
        ensures
            id == old(self).next_link_id,
            *final(self) == (Terminal {
                next_link_id: (if id == usize::MAX {
                    0
                } else {
                    (id + 1) as usize
                }),
                ..*old(self)
            }),
    {
        let id: usize = self.next_link_id;
        self.next_link_id = id.wrapping_add(1);
        id
    }

    /// Whether this is the terminal `before` with the given link under the mouse.
    pub open spec fn has_hovered(self, before: Terminal, word: HoveredWordView) -> bool {
        &&& self == (Terminal {
            last_content: TerminalContent {
                last_hovered_word: self.last_content.last_hovered_word,
                ..before.last_content
            },
            next_link_id: self.next_link_id,
            ..before
        })
        &&& self.last_content.hovered() == Some(word)
    }

    /// Whether the link is the one that was under the mouse already.
    pub open spec fn same_word(
        prev_word: Option<HoveredWordView>,
        word_match: GridRange,
        word: Seq<char>,
    ) -> bool {
        prev_word is Some && prev_word->0.word == word && prev_word->0.word_match == word_match
    }

    /// Whether this is the terminal `before` once the mouse is over the given link, and `told` the
    /// effects of that. A link that was under the mouse already keeps its number and nothing is
    /// told; another one gets a new number, and the owner is told where it leads.
    pub open spec fn takes_word(
        self,
        before: Terminal,
        prev_word: Option<HoveredWordView>,
        word_match: GridRange,
        word: Seq<char>,
        target: crate::events::TargetView,
        told: Seq<EffectView>,
    ) -> bool {
        if Self::same_word(prev_word, word_match, word) {
            &&& self.has_hovered(
                before,
                HoveredWordView { word, word_match, id: prev_word->0.id },
            )
            &&& self.next_link_id == before.next_link_id
            &&& told == Seq::<EffectView>::empty()
        } else {
            &&& self.has_hovered(
                before,
                HoveredWordView { word, word_match, id: before.next_link_id },
            )
            &&& self.next_link_id == (if before.next_link_id == usize::MAX {
                0
            } else {
                before.next_link_id + 1
            })
            &&& told == seq![
                EffectView::Emit(EventView::NewNavigationTarget(Some(target))),
                EffectView::Notify,
            ]
        }
    }

    /// Puts a link under the mouse.
    pub fn update_selected_word(
        &mut self,
        prev_word: Option<HoveredWord>,
        word_match: GridRange,
        word: String,
        navigation_target: MaybeNavigationTarget,
        cx: &mut Context,
    )
        ensures
            old(cx)@.is_prefix_of(final(cx)@),
            final(self).takes_word(
                *old(self),
                (match prev_word {
                    Some(prev_word) => Some(prev_word@),
                    None => None,
                }),
                word_match,
                word@,
                navigation_target@,
                final(cx)@.skip(old(cx)@.len() as int),
            ),
    {
        let ghost told = seq![
            EffectView::Emit(EventView::NewNavigationTarget(Some(navigation_target@))),
            EffectView::Notify,
        ];
        if let Some(prev_word) = prev_word {
            if prev_word.word == word && prev_word.word_match == word_match {
                self.last_content.last_hovered_word = Some(
                    HoveredWord { word, word_match, id: prev_word.id },
                );
                assert(cx@.skip(cx@.len() as int) =~= Seq::<EffectView>::empty());
                return;
            }
        }
        let id: usize = self.next_link_id();
        self.last_content.last_hovered_word = Some(HoveredWord { word, word_match, id });
        cx.emit(Event::NewNavigationTarget(Some(navigation_target)));
        cx.notify();
        assert(cx@ =~= old(cx)@ + told);
        assert(cx@.skip(old(cx)@.len() as int) =~= told);
    }

    /// Whether this is the terminal `before` once the link at a position has been looked for, and
    /// `told` the effects of that.
    pub open spec fn takes_link(
        self,
        before: Terminal,
        link: Option<FoundLink>,
        open: bool,
        told: Seq<EffectView>,
    ) -> bool {
        let without = Terminal {
            last_content: TerminalContent { last_hovered_word: None, ..before.last_content },
            ..before
        };
        match link {
            Some(link) => {
                let target = crate::links::target_of(
                    link.text@,
                    link.is_url,
                    before.spec_working_directory(),
                );
                if open {
                    &&& self == without
                    &&& told == seq![EffectView::Emit(EventView::Open(target))]
                } else {
                    self.takes_word(
                        before,
                        before.last_content.hovered(),
                        link.span,
                        link.text@,
                        target,
                        told,
                    )
                }
            },
            None => {
                &&& self == without
                &&& told == seq![EffectView::Emit(EventView::NewNavigationTarget(None))]
            },
        }
    }

    /// Takes up the link that was looked for at a position.
    pub fn take_link(&mut self, link: Option<FoundLink>, open: bool, cx: &mut Context)
        ensures
            old(cx)@.is_prefix_of(final(cx)@),
            final(self).takes_link(
                *old(self),
                link,
                open,
                final(cx)@.skip(old(cx)@.len() as int),
            ),
    {
        let prev_word = self.last_content.last_hovered_word.take();
        match link {
            Some(link) => {
                let dir = self.working_directory();
                let target = navigation_target(&link, dir);
                if open {
                    cx.emit(Event::Open(target));
                    assert(cx@.skip(old(cx)@.len() as int) =~= seq![
                        EffectView::Emit(EventView::Open(target@)),
                    ]);
                } else {
                    self.update_selected_word(prev_word, link.span, link.text, target, cx);
                }
            },
            None => {
                cx.emit(Event::NewNavigationTarget(None));
                assert(cx@.skip(old(cx)@.len() as int) =~= seq![
                    EffectView::Emit(EventView::NewNavigationTarget(None)),
                ]);
            },
        }
    }
}

/// Puts the selected text on the primary selection, where there is one.
fn share_selection(term: &Term<ZedListener>, has_primary: bool, cx: &mut Context)
    requires
        alac::term_view(*term).sized(),
        can_be_shared(alac::term_view(*term), has_primary),
    ensures
        final(cx)@ == old(cx)@ + shared(alac::term_view(*term), has_primary),
{
    if has_primary {
        if let Some(text) = alac::selection_to_string(term) {
            cx.write_to_primary(text);
        }
    }
    assert(cx@ =~= old(cx)@ + shared(alac::term_view(*term), has_primary));
}

/// Puts the selected text on the primary selection, where there is one, and tells the owner of the
/// change.
fn tell_selection(term: &Term<ZedListener>, has_primary: bool, cx: &mut Context)
    requires
        alac::term_view(*term).sized(),
        can_be_shared(alac::term_view(*term), has_primary),
    ensures
        final(cx)@ == old(cx)@ + selection_told(alac::term_view(*term), has_primary),
{
    share_selection(term, has_primary, cx);
    cx.emit(Event::SelectionsChanged);
    assert(cx@ =~= old(cx)@ + selection_told(alac::term_view(*term), has_primary));
}

/// Moves the end of the selection, where there is one; says whether there was.
fn move_selection_end(term: &mut Term<ZedListener>, p: GridPoint, side: Side) -> (moved: bool)
    ensures
        moved == alac::term_view(*old(term)).selection is Some,
        alac::term_view(*final(term)) == (TermView {
            selection: (match alac::term_view(*old(term)).selection {
                Some(s) => Some(s.with_end(p, side)),
                None => None,
            }),
            ..alac::term_view(*old(term))
        }),
{
    match alac::take_selection(term) {
        Some(selection) => {
            let mut selection = selection;
            alac::update_selection(&mut selection, p, side);
            alac::put_selection(term, Some(selection));
            true
        },
        None => false,
    }
}

/// Clears the emulator but for the cursor's line, which goes to the top.
fn clear_term(term: &mut Term<ZedListener>)
    requires
        alac::term_view(*old(term)).sized(),
        alac::term_view(*old(term)).on_screen(alac::term_view(*old(term)).cursor),
    ensures
        clears(alac::term_view(*old(term)), alac::term_view(*final(term))),
{
    let ghost v = alac::term_view(*term);
    // Clear the scrollback
    alac::clear_saved(term);
    let cursor = alac::cursor_point(term);

    // Clear the lines above
    alac::reset_region(term, 0, cursor.line);
    let ghost v2 = alac::term_view(*term);

    // Copy the current line up
    let mut line = alac::row_cells(term, cursor.line);
    let ghost cells = line@;
    let ghost row = v.lines[cursor.line as int];
    assert(alac::cell_views(cells) == row);
    assert(v2.lines[0].take(cells.len() as int) + row.skip(cells.len() as int) =~= v2.lines[0]);
    assert(v2.lines.insert(0, v2.lines[0]) =~= v2.lines);
    while line.len() > 0
        invariant
            line@.len() <= cells.len(),
            line@ == cells.take(line@.len() as int),
            cells.len() == v2.columns,
            alac::cell_views(cells) == row,
            v2.lines[0].len() == v2.columns,
            v2.history == 0,
            v2.screen_lines >= 1,
            v2.lines.dom().contains(0),
            alac::term_view(*term) == (TermView {
                lines: v2.lines.insert(
                    0,
                    v2.lines[0].take(line@.len() as int) + row.skip(line@.len() as int),
                ),
                dirt: alac::term_view(*term).dirt,
                ..v2
            }),
        decreases line@.len(),
    {
        let ghost n = line@.len() as int;
        let ghost before = v2.lines[0].take(n) + row.skip(n);
        match line.pop() {
            Some(cell) => {
                let i: usize = line.len();
                alac::set_cell(term, GridPoint { line: 0, column: i }, cell);
                assert(alac::cell_views(cells)[i as int] == alac::cell_view(cell));
                assert(before.update(i as int, row[i as int]) =~= v2.lines[0].take(i as int)
                    + row.skip(i as int));
                assert(alac::term_view(*term).lines =~= v2.lines.insert(
                    0,
                    v2.lines[0].take(i as int) + row.skip(i as int),
                ));
                assert(line@ =~= cells.take(i as int));
            },
            None => {},
        }
    }
    assert(v2.lines[0].take(0) + row.skip(0) =~= row);

    // Reset the cursor
    alac::set_cursor_point(term, GridPoint { line: 0, column: cursor.column });

    // Clear the lines below the new cursor
    let lines: usize = alac::screen_lines(term);
    if lines > 1 {
        alac::reset_region(term, 1, lines as i32);
    }
}

/// Where a scroll leaves a vi mode cursor that was at `from`.
pub(crate) fn vi_cursor_target(term: &Term<ZedListener>, from: GridPoint, scroll: Scroll) -> (p:
    GridPoint)
    requires
        alac::term_view(*term).sized(),
        scroll matches Scroll::Delta(delta) ==> i32::MIN <= from.line - delta <= i32::MAX,
        alac::term_view(*term).topmost() <= from.line <= alac::term_view(*term).bottommost(),
    ensures
        vi_cursor_after(TermView { vi_cursor: from, ..alac::term_view(*term) }, scroll, p),
{
    let lines: usize = alac::screen_lines(term);
    let total: usize = alac::total_lines(term);
    match scroll {
        Scroll::Delta(delta) => alac::vi_cursor_scrolled(term, from, delta),
        Scroll::PageUp => alac::vi_cursor_scrolled(term, from, lines as i32),
        Scroll::PageDown => alac::vi_cursor_scrolled(term, from, -(lines as i32)),
        Scroll::Top => GridPoint { line: -((total - lines) as i32), column: 0 },
        Scroll::Bottom => GridPoint { line: (lines - 1) as i32, column: 0 },
    }
}

impl Terminal {
    /// Whether this is the terminal `before` once its display has been scrolled from `v` to
    /// `after`, and `told` the effects of that. In vi mode the cursor moves too, and takes the end
    /// of the selection with it.
    pub open spec fn scrolls(
        self,
        before: Terminal,
        scroll: Scroll,
        inputs: EventInputs,
        v: TermView,
        after: TermView,
        told: Seq<EffectView>,
    ) -> bool {
        let shown = v.display_scrolled(scroll);
        let hover = inputs.hover;
        let p = after.vi_cursor;
        if !before.vi_mode_enabled {
            &&& self.hovers(before, hover)
            &&& after == shown
            &&& told == Seq::<EffectView>::empty()
        } else {
            &&& vi_cursor_after(shown, scroll, p)
            &&& after == with_vi_cursor(shown, p)
            &&& match shown.selection {
                Some(_) => {
                    &&& (Terminal { selection_head: before.selection_head, ..self }).hovers(
                        before,
                        hover,
                    )
                    &&& self.selection_head == Some(p)
                    &&& told == selection_told(after, inputs.has_primary)
                },
                None => {
                    &&& self.hovers(before, hover)
                    &&& told == Seq::<EffectView>::empty()
                },
            }
        }
    }

    /// Whether this is the terminal `before` with its selection copied, and `told` the effects of
    /// that. The selection goes away afterwards, unless it is to be kept.
    pub open spec fn copies(
        self,
        before: Terminal,
        keep_selection: bool,
        v: TermView,
        told: Seq<EffectView>,
    ) -> bool {
        match crate::alac::selected_text(v) {
            Some(text) => {
                &&& if keep_selection {
                    self == before
                } else {
                    self.queues(before, seq![InternalEventView::SetSelection(None)])
                }
                &&& told == seq![EffectView::WriteToClipboard(text)]
            },
            None => {
                &&& self == before
                &&& told == Seq::<EffectView>::empty()
            },
        }
    }

    /// Whether this is the terminal `before` once the event has been carried out, which brought the
    /// emulator from `v` to `after` and had the effects `told`.
    pub open spec fn carries_out(
        self,
        before: Terminal,
        event: InternalEventView,
        inputs: EventInputs,
        v: TermView,
        after: TermView,
        told: Seq<EffectView>,
    ) -> bool {
        match event {
            InternalEventView::Resize(bounds) => {
                let b = bounds.spec_at_least_one_cell();
                &&& self == (Terminal {
                    last_content: TerminalContent { terminal_bounds: b, ..before.last_content },
                    pty_tx: self.pty_tx,
                    ..before
                })
                &&& self.pty_tx@ == before.pty_tx@.push(MsgView::Resize(b.window_size()))
                &&& after == crate::alac::resized(v, b.columns as nat, b.lines as nat)
                &&& told == Seq::<EffectView>::empty()
            },
            InternalEventView::Clear => {
                &&& self == before
                &&& clears(v, after)
                &&& told == seq![EffectView::Emit(EventView::Wakeup)]
            },
            InternalEventView::Scroll(scroll) => self.scrolls(
                before,
                scroll,
                inputs,
                v,
                after,
                told,
            ),
            InternalEventView::ScrollToAlacPoint(p) => {
                &&& self.hovers(before, inputs.hover)
                &&& after == v.scrolled_to(p)
                &&& told == Seq::<EffectView>::empty()
            },
            InternalEventView::SetSelection(Some((selection, head))) => {
                &&& self == (Terminal { selection_head: Some(head), ..before })
                &&& after == (TermView { selection: Some(selection), ..v })
                &&& told == selection_told(after, inputs.has_primary)
            },
            InternalEventView::SetSelection(None) => {
                &&& self == before
                &&& after == (TermView { selection: None, ..v })
                &&& told == selection_told(after, inputs.has_primary)
            },
            InternalEventView::UpdateSelection(_) => match v.selection {
                Some(s) => {
                    &&& self == (Terminal { selection_head: Some(inputs.hit.0), ..before })
                    &&& after == (TermView {
                        selection: Some(s.with_end(inputs.hit.0, inputs.hit.1)),
                        ..v
                    })
                    &&& told == selection_told(after, inputs.has_primary)
                },
                None => {
                    &&& self == before
                    &&& after == v
                    &&& told == Seq::<EffectView>::empty()
                },
            },
            InternalEventView::FindHyperlink(_, open) => {
                &&& self.takes_link(before, inputs.link, open, told)
                &&& after == v
            },
            InternalEventView::Copy(keep_selection) => {
                &&& self.copies(
                    before,
                    match keep_selection {
                        Some(keep) => keep,
                        None => inputs.keep_selection_on_copy,
                    },
                    v,
                    told,
                )
                &&& after == v
            },
            InternalEventView::ToggleViMode => {
                &&& self == (Terminal { vi_mode_enabled: !before.vi_mode_enabled, ..before })
                &&& after == v.with_vi_toggled()
                &&& told == Seq::<EffectView>::empty()
            },
            InternalEventView::ViMotion(motion) => {
                &&& self == before
                &&& after == crate::alac::vi_moved(v, motion)
                &&& told == Seq::<EffectView>::empty()
            },
        }
    }

    fn process_resize(&mut self, bounds: TerminalBounds, term: &mut Term<ZedListener>)
        requires
            alac::term_view(*old(term)).resize_fits(
                bounds.spec_at_least_one_cell().columns as nat,
                bounds.spec_at_least_one_cell().lines as nat,
            ),
        ensures
            forall|inputs: EventInputs| #[trigger]
                final(self).carries_out(
                    *old(self),
                    InternalEventView::Resize(bounds),
                    inputs,
                    alac::term_view(*old(term)),
                    alac::term_view(*final(term)),
                    Seq::empty(),
                ),
            alac::term_view(*final(term)).columns
                == final(self).last_content.terminal_bounds.columns,
            alac::term_view(*final(term)).screen_lines
                == final(self).last_content.terminal_bounds.lines,
            alac::term_view(*final(term)).mode == alac::term_view(*old(term)).mode,
            alac::term_view(*final(term)).limit == alac::term_view(*old(term)).limit,
            alac::term_view(*final(term)).hidden_wide ==> alac::term_view(*old(term)).hidden_wide,
            final(self).vi_mode_enabled == old(self).vi_mode_enabled,
    {
        let new_bounds = bounds.at_least_one_cell();
        self.last_content.terminal_bounds = new_bounds;
        self.pty_tx.send(Msg::Resize(WindowSize::from(new_bounds)));
        alac::resize(term, new_bounds);
    }

    fn process_scroll(
        &mut self,
        scroll: Scroll,
        term: &mut Term<ZedListener>,
        inputs: &EventInputs,
        cx: &mut Context,
    )
        requires
            alac::term_view(*old(term)).sized(),
            display_scroll_fits(
                scroll,
                old(self).vi_mode_enabled,
                inputs.has_primary,
                alac::term_view(*old(term)),
            ),
        ensures
            old(cx)@.is_prefix_of(final(cx)@),
            final(self).scrolls(
                *old(self),
                scroll,
                *inputs,
                alac::term_view(*old(term)),
                alac::term_view(*final(term)),
                final(cx)@.skip(old(cx)@.len() as int),
            ),
            alac::term_view(*final(term)) == (TermView {
                display_offset: alac::term_view(*old(term)).scrolled_offset(scroll) as nat,
                vi_cursor: alac::term_view(*final(term)).vi_cursor,
                selection: alac::term_view(*final(term)).selection,
                ..alac::term_view(*old(term))
            }),
            final(self).vi_mode_enabled == old(self).vi_mode_enabled,
    {
        let ghost v = alac::term_view(*term);
        alac::scroll_display(term, scroll);
        let ghost shown = alac::term_view(*term);
        assert(0 <= v.scrolled_offset(scroll) <= v.history);
        self.refresh_hovered_word(inputs.hover);
        let ghost hovered = *self;
        if self.vi_mode_enabled {
            let point = vi_cursor_target(term, alac::vi_cursor_point(term), scroll);
            assert(vi_cursor_after(shown, scroll, point));
            alac::set_vi_cursor_point(term, point);
            if move_selection_end(term, point, Side::Right) {
                assert(alac::term_view(*term) == with_vi_cursor(shown, point));
                self.selection_head = Some(point);
                tell_selection(term, inputs.has_primary, cx);
                assert((Terminal { selection_head: old(self).selection_head, ..*self })
                    == hovered);
            }
        }
        assert(cx@.skip(old(cx)@.len() as int) =~= if shown.selection is Some
            && hovered.vi_mode_enabled {
            selection_told(alac::term_view(*term), inputs.has_primary)
        } else {
            Seq::<EffectView>::empty()
        });
        assert(cx@.take(old(cx)@.len() as int) =~= old(cx)@);
    }

    /// Carries out an event that waited. A scroll leaves the display where it says, a point that is
    /// scrolled to is in sight, and the terminal and its emulator go on agreeing on vi mode.
    pub fn process_terminal_event(
        &mut self,
        event: InternalEvent,
        term: &mut Term<ZedListener>,
        inputs: EventInputs,
        cx: &mut Context,
    )
        requires
            event_fits(
                event@,
                inputs,
                old(self).vi_mode_enabled,
                alac::term_view(*old(term)),
            ),
        ensures
            old(cx)@.is_prefix_of(final(cx)@),
            final(self).carries_out(
                *old(self),
                event@,
                inputs,
                alac::term_view(*old(term)),
                alac::term_view(*final(term)),
                final(cx)@.skip(old(cx)@.len() as int),
            ),
            event@ matches InternalEventView::Scroll(scroll) ==> alac::term_view(*final(term)) == (
            TermView {
                display_offset: alac::term_view(*old(term)).scrolled_offset(scroll) as nat,
                vi_cursor: alac::term_view(*final(term)).vi_cursor,
                selection: alac::term_view(*final(term)).selection,
                ..alac::term_view(*old(term))
            }),
            event@ matches InternalEventView::Resize(bounds) ==> {
                &&& alac::term_view(*final(term)).columns
                    == final(self).last_content.terminal_bounds.columns
                &&& alac::term_view(*final(term)).screen_lines
                    == final(self).last_content.terminal_bounds.lines
            },
            event@ matches InternalEventView::ScrollToAlacPoint(p) ==> alac::term_view(
                *old(term),
            ).on_grid(p) ==> alac::term_view(*final(term)).in_sight(p.line as int),
            old(self).vi_agrees(alac::term_view(*old(term))) ==> final(self).vi_agrees(
                alac::term_view(*final(term)),
            ),
            alac::term_view(*final(term)).limit == alac::term_view(*old(term)).limit,
            alac::term_view(*final(term)).mode.has(ALT_SCREEN) == alac::term_view(
                *old(term),
            ).mode.has(ALT_SCREEN),
            alac::term_view(*final(term)).hidden_wide ==> alac::term_view(*old(term)).hidden_wide,
    {
        let ghost n = cx@.len() as int;
        proof {
            assert(cx@.skip(n) =~= Seq::<EffectView>::empty());
            assert(cx@.take(n) =~= cx@);
        }
        match event {
            InternalEvent::Resize(bounds) => {
                self.process_resize(bounds, term);
            },
            InternalEvent::Clear => {
                clear_term(term);
                cx.emit(Event::Wakeup);
                assert(cx@.skip(n) =~= seq![EffectView::Emit(EventView::Wakeup)]);
            },
            InternalEvent::Scroll(scroll) => {
                self.process_scroll(scroll, term, &inputs, cx);
            },
            InternalEvent::ScrollToAlacPoint(point) => {
                alac::scroll_to_point(term, point);
                self.refresh_hovered_word(inputs.hover);
            },
            InternalEvent::SetSelection(selection) => {
                let (selection, head) = match selection {
                    Some((selection, head)) => (Some(selection), Some(head)),
                    None => (None, None),
                };
                alac::put_selection(term, selection);
                if let Some(head) = head {
                    self.selection_head = Some(head);
                }
                tell_selection(term, inputs.has_primary, cx);
                assert(cx@.skip(n) =~= selection_told(
                    alac::term_view(*term),
                    inputs.has_primary,
                ));
            },
            InternalEvent::UpdateSelection(_) => {
                if move_selection_end(term, inputs.hit.0, inputs.hit.1) {
                    self.selection_head = Some(inputs.hit.0);
                    tell_selection(term, inputs.has_primary, cx);
                    assert(cx@.skip(n) =~= selection_told(
                    alac::term_view(*term),
                    inputs.has_primary,
                ));
                }
            },
            InternalEvent::Copy(keep_selection) => {
                if let Some(text) = alac::selection_to_string(term) {
                    cx.write_to_clipboard(text);
                    assert(cx@.skip(n) =~= seq![EffectView::WriteToClipboard(text@)]);
                    let keep = match keep_selection {
                        Some(keep) => keep,
                        None => inputs.keep_selection_on_copy,
                    };
                    if !keep {
                        self.set_selection(None);
                    }
                }
            },
            InternalEvent::ToggleViMode => {
                let ghost bits = alac::term_view(*term).mode.bits;
                self.vi_mode_enabled = !self.vi_mode_enabled;
                alac::toggle_vi_mode(term);
                assert(((bits ^ 65536) & 65536 == 65536) == (bits & 65536 != 65536))
                    by (bit_vector);
                assert((bits ^ 65536) & 4096 == bits & 4096) by (bit_vector);
            },
            InternalEvent::ViMotion(motion) => {
                alac::vi_motion(term, motion);
            },
            InternalEvent::FindHyperlink(_, open) => {
                self.take_link(inputs.link, open, cx);
            },
        }
    }
}

/// How much there is to do: an event counts twice where carrying it out may queue another.
pub open spec fn work(events: Seq<InternalEventView>) -> nat
    decreases events.len(),
{
    if events.len() == 0 {
        0
    } else {
        work(events.drop_last()) + match events.last() {
            InternalEventView::Scroll(_)
            | InternalEventView::ScrollToAlacPoint(_)
            | InternalEventView::Copy(_) => 2nat,
            _ => 1nat,
        }
    }
}

proof fn work_adds_up(a: Seq<InternalEventView>, b: Seq<InternalEventView>)
    ensures
        work(a + b) == work(a) + work(b),
    decreases b.len(),
{
    if b.len() == 0 {
        assert(a + b =~= a);
    } else {
        assert((a + b).drop_last() =~= a + b.drop_last());
        work_adds_up(a, b.drop_last());
    }
}

/// How bringing a terminal up to date ended.
#[derive(Clone, Copy, Debug, PartialEq, Eq, Structural)]
pub enum SyncOutcome {
    /// Everything was carried out, and what is to be shown was taken from the emulator.
    Shown,
    /// The emulator cannot carry out the next event, or show what it has; that event and those
    /// behind it still wait.
    Refused,
}

/// A terminal on its way to being up to date: the terminal, its emulator, and the effects so far.
pub struct Stage {
    pub terminal: Terminal,
    pub term: Term<ZedListener>,
    pub told: Seq<EffectView>,
}

/// What `provide` may contribute to carrying out an event.
pub open spec fn provided<P: Fn(&InternalEvent, &Terminal, &Term<ZedListener>) -> EventInputs>(
    provide: P,
    event: InternalEvent,
    terminal: Terminal,
    term: Term<ZedListener>,
    inputs: EventInputs,
) -> bool {
    call_ensures(provide, (&event, &terminal, &term), inputs)
}

impl Stage {
    /// Whether this is the stage `before` with the first of its waiting events carried out. What
    /// the surroundings contribute to that comes from `provide`.
    pub open spec fn follows<
        P: Fn(&InternalEvent, &Terminal, &Term<ZedListener>) -> EventInputs,
    >(self, before: Stage, provide: P) -> bool {
        exists|event: InternalEvent, rest: Terminal, inputs: EventInputs|
            {
                &&& before.terminal.events@.len() > 0
                &&& event == before.terminal.events@[0]
                &&& #[trigger] rest.popped_from(before.terminal)
                &&& #[trigger] provided(
                    provide,
                    event,
                    before.terminal,
                    before.term,
                    inputs,
                )
                &&& before.told.is_prefix_of(self.told)
                &&& self.terminal.carries_out(
                    rest,
                    event@,
                    inputs,
                    crate::alac::term_view(before.term),
                    crate::alac::term_view(self.term),
                    self.told.skip(before.told.len() as int),
                )
            }
    }

    /// Whether the emulator cannot go on: it cannot carry out the first of the waiting events with
    /// what `provide` contributes, or, where none waits, cannot show what it has.
    pub open spec fn is_stuck<
        P: Fn(&InternalEvent, &Terminal, &Term<ZedListener>) -> EventInputs,
    >(self, provide: P) -> bool {
        let v = crate::alac::term_view(self.term);
        if self.terminal.events@.len() > 0 {
            let event = self.terminal.events@[0];
            exists|inputs: EventInputs|
                {
                    &&& #[trigger] provided(provide, event, self.terminal, self.term, inputs)
                    &&& !event_fits(event@, inputs, self.terminal.vi_mode_enabled, v)
                }
        } else {
            !crate::content::content_fits(v)
        }
    }
}

/// Whether each of the stages follows from the one before it.
pub open spec fn is_run<P: Fn(&InternalEvent, &Terminal, &Term<ZedListener>) -> EventInputs>(
    stages: Seq<Stage>,
    provide: P,
) -> bool {
    &&& stages.len() > 0
    &&& forall|i: int|
        1 <= i < stages.len() ==> (#[trigger] stages[i]).follows(stages[i - 1], provide)
}

proof fn run_goes_on<P: Fn(&InternalEvent, &Terminal, &Term<ZedListener>) -> EventInputs>(
    stages: Seq<Stage>,
    next: Stage,
    provide: P,
)
    requires
        is_run(stages, provide),
        next.follows(stages.last(), provide),
    ensures
        is_run(stages.push(next), provide),
{
    let all = stages.push(next);
    assert forall|i: int| 1 <= i < all.len() implies (#[trigger] all[i]).follows(
        all[i - 1],
        provide,
    ) by {
        if i < stages.len() {
            assert(all[i] == stages[i]);
            assert(all[i - 1] == stages[i - 1]);
        }
    }
}

/// Whether bringing a terminal up to date from `before` has come to `after` with the outcome: the
/// waiting events were carried out, one after the other, until none was left or the emulator could
/// not go on; in the former case what it shows was then taken over.
pub open spec fn syncs<P: Fn(&InternalEvent, &Terminal, &Term<ZedListener>) -> EventInputs>(
    before: Stage,
    after: Stage,
    outcome: SyncOutcome,
    provide: P,
) -> bool {
    exists|stages: Seq<Stage>|
        {
            let last = stages.last();
            &&& #[trigger] is_run(stages, provide)
            &&& stages[0] == before
            &&& after.term == last.term
            &&& after.told == last.told
            &&& match outcome {
                SyncOutcome::Shown => {
                    &&& last.terminal.queue().len() == 0
                    &&& after.terminal.shows(last.terminal, crate::alac::term_view(last.term))
                },
                SyncOutcome::Refused => {
                    &&& after.terminal == last.terminal
                    &&& last.is_stuck(provide)
                },
            }
        }
}

impl Terminal {
    /// Whether this is the terminal `before` without the first of its waiting events.
    pub open spec fn popped_from(self, before: Terminal) -> bool {
        &&& self == (Terminal { events: self.events, ..before })
        &&& self.queue() == before.queue().skip(1)
    }

    /// Whether this is the terminal `before` with what the emulator shows taken over.
    pub open spec fn shows(self, before: Terminal, v: TermView) -> bool {
        &&& self == (Terminal { last_content: self.last_content, ..before })
        &&& self.last_content.shows(v, before.last_content)
    }

    /// Brings the terminal up to date: carries out the waiting events, one after the other, and
    /// then takes over what the emulator shows. What the surroundings contribute to an event comes
    /// from `provide`, which is given the event, and the terminal and the emulator as they are when
    /// it is its turn, with the event still the first in the queue. Ends early where the emulator
    /// cannot go on, and only there.
    ///
    /// The emulator does not tell the limit of its scrollback, nor what is on the screen that is
    /// not shown. The former is as the terminal was built with it; `try_sync` does without knowing
    /// of the latter.
    pub fn sync<P: Fn(&InternalEvent, &Terminal, &Term<ZedListener>) -> EventInputs>(
        &mut self,
        term: &mut Term<ZedListener>,
        provide: P,
        cx: &mut Context,
    ) -> (outcome: SyncOutcome)
        requires
            alac::term_view(*old(term)).is_limited(),
            old(self).hidden_takes_all(alac::term_view(*old(term))),
            forall|event: &InternalEvent, terminal: &Terminal, term: &Term<ZedListener>|
                call_requires(provide, (event, terminal, term)),
        ensures
            syncs(
                Stage { terminal: *old(self), term: *old(term), told: old(cx)@ },
                Stage { terminal: *final(self), term: *final(term), told: final(cx)@ },
                outcome,
                provide,
            ),
            old(self).vi_agrees(alac::term_view(*old(term))) ==> final(self).vi_agrees(
                alac::term_view(*final(term)),
            ),
            alac::term_view(*final(term)).is_limited(),
            final(self).term_config == old(self).term_config,
    {
        let ghost mut stages: Seq<Stage> = seq![
            Stage { terminal: *self, term: *term, told: cx@ },
        ];
        while self.events.len() > 0
            invariant
                forall|event: &InternalEvent, terminal: &Terminal, term: &Term<ZedListener>|
                    call_requires(provide, (event, terminal, term)),
                is_run(stages, provide),
                stages[0] == (Stage { terminal: *old(self), term: *old(term), told: old(cx)@ }),
                stages.last() == (Stage { terminal: *self, term: *term, told: cx@ }),
                old(self).vi_agrees(alac::term_view(*old(term))) ==> self.vi_agrees(
                    alac::term_view(*term),
                ),
                alac::term_view(*term).is_limited(),
                self.hidden_takes_all(alac::term_view(*term)),
                self.term_config == old(self).term_config,
            decreases work(self.queue()),
        {
            let ghost before = stages.last();
            let ghost queue = self.queue();
            assert(queue[0] == self.events@[0]@);
            let inputs = provide(&self.events[0], &*self, &*term);
            let ghost given = inputs;
            assert(provided(provide, self.events@[0], *self, *term, given));
            if !event_is_fit(&self.events[0], &inputs, self.vi_mode_enabled, term) {
                assert(is_run(stages, provide));
                return SyncOutcome::Refused;
            }
            if let Some(event) = self.events.pop_front() {
                let ghost rest = *self;
                let ghost taken = event;
                assert(rest.queue() =~= queue.skip(1));
                assert(rest.popped_from(before.terminal));
                self.process_terminal_event(event, term, inputs, cx);
                proof {
                    let next = Stage { terminal: *self, term: *term, told: cx@ };
                    assert(provided(provide, taken, before.terminal, before.term, given));
                    assert(next.follows(before, provide));
                    run_goes_on(stages, next, provide);
                    stages = stages.push(next);
                    let added = self.queue().skip(rest.queue().len() as int);
                    assert(queue =~= seq![queue[0]] + rest.queue());
                    work_adds_up(seq![queue[0]], rest.queue());
                    assert(self.queue() =~= rest.queue() + added);
                    work_adds_up(rest.queue(), added);
                    reveal_with_fuel(work, 2);
                    assert(seq![queue[0]].drop_last() =~= Seq::<InternalEventView>::empty());
                    if added.len() > 0 {
                        assert(added =~= seq![added[0]]);
                        assert(added.drop_last() =~= Seq::<InternalEventView>::empty());
                    }
                    let w = alac::term_view(*term);
                    assert forall|i: int| 0 <= i < self.queue().len() implies hidden_takes(
                        #[trigger] self.queue()[i],
                        w,
                    ) by {
                        if i < rest.queue().len() {
                            assert(self.queue()[i] == queue[i + 1]);
                        } else {
                            assert(self.queue()[i] == added[0]);
                        }
                    }
                }
            }
        }
        assert(is_run(stages, provide));
        if content_is_fit(term) {
            self.last_content = make_content(term, &self.last_content);
            SyncOutcome::Shown
        } else {
            SyncOutcome::Refused
        }
    }

    /// Whether it can be told from the outside that the screen that is not shown does not stand in
    /// the way of any waiting event.
    pub open spec fn hidden_surely_takes_all(self, v: TermView) -> bool {
        v.mode.has(ALT_SCREEN) ==> forall|i: int|
            0 <= i < self.queue().len() ==> !makes_one_column(#[trigger] self.queue()[i])
    }

    fn is_hidden_sure_to_take_all(&self, term: &Term<ZedListener>) -> (r: bool)
        ensures
            r == self.hidden_surely_takes_all(alac::term_view(*term)),
    {
        if !alac::mode(term).contains(ALT_SCREEN) {
            return true;
        }
        for i in 0..self.events.len()
            invariant
                alac::term_view(*term).mode.has(ALT_SCREEN),
                forall|j: int| 0 <= j < i ==> !makes_one_column(#[trigger] self.queue()[j]),
        {
            assert(self.queue()[i as int] == self.events@[i as int]@);
            if let InternalEvent::Resize(bounds) = &self.events[i] {
                if bounds.at_least_one_cell().columns == 1 {
                    assert(makes_one_column(self.queue()[i as int]));
                    return false;
                }
            }
        }
        true
    }

    /// Brings the terminal up to date, as `sync` does it, unless an event waits that makes it one
    /// column wide while the alternate screen is shown: whether the other screen can take that, the
    /// emulator does not tell. Then nothing is done, and there is no outcome.
    pub fn try_sync<P: Fn(&InternalEvent, &Terminal, &Term<ZedListener>) -> EventInputs>(
        &mut self,
        term: &mut Term<ZedListener>,
        provide: P,
        cx: &mut Context,
    ) -> (outcome: Option<SyncOutcome>)
        requires
            alac::term_view(*old(term)).is_limited(),
            forall|event: &InternalEvent, terminal: &Terminal, term: &Term<ZedListener>|
                call_requires(provide, (event, terminal, term)),
        ensures
            outcome is Some == old(self).hidden_surely_takes_all(alac::term_view(*old(term))),
            match outcome {
                Some(outcome) => syncs(
                    Stage { terminal: *old(self), term: *old(term), told: old(cx)@ },
                    Stage { terminal: *final(self), term: *final(term), told: final(cx)@ },
                    outcome,
                    provide,
                ),
                None => {
                    &&& *final(self) == *old(self)
                    &&& *final(term) == *old(term)
                    &&& *final(cx) == *old(cx)
                },
            },
            old(self).vi_agrees(alac::term_view(*old(term))) ==> final(self).vi_agrees(
                alac::term_view(*final(term)),
            ),
            alac::term_view(*final(term)).is_limited(),
            final(self).term_config == old(self).term_config,
    {
        if self.is_hidden_sure_to_take_all(term) {
            proof {
                let v = alac::term_view(*term);
                assert forall|i: int| 0 <= i < self.queue().len() implies hidden_takes(
                    #[trigger] self.queue()[i],
                    v,
                ) by {
                    assert(v.mode.has(ALT_SCREEN) ==> !makes_one_column(self.queue()[i]));
                }
            }
            Some(self.sync(term, provide, cx))
        } else {
            None
        }
    }
}

} // verus!
