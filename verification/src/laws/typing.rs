//! What keys, pasted text, the focus and the commands of the user come to.
use crate::events::{EffectView, InternalEventView, MsgView, Position};
use crate::geometry::TerminalBounds;
use crate::grid::{GridRange, Scroll, SelectionType, Side, TermMode, TermView, ViMotion};
use crate::input::{key_command, Keystroke, Modifiers, ViCommand};
use crate::sync::{EventInputs, HoverProbe};
use crate::task::TaskStatus;
use crate::terminal::{Completion, SelectionPhase, Terminal};
use vstd::prelude::*;

verus! {

/// The key whose name is the given character.
pub open spec fn is_key(key: Seq<char>, c: char) -> bool {
    key.len() == 1 && key[0] == c
}

proof fn one_letter(key: Seq<char>)
    ensures
        is_key(key, 'h') <==> key == "h"@,
        is_key(key, 'j') <==> key == "j"@,
        is_key(key, 'k') <==> key == "k"@,
        is_key(key, 'l') <==> key == "l"@,
        is_key(key, 'w') <==> key == "w"@,
        is_key(key, 'b') <==> key == "b"@,
        is_key(key, 'e') <==> key == "e"@,
        is_key(key, '%') <==> key == "%"@,
        is_key(key, '$') <==> key == "$"@,
        is_key(key, '0') <==> key == "0"@,
        is_key(key, '^') <==> key == "^"@,
        is_key(key, 'H') <==> key == "H"@,
        is_key(key, 'M') <==> key == "M"@,
        is_key(key, 'L') <==> key == "L"@,
        is_key(key, 'g') <==> key == "g"@,
        is_key(key, 'G') <==> key == "G"@,
        is_key(key, 'f') <==> key == "f"@,
        is_key(key, 'd') <==> key == "d"@,
        is_key(key, 'u') <==> key == "u"@,
        is_key(key, 'v') <==> key == "v"@,
        is_key(key, 'y') <==> key == "y"@,
        is_key(key, 'i') <==> key == "i"@,
        "left"@ == seq!['l', 'e', 'f', 't'],
        "down"@ == seq!['d', 'o', 'w', 'n'],
        "up"@ == seq!['u', 'p'],
        "right"@ == seq!['r', 'i', 'g', 'h', 't'],
        "escape"@ == seq!['e', 's', 'c', 'a', 'p', 'e'],
{
    reveal_strlit("h");
    reveal_strlit("j");
    reveal_strlit("k");
    reveal_strlit("l");
    reveal_strlit("w");
    reveal_strlit("b");
    reveal_strlit("e");
    reveal_strlit("%");
    reveal_strlit("$");
    reveal_strlit("0");
    reveal_strlit("^");
    reveal_strlit("H");
    reveal_strlit("M");
    reveal_strlit("L");
    reveal_strlit("g");
    reveal_strlit("G");
    reveal_strlit("f");
    reveal_strlit("d");
    reveal_strlit("u");
    reveal_strlit("v");
    reveal_strlit("y");
    reveal_strlit("i");
    reveal_strlit("left");
    reveal_strlit("down");
    reveal_strlit("up");
    reveal_strlit("right");
    reveal_strlit("escape");
    if key.len() == 1 {
        assert(key =~= seq![key[0]]);
        assert("h"@ =~= seq!['h']);
        assert("j"@ =~= seq!['j']);
        assert("k"@ =~= seq!['k']);
        assert("l"@ =~= seq!['l']);
        assert("w"@ =~= seq!['w']);
        assert("b"@ =~= seq!['b']);
        assert("e"@ =~= seq!['e']);
        assert("%"@ =~= seq!['%']);
        assert("$"@ =~= seq!['$']);
        assert("0"@ =~= seq!['0']);
        assert("^"@ =~= seq!['^']);
        assert("H"@ =~= seq!['H']);
        assert("M"@ =~= seq!['M']);
        assert("L"@ =~= seq!['L']);
        assert("g"@ =~= seq!['g']);
        assert("G"@ =~= seq!['G']);
        assert("f"@ =~= seq!['f']);
        assert("d"@ =~= seq!['d']);
        assert("u"@ =~= seq!['u']);
        assert("v"@ =~= seq!['v']);
        assert("y"@ =~= seq!['y']);
        assert("i"@ =~= seq!['i']);
    }
    assert("left"@ =~= seq!['l', 'e', 'f', 't']);
    assert("down"@ =~= seq!['d', 'o', 'w', 'n']);
    assert("up"@ =~= seq!['u', 'p']);
    assert("right"@ =~= seq!['r', 'i', 'g', 'h', 't']);
    assert("escape"@ =~= seq!['e', 's', 'c', 'a', 'p', 'e']);
}

/// Which keys move the cursor in vi mode, and how: no other key makes the movement, and these make
/// it with control held down as without, but for the word to the left.
pub proof fn these_keys_move_the_cursor(key: Seq<char>, control: bool, line_height: int)
    ensures
        ({
            let command = key_command(key, control, line_height);
            &&& command == ViCommand::Motion(ViMotion::Left) <==> is_key(key, 'h') || key == seq![
                'l',
                'e',
                'f',
                't',
            ]
            &&& command == ViCommand::Motion(ViMotion::Down) <==> is_key(key, 'j') || key == seq![
                'd',
                'o',
                'w',
                'n',
            ]
            &&& command == ViCommand::Motion(ViMotion::Up) <==> is_key(key, 'k') || key == seq![
                'u',
                'p',
            ]
            &&& command == ViCommand::Motion(ViMotion::Right) <==> is_key(key, 'l') || key == seq![
                'r',
                'i',
                'g',
                'h',
                't',
            ]
            &&& command == ViCommand::Motion(ViMotion::WordRight) <==> is_key(key, 'w')
            &&& command == ViCommand::Motion(ViMotion::WordLeft) <==> is_key(key, 'b') && !control
            &&& command == ViCommand::Motion(ViMotion::WordRightEnd) <==> is_key(key, 'e')
            &&& command == ViCommand::Motion(ViMotion::Bracket) <==> is_key(key, '%')
            &&& command == ViCommand::Motion(ViMotion::Last) <==> is_key(key, '$')
            &&& command == ViCommand::Motion(ViMotion::First) <==> is_key(key, '0')
            &&& command == ViCommand::Motion(ViMotion::FirstOccupied) <==> is_key(key, '^')
            &&& command == ViCommand::Motion(ViMotion::High) <==> is_key(key, 'H')
            &&& command == ViCommand::Motion(ViMotion::Middle) <==> is_key(key, 'M')
            &&& command == ViCommand::Motion(ViMotion::Low) <==> is_key(key, 'L')
        }),
{
    one_letter(key);
}

/// Which keys scroll in vi mode, and how: to the ends with control held down as without, by a page
/// or by half a line height only with it.
pub proof fn these_keys_scroll(key: Seq<char>, control: bool, line_height: int)
    requires
        i32::MIN <= line_height <= i32::MAX,
    ensures
        ({
            let command = key_command(key, control, line_height);
            &&& command == ViCommand::Scroll(Scroll::Top) <==> is_key(key, 'g')
            &&& command == ViCommand::Scroll(Scroll::Bottom) <==> is_key(key, 'G')
            &&& command == ViCommand::Scroll(Scroll::PageUp) <==> is_key(key, 'b') && control
            &&& command == ViCommand::Scroll(Scroll::PageDown) <==> is_key(key, 'f') && control
            &&& (command matches ViCommand::Scroll(Scroll::Delta(_))) <==> control && (is_key(
                key,
                'd',
            ) || is_key(key, 'u'))
            &&& command matches ViCommand::Scroll(Scroll::Delta(n)) ==> {
                &&& is_key(key, 'u') && line_height >= 0 ==> n >= 0 && 2 * n <= line_height < 2 * n
                    + 2
                &&& is_key(key, 'd') && line_height >= 0 ==> n <= 0 && -2 * n <= line_height < -2
                    * n + 2
                &&& is_key(key, 'u') && line_height < 0 ==> n <= 0 && 2 * n - 2 < line_height <= 2
                    * n
                &&& is_key(key, 'd') && line_height < 0 ==> n >= 0 && -2 * n - 2 < line_height
                    <= -2 * n
            }
        }),
{
    one_letter(key);
}

/// With control `d` scrolls as far down as `u` scrolls up.
pub proof fn half_pages_are_opposite(line_height: int)
    requires
        i32::MIN <= line_height <= i32::MAX,
    ensures
        key_command(seq!['d'], true, line_height) matches ViCommand::Scroll(Scroll::Delta(down))
            && key_command(seq!['u'], true, line_height) matches ViCommand::Scroll(
            Scroll::Delta(up),
        ) && up + down == 0,
{
    one_letter(seq!['d']);
    one_letter(seq!['u']);
}

/// Which keys select, deselect, copy and leave vi mode, with control or without; what neither does
/// that nor moves the cursor nor scrolls does nothing.
pub proof fn these_keys_do_the_rest(key: Seq<char>, control: bool, line_height: int)
    ensures
        ({
            let command = key_command(key, control, line_height);
            &&& command == ViCommand::Select <==> is_key(key, 'v')
            &&& command == ViCommand::Deselect <==> key == seq!['e', 's', 'c', 'a', 'p', 'e']
            &&& command == ViCommand::Yank <==> is_key(key, 'y')
            &&& command == ViCommand::Insert <==> is_key(key, 'i')
            &&& key.len() == 0 || key.len() == 3 || key.len() > 6 ==> command == ViCommand::Nothing
            &&& !control && (is_key(key, 'f') || is_key(key, 'd') || is_key(key, 'u')) ==> command
                == ViCommand::Nothing
        }),
{
    one_letter(key);
}

/// In vi mode no key reaches the program, and every key counts as taken; what it does waits to be
/// done, in at most two steps.
pub proof fn vi_mode_keeps_the_keys(
    before: Terminal,
    after: Terminal,
    keystroke: Keystroke,
    esc: Option<String>,
    taken: bool,
)
    requires
        before.vi_mode_enabled,
        after.takes_key(before, keystroke, esc, taken),
    ensures
        taken,
        (Terminal { events: before.events, ..after }) == before,
        before.queue().is_prefix_of(after.queue()),
        after.queue().len() <= before.queue().len() + 2,
        !keystroke.modifiers.shift && keystroke.key@.len() > 6 ==> after.queue() == before.queue(),
{
    if !keystroke.modifiers.shift {
        these_keys_do_the_rest(
            keystroke.key@,
            keystroke.modifiers.control,
            before.last_content.terminal_bounds.line_height.whole as int,
        );
    }
    assert(after.queue().take(before.queue().len() as int) =~= before.queue());
    assert(before.queue() + Seq::<InternalEventView>::empty() =~= before.queue());
}

/// What the commands of vi mode leave waiting: a movement first takes the end of the selection to
/// the cell the cursor is shown at and then moves the cursor; a scroll scrolls; a selection starts
/// as nothing at the cursor, and is its own head; dropping one selects nothing; a copy is made once
/// and not kept selected; and vi mode is left with the bottom in sight.
pub proof fn commands_wait_to_be_done(before: Terminal, command: ViCommand)
    ensures
        ({
            let events = before.command_events(command);
            let shown = before.last_content.cursor.point;
            &&& command matches ViCommand::Motion(motion) ==> {
                &&& events.len() == 2
                &&& events[0] matches InternalEventView::UpdateSelection(
                    Position::Corner { cell, cell_width, line_height },
                )
                &&& cell == shown
                &&& cell_width == before.last_content.terminal_bounds.cell_width
                &&& line_height == before.last_content.terminal_bounds.line_height
                &&& events[1] == InternalEventView::ViMotion(motion)
            }
            &&& command matches ViCommand::Scroll(scroll) ==> events.len() == 1 && events[0]
                == InternalEventView::Scroll(scroll)
            &&& command == ViCommand::Select ==> {
                &&& events.len() == 1
                &&& events[0] matches InternalEventView::SetSelection(Some((s, head)))
                &&& head == shown
                &&& s.ty == SelectionType::Simple
                &&& s.start == s.end
                &&& s.start.point == shown
                &&& s.start.side == Side::Right
            }
            &&& command == ViCommand::Deselect ==> events.len() == 1 && events[0]
                == InternalEventView::SetSelection(None)
            &&& command == ViCommand::Yank ==> events.len() == 1 && events[0]
                == InternalEventView::Copy(Some(false))
            &&& command == ViCommand::Insert ==> events.len() == 2 && events[0]
                == InternalEventView::Scroll(Scroll::Bottom) && events[1]
                == InternalEventView::ToggleViMode
            &&& command == ViCommand::Nothing ==> events.len() == 0
        }),
{
}

/// The key that leaves vi mode has done so, with the bottom in sight, once what it left waiting is
/// carried out.
pub proof fn the_key_for_it_leaves_vi_mode(
    before: Terminal,
    pressed: Terminal,
    middle: Terminal,
    after: Terminal,
    keystroke: Keystroke,
    esc: Option<String>,
    taken: bool,
    inputs: EventInputs,
    v: TermView,
    w: TermView,
    x: TermView,
    told: Seq<EffectView>,
    told_then: Seq<EffectView>,
)
    requires
        before.vi_mode_enabled,
        !keystroke.modifiers.shift,
        is_key(keystroke.key@, 'i'),
        pressed.takes_key(before, keystroke, esc, taken),
        middle.carries_out(
            pressed,
            pressed.queue()[before.queue().len() as int],
            inputs,
            v,
            w,
            told,
        ),
        after.carries_out(
            middle,
            pressed.queue()[before.queue().len() as int + 1],
            inputs,
            w,
            x,
            told_then,
        ),
    ensures
        !after.vi_mode_enabled,
        x.display_offset == 0,
        x.lines == v.lines,
{
    one_letter(keystroke.key@);
}

/// Outside of vi mode a key is taken exactly where the program is sent something for it: then those
/// bytes go to it, and nothing else; the display goes to the bottom and the selection away.
pub proof fn keys_go_to_the_program(
    before: Terminal,
    after: Terminal,
    keystroke: Keystroke,
    esc: Option<String>,
    taken: bool,
)
    requires
        !before.vi_mode_enabled,
        after.takes_key(before, keystroke, esc, taken),
    ensures
        taken <==> esc is Some,
        esc is None ==> after == before,
        esc matches Some(text) ==> {
            &&& after.pty_tx@ == before.pty_tx@.push(
                MsgView::Input(vstd::utf8::encode_utf8(text@)),
            )
            &&& after.queue() == before.queue().push(
                InternalEventView::Scroll(Scroll::Bottom),
            ).push(InternalEventView::SetSelection(None))
            &&& (Terminal { events: before.events, pty_tx: before.pty_tx, ..after }) == before
        },
{
    if let Some(text) = esc {
        assert(after.pty_tx@ =~= before.pty_tx@.push(
            MsgView::Input(vstd::utf8::encode_utf8(text@)),
        ));
        assert(after.queue() =~= before.queue().push(
            InternalEventView::Scroll(Scroll::Bottom),
        ).push(InternalEventView::SetSelection(None)));
    }
}

proof fn modes_of_programs(mode: TermMode)
    ensures
        mode.has(16) == (mode.bits & 16 != 0),
        mode.has(2048) == (mode.bits & 2048 != 0),
{
    let bits = mode.bits;
    assert((bits & 16 == 16) == (bits & 16 != 0) && (bits & 2048 == 2048) == (bits & 2048 != 0))
        by (bit_vector);
}

/// Pasted text goes to a program that asked for brackets between them, with no character lost or
/// moved but the one by which the brackets could be closed; to another program it goes bare, with
/// its line ends made those of the key. A text with neither is sent as it is.
pub proof fn pasted_text_is_kept(text: Seq<char>, mode: TermMode)
    requires
        forall|i: int| 0 <= i < text.len() ==> #[trigger] text[i] != '\x1b' && text[i] != '\n',
    ensures
        mode.bits & 16 != 0 ==> crate::input::pasted(text, mode) == "\x1b[200~"@ + text
            + "\x1b[201~"@,
        mode.bits & 16 == 0 ==> crate::input::pasted(text, mode) == text,
{
    modes_of_programs(mode);
    crate::laws::ending::plain_labels_are_shown_as_they_are(text);
    let keep = |c: char| c != '\x1b';
    all_is_kept(text, keep);
}

proof fn all_is_kept(text: Seq<char>, keep: spec_fn(char) -> bool)
    requires
        forall|i: int| 0 <= i < text.len() ==> keep(#[trigger] text[i]),
    ensures
        text.filter(keep) == text,
    decreases text.len(),
{
    reveal(Seq::filter);
    if text.len() > 0 {
        all_is_kept(text.drop_last(), keep);
        assert(text.drop_last().push(text.last()) =~= text);
    }
}

/// Between the brackets pasted text is taken in parts, and the character by which they could be
/// closed comes to nothing.
pub proof fn brackets_take_text_in_parts(a: Seq<char>, b: Seq<char>, mode: TermMode)
    requires
        mode.bits & 16 != 0,
    ensures
        ({
            let open = "\x1b[200~"@;
            let close = "\x1b[201~"@;
            let of_a = crate::input::pasted(a, mode);
            let of_b = crate::input::pasted(b, mode);
            let of_both = crate::input::pasted(a + b, mode);
            let n = open.len() as int;
            let m = close.len() as int;
            of_both.subrange(n, of_both.len() - m) == of_a.subrange(n, of_a.len() - m)
                + of_b.subrange(n, of_b.len() - m)
        }),
        crate::input::pasted(seq!['\x1b'], mode) == "\x1b[200~"@ + "\x1b[201~"@,
{
    modes_of_programs(mode);
    let keep = |c: char| c != '\x1b';
    let open = "\x1b[200~"@;
    let close = "\x1b[201~"@;
    let n = open.len() as int;
    let m = close.len() as int;
    Seq::filter_distributes_over_add(a, b, keep);
    let of_a = crate::input::pasted(a, mode);
    let of_b = crate::input::pasted(b, mode);
    let of_both = crate::input::pasted(a + b, mode);
    assert(of_a.subrange(n, of_a.len() - m) =~= a.filter(keep));
    assert(of_b.subrange(n, of_b.len() - m) =~= b.filter(keep));
    assert(of_both.subrange(n, of_both.len() - m) =~= (a + b).filter(keep));
    reveal(Seq::filter);
    let escape = seq!['\x1b'];
    assert(escape.drop_last() =~= Seq::<char>::empty());
    assert(escape.drop_last().filter(keep) =~= Seq::<char>::empty());
    assert(escape.filter(keep) =~= Seq::<char>::empty());
    assert(open + Seq::<char>::empty() + close =~= open + close);
}

/// A program that asked for it is told of the focus, differently when it comes and when it goes;
/// another program is told nothing. What waits and what is shown stay as they are.
pub proof fn the_focus_is_told_when_asked_for(before: Terminal, gained: Terminal, lost: Terminal)
    requires
        gained.tells_focus(before, true),
        lost.tells_focus(before, false),
    ensures
        before.last_content.mode.bits & 2048 == 0 ==> gained == before && lost == before,
        before.last_content.mode.bits & 2048 != 0 ==> {
            &&& gained.pty_tx@ == before.pty_tx@.push(
                MsgView::Input(vstd::utf8::encode_utf8(seq!['\x1b', '[', 'I'])),
            )
            &&& lost.pty_tx@ == before.pty_tx@.push(
                MsgView::Input(vstd::utf8::encode_utf8(seq!['\x1b', '[', 'O'])),
            )
            &&& (Terminal { pty_tx: before.pty_tx, ..gained }) == before
            &&& (Terminal { pty_tx: before.pty_tx, ..lost }) == before
        },
{
    modes_of_programs(before.last_content.mode);
    reveal_strlit("\x1b[I");
    reveal_strlit("\x1b[O");
    assert("\x1b[I"@ =~= seq!['\x1b', '[', 'I']);
    assert("\x1b[O"@ =~= seq!['\x1b', '[', 'O']);
    if before.last_content.mode.has(2048) {
        assert(gained.pty_tx@ =~= before.pty_tx@.push(
            MsgView::Input(vstd::utf8::encode_utf8(seq!['\x1b', '[', 'I'])),
        ));
        assert(lost.pty_tx@ =~= before.pty_tx@.push(
            MsgView::Input(vstd::utf8::encode_utf8(seq!['\x1b', '[', 'O'])),
        ));
    }
}

/// The key for following links has a link looked for under the mouse, and no other key has; nothing
/// is looked for with the mouse outside, or while the user selects.
pub proof fn one_key_looks_for_links(
    before: Terminal,
    after: Terminal,
    modifiers: Modifiers,
    probe: HoverProbe,
    told: Seq<EffectView>,
)
    requires
        after.notices_modifiers(before, modifiers, probe, told),
    ensures
        told == seq![EffectView::Notify],
        !modifiers.secondary || !probe.in_bounds ==> after == before,
        before.selection_phase == SelectionPhase::Selecting ==> after.queue() == before.queue(),
        modifiers.secondary && probe.in_bounds && probe.moved && before.selection_phase
            == SelectionPhase::Ended ==> {
            &&& after.queue().len() == before.queue().len() + 1
            &&& after.queue().last() == InternalEventView::FindHyperlink(probe.offset, false)
        },
        after.pty_tx == before.pty_tx,
{
}

/// A match that is activated gets selected from its first cell to its last, with the last as the
/// head, and its first cell is scrolled to after that. A place beyond the list does nothing.
pub proof fn an_activated_match_is_selected(before: Terminal, after: Terminal, index: int)
    requires
        index >= 0,
        after.activates(before, index),
    ensures
        index >= before.matches@.len() ==> after == before,
        index < before.matches@.len() ==> {
            let n = before.queue().len() as int;
            let range = before.matches@[index];
            &&& (Terminal { events: before.events, ..after }) == before
            &&& before.queue().is_prefix_of(after.queue())
            &&& after.queue().len() == n + 2
            &&& after.queue()[n] matches InternalEventView::SetSelection(Some((s, head)))
            &&& head == range.end
            &&& s.ty == SelectionType::Simple
            &&& s.start.point == range.start
            &&& s.start.side == Side::Left
            &&& s.end.point == range.end
            &&& s.end.side == Side::Right
            &&& after.queue()[n + 1] == InternalEventView::ScrollToAlacPoint(range.start)
        },
{
    if index < before.matches@.len() {
        assert(after.queue().take(before.queue().len() as int) =~= before.queue());
    }
}

proof fn filtered_keeps(all: Seq<GridRange>, wanted: spec_fn(GridRange) -> bool)
    ensures
        forall|m: GridRange|
            #![trigger all.filter(wanted).contains(m)]
            all.filter(wanted).contains(m) <==> all.contains(m) && wanted(m),
{
    assert forall|m: GridRange|
        #![trigger all.filter(wanted).contains(m)]
        all.filter(wanted).contains(m) <==> all.contains(m) && wanted(m) by {
        let kept = all.filter(wanted);
        if kept.contains(m) {
            let i = choose|i: int| 0 <= i < kept.len() && kept[i] == m;
            all.lemma_filter_contains_rev(wanted, m);
            all.lemma_filter_pred(wanted, i);
        }
        if all.contains(m) && wanted(m) {
            let i = choose|i: int| 0 <= i < all.len() && all[i] == m;
            all.lemma_filter_contains(wanted, i);
        }
    }
}

/// Of the matches of the terminal those get selected, each as a whole, that are among the given
/// ones, and no others.
pub proof fn wanted_matches_get_selected(
    before: Terminal,
    after: Terminal,
    matches: Seq<GridRange>,
    m: GridRange,
)
    requires
        after.selects_among(before, matches),
    ensures
        before.queue().is_prefix_of(after.queue()),
        after.queue().len() <= before.queue().len() + before.matches@.len(),
        before.matches@.contains(m) && matches.contains(m) <==> exists|i: int|
            {
                &&& before.queue().len() <= i < after.queue().len()
                &&& #[trigger] after.queue()[i] matches InternalEventView::SetSelection(
                    Some((s, head)),
                )
                &&& head == m.end
                &&& s.start.point == m.start
                &&& s.end.point == m.end
            },
{
    let wanted = |m: GridRange| matches.contains(m);
    let event = |m: GridRange| crate::terminal::selects(m);
    let kept = before.matches@.filter(wanted);
    let n = before.queue().len() as int;
    filtered_keeps(before.matches@, wanted);
    before.matches@.lemma_filter_len(wanted);
    assert(after.queue() == before.queue() + kept.map_values(event));
    assert(after.queue().take(n) =~= before.queue());
    if before.matches@.contains(m) && matches.contains(m) {
        assert(kept.contains(m));
        let k = choose|k: int| 0 <= k < kept.len() && kept[k] == m;
        assert(after.queue()[n + k] == crate::terminal::selects(m));
    }
    assert forall|i: int|
        {
            &&& n <= i < after.queue().len()
            &&& #[trigger] after.queue()[i] matches InternalEventView::SetSelection(
                Some((s, head)),
            )
            &&& head == m.end
            &&& s.start.point == m.start
            &&& s.end.point == m.end
        } implies before.matches@.contains(m) && matches.contains(m) by {
        assert(after.queue()[i] == crate::terminal::selects(kept[i - n]));
        assert(kept[i - n] == m);
        assert(kept.contains(m));
    }
}

/// Every cell of the grid is selected by selecting all: from the first column of the topmost line
/// to the last column of the lowest.
pub proof fn all_is_from_end_to_end(before: Terminal, after: Terminal, v: TermView)
    requires
        v.sized(),
        v.columns <= usize::MAX,
        after.selects_everything(before, v),
    ensures
        after.queue().len() == before.queue().len() + 1,
        (Terminal { events: before.events, ..after }) == before,
        after.queue().last() matches InternalEventView::SetSelection(Some((s, head))) && {
            &&& s.ty == SelectionType::Simple
            &&& s.start.point.line == -v.history
            &&& s.start.point.column == 0
            &&& s.start.side == Side::Left
            &&& s.end.point.line == v.screen_lines - 1
            &&& s.end.point.column == v.columns - 1
            &&& s.end.side == Side::Right
            &&& head == s.end.point
        },
        ({
            let range = crate::terminal::whole_grid(v);
            &&& range.start.line == -v.history
            &&& range.start.column == 0
            &&& range.end.line == v.screen_lines - 1
            &&& range.end.column == v.columns - 1
        }),
{
}

/// A number of lines that can be counted scrolls as far up as it scrolls down, and the display by
/// just that much where there is room.
pub proof fn lines_scroll_up_and_down(
    before: Terminal,
    asked: Terminal,
    middle: Terminal,
    asked_back: Terminal,
    after: Terminal,
    lines: usize,
    inputs: EventInputs,
    v: TermView,
    w: TermView,
    x: TermView,
    told: Seq<EffectView>,
    told_back: Seq<EffectView>,
)
    requires
        v.sized(),
        v.display_offset + lines <= v.history,
        asked.scrolls_up_by(before, lines),
        middle.carries_out(asked, asked.queue().last(), inputs, v, w, told),
        asked_back.scrolls_down_by(middle, lines),
        after.carries_out(asked_back, asked_back.queue().last(), inputs, w, x, told_back),
    ensures
        asked.queue().len() == before.queue().len() + 1,
        asked_back.queue().len() == middle.queue().len() + 1,
        w.display_offset == v.display_offset + lines,
        x.display_offset == v.display_offset,
{
}

/// New bounds wait to be taken once, and are no news once they have been; bounds that are no news
/// change nothing.
pub proof fn sizes_are_news_once(
    before: Terminal,
    asked: Terminal,
    middle: Terminal,
    after: Terminal,
    bounds: TerminalBounds,
    inputs: EventInputs,
    v: TermView,
    w: TermView,
    told: Seq<EffectView>,
)
    requires
        asked.takes_size(before, bounds),
    ensures
        before.last_content.terminal_bounds == bounds ==> asked == before,
        before.last_content.terminal_bounds != bounds ==> {
            &&& asked.queue() == before.queue().push(InternalEventView::Resize(bounds))
            &&& (Terminal { events: before.events, ..asked }) == before
        },
        before.last_content.terminal_bounds != bounds && bounds.spec_at_least_one_cell() == bounds
            && middle.carries_out(asked, asked.queue().last(), inputs, v, w, told)
            && after.takes_size(middle, bounds) ==> after == middle,
{
    if before.last_content.terminal_bounds != bounds {
        assert(asked.queue() =~= before.queue().push(InternalEventView::Resize(bounds)));
    }
}

/// There is something to wait for exactly while a task runs, and something to be had of one that is
/// over.
pub proof fn only_running_tasks_are_awaited(t: Terminal)
    ensures
        t.completion() == Completion::Missing <==> t.task is None,
        t.completion() == Completion::Awaited <==> t.task is Some && t.task->0.status
            == TaskStatus::Running,
        t.completion() == Completion::Reported <==> t.task is Some && t.task->0.status
            != TaskStatus::Running,
{
}

/// The working directory is that of the process in the foreground, where there is one and the
/// terminal is not on another host.
pub proof fn the_directory_is_that_of_the_process(t: Terminal)
    ensures
        t.pty_info.current is None ==> t.spec_working_directory() is None,
        t.pty_info.current matches Some(process) ==> !t.is_ssh_terminal
            ==> t.spec_working_directory() == Some(process.cwd),
{
}

/// In vi mode a key is read as it was typed, and with shift in upper case; control counts where it
/// was held down, and half a line of the terminal is half the height of its lines.
pub proof fn keys_are_read_as_typed(
    before: Terminal,
    after: Terminal,
    keystroke: Keystroke,
    esc: Option<String>,
    taken: bool,
)
    requires
        before.vi_mode_enabled,
        after.takes_key(before, keystroke, esc, taken),
    ensures
        ({
            let height = before.last_content.terminal_bounds.line_height.whole as int;
            let control = keystroke.modifiers.control;
            let plain = key_command(keystroke.key@, control, height);
            let upper = key_command(crate::text::uppercase(keystroke.key@), control, height);
            &&& !keystroke.modifiers.shift ==> after.queue() == before.queue()
                + before.command_events(plain)
            &&& keystroke.modifiers.shift ==> after.queue() == before.queue()
                + before.command_events(upper)
        }),
        ({
            let read = if keystroke.modifiers.shift {
                crate::text::uppercase(keystroke.key@)
            } else {
                keystroke.key@
            };
            is_key(read, 'G') ==> after.queue() == before.queue().push(
                InternalEventView::Scroll(Scroll::Bottom),
            )
        }),
{
    one_letter(keystroke.key@);
    one_letter(crate::text::uppercase(keystroke.key@));
    assert(before.queue() + seq![InternalEventView::Scroll(Scroll::Bottom)]
        =~= before.queue().push(InternalEventView::Scroll(Scroll::Bottom)));
}

/// Keys for vi mode do nothing outside of it.
pub proof fn vi_keys_are_for_vi_mode(
    before: Terminal,
    after: Terminal,
    taken_after: Terminal,
    keystroke: Keystroke,
    esc: Option<String>,
    taken: bool,
)
    requires
        after.moves_in_vi_mode(before, keystroke),
        taken_after.takes_key(before, keystroke, esc, taken),
    ensures
        !before.vi_mode_enabled ==> after == before,
        before.vi_mode_enabled ==> after.queue() == taken_after.queue(),
        after.pty_tx == before.pty_tx,
{
}

/// Text without line feeds and escape characters is pasted as it is, in brackets for a program that
/// asked for them, in a single message; the display goes to the bottom and the selection away, as
/// for typed text.
pub proof fn pasted_text_is_sent(before: Terminal, after: Terminal, text: Seq<char>)
    requires
        forall|i: int| 0 <= i < text.len() ==> #[trigger] text[i] != '\x1b' && text[i] != '\n',
        after.pastes(before, text),
    ensures
        before.last_content.mode.bits & 16 == 0 ==> after.pty_tx@.last() == MsgView::Input(
            vstd::utf8::encode_utf8(text),
        ),
        before.last_content.mode.bits & 16 != 0 ==> after.pty_tx@.last() == MsgView::Input(
            vstd::utf8::encode_utf8("\x1b[200~"@ + text + "\x1b[201~"@),
        ),
        after.pty_tx@.len() == before.pty_tx@.len() + 1,
        after.pty_tx@.drop_last() == before.pty_tx@,
        after.queue() == before.queue().push(InternalEventView::Scroll(Scroll::Bottom)).push(
            InternalEventView::SetSelection(None),
        ),
{
    pasted_text_is_kept(text, before.last_content.mode);
    assert(after.pty_tx@.drop_last() =~= before.pty_tx@);
    assert(after.queue() =~= before.queue().push(InternalEventView::Scroll(Scroll::Bottom)).push(
        InternalEventView::SetSelection(None),
    ));
}

/// The process that is connected to the pty has its directory wherever the terminal is; that of the
/// terminal is the same, but for one on another host.
pub proof fn directories_are_those_of_the_process(t: Terminal)
    ensures
        t.pty_info.current matches Some(process) ==> t.spec_client_side_working_directory() == Some(
            process.cwd,
        ),
        t.pty_info.current is None ==> t.spec_client_side_working_directory() is None,
        !t.is_ssh_terminal ==> t.spec_working_directory()
            == t.spec_client_side_working_directory(),
        t.is_ssh_terminal ==> t.spec_working_directory() is None,
{
}

/// Whatever state the terminal is in, a command of the user leaves just that waiting behind all
/// that waits, and changes nothing else: the display goes up for lines, pages and the top, and down
/// for the others, a line by one.
pub proof fn commands_are_never_dropped(
    before: Terminal,
    line_up: Terminal,
    line_down: Terminal,
    page_up: Terminal,
    page_down: Terminal,
    top: Terminal,
    bottom: Terminal,
    clear: Terminal,
    toggle: Terminal,
    copy: Terminal,
    keep: Option<bool>,
)
    requires
        line_up.queues_line_up(before),
        line_down.queues_line_down(before),
        page_up.queues_page_up(before),
        page_down.queues_page_down(before),
        top.queues_top(before),
        bottom.queues_bottom(before),
        clear.queues_clear(before),
        toggle.queues_vi_toggle(before),
        copy.queues_copy(before, keep),
    ensures
        line_up.queue() == before.queue().push(InternalEventView::Scroll(Scroll::Delta(1))),
        line_down.queue() == before.queue().push(InternalEventView::Scroll(Scroll::Delta(-1i32))),
        page_up.queue() == before.queue().push(InternalEventView::Scroll(Scroll::PageUp)),
        page_down.queue() == before.queue().push(InternalEventView::Scroll(Scroll::PageDown)),
        top.queue() == before.queue().push(InternalEventView::Scroll(Scroll::Top)),
        bottom.queue() == before.queue().push(InternalEventView::Scroll(Scroll::Bottom)),
        clear.queue() == before.queue().push(InternalEventView::Clear),
        toggle.queue() == before.queue().push(InternalEventView::ToggleViMode),
        copy.queue() == before.queue().push(InternalEventView::Copy(keep)),
        (Terminal { events: before.events, ..line_up }) == before,
        (Terminal { events: before.events, ..line_down }) == before,
        (Terminal { events: before.events, ..page_up }) == before,
        (Terminal { events: before.events, ..page_down }) == before,
        (Terminal { events: before.events, ..top }) == before,
        (Terminal { events: before.events, ..bottom }) == before,
        (Terminal { events: before.events, ..clear }) == before,
        (Terminal { events: before.events, ..toggle }) == before,
        (Terminal { events: before.events, ..copy }) == before,
{
    let waiting = before.queue();
    assert(line_up.queue() =~= waiting.push(InternalEventView::Scroll(Scroll::Delta(1))));
    assert(line_down.queue() =~= waiting.push(InternalEventView::Scroll(Scroll::Delta(-1i32))));
    assert(page_up.queue() =~= waiting.push(InternalEventView::Scroll(Scroll::PageUp)));
    assert(page_down.queue() =~= waiting.push(InternalEventView::Scroll(Scroll::PageDown)));
    assert(top.queue() =~= waiting.push(InternalEventView::Scroll(Scroll::Top)));
    assert(bottom.queue() =~= waiting.push(InternalEventView::Scroll(Scroll::Bottom)));
    assert(clear.queue() =~= waiting.push(InternalEventView::Clear));
    assert(toggle.queue() =~= waiting.push(InternalEventView::ToggleViMode));
    assert(copy.queue() =~= waiting.push(InternalEventView::Copy(keep)));
}

/// The pty is told of the end of the terminal behind all that it was told before, and nothing else
/// changes.
pub proof fn a_shutdown_is_sent_last(before: Terminal, after: Terminal)
    requires
        after.sends_shutdown(before),
    ensures
        after.pty_tx@ == before.pty_tx@.push(MsgView::Shutdown),
        (Terminal { pty_tx: before.pty_tx, ..after }) == before,
{
    assert(after.pty_tx@ =~= before.pty_tx@.push(MsgView::Shutdown));
}

} // verus!
