//! What the terminal last showed.
use crate::alac;
use crate::alac::ZedListener;
use crate::geometry::TerminalBounds;
use crate::grid::{
    CellView, CursorShape, GridPoint, GridRange, RenderableCursor, SelectionRange,
    TermMode, TermView, DEFAULT_MODE, SHOW_CURSOR, VI,
};
use alacritty_terminal::term::cell::Cell;
use alacritty_terminal::term::Term;
use vstd::prelude::*;

verus! {

/// A cell and where it stands.
pub struct IndexedCell {
    pub point: GridPoint,
    pub cell: Cell,
}

impl IndexedCell {
    /// Where the cell stands, and what it holds.
    pub open spec fn cell_at(self) -> (GridPoint, CellView) {
        (self.point, crate::alac::cell_view(self.cell))
    }
}

impl Clone for IndexedCell {
    fn clone(&self) -> (copy: IndexedCell)
        ensures
            copy.cell_at() == self.cell_at(),
    {
        IndexedCell { point: self.point, cell: self.cell.clone() }
    }
}

impl std::ops::Deref for IndexedCell {
    type Target = Cell;

    fn deref(&self) -> (cell: &Cell)
        ensures
            *cell == self.cell,
    {
        &self.cell
    }
}

/// What the emulator has to show.
pub struct RenderableContent {
    pub cells: Vec<IndexedCell>,
    pub display_offset: usize,
    pub selection: Option<SelectionRange>,
    pub cursor: RenderableCursor,
}

impl RenderableContent {
    /// The cells in sight.
    pub open spec fn cell_views(self) -> Seq<(GridPoint, CellView)> {
        self.cells@.map_values(|c: IndexedCell| c.cell_at())
    }
}

/// A link under the mouse.
#[derive(Clone, Debug)]
pub struct HoveredWord {
    pub word: String,
    pub word_match: GridRange,
    pub id: usize,
}

/// A link under the mouse, by its text.
pub struct HoveredWordView {
    pub word: Seq<char>,
    pub word_match: GridRange,
    pub id: usize,
}

impl View for HoveredWord {
    type V = HoveredWordView;

    open spec fn view(&self) -> HoveredWordView {
        HoveredWordView { word: self.word@, word_match: self.word_match, id: self.id }
    }
}

/// What the terminal last showed.
pub struct TerminalContent {
    pub cells: Vec<IndexedCell>,
    pub mode: TermMode,
    pub display_offset: usize,
    pub selection_text: Option<String>,
    pub selection: Option<SelectionRange>,
    pub cursor: RenderableCursor,
    pub cursor_char: char,
    pub terminal_bounds: TerminalBounds,
    pub last_hovered_word: Option<HoveredWord>,
    pub scrolled_to_top: bool,
    pub scrolled_to_bottom: bool,
}

/// The text, where there is one.
pub open spec fn optional_text(text: Option<String>) -> Option<Seq<char>> {
    match text {
        Some(text) => Some(text@),
        None => None,
    }
}

/// The shape in which the emulator's cursor is drawn.
pub open spec fn drawn_shape(v: TermView) -> CursorShape {
    if !v.mode.has(VI) && !v.mode.has(SHOW_CURSOR) {
        CursorShape::Hidden
    } else {
        crate::alac::style_of_cursor(v).shape
    }
}

impl TerminalContent {
    /// The cells in sight.
    pub open spec fn cell_views(self) -> Seq<(GridPoint, CellView)> {
        self.cells@.map_values(|c: IndexedCell| c.cell_at())
    }

    /// The link under the mouse, where there is one.
    pub open spec fn hovered(self) -> Option<HoveredWordView> {
        match self.last_hovered_word {
            Some(word) => Some(word@),
            None => None,
        }
    }

    /// Whether this is what the emulator shows, within the bounds and with the link under the
    /// mouse that `last` had.
    pub open spec fn shows(self, v: TermView, last: TerminalContent) -> bool {
        let cursor = v.drawn_cursor();
        &&& self.cell_views() == v.displayed()
        &&& self.mode == v.mode
        &&& self.display_offset == v.display_offset
        &&& self.selection == v.selected()
        &&& optional_text(self.selection_text) == (if self.selection is Some {
            crate::alac::selected_text(v)
        } else {
            None
        })
        &&& self.cursor == (RenderableCursor { shape: drawn_shape(v), point: cursor })
        &&& self.cursor_char == v.lines[cursor.line as int][cursor.column as int].c
        &&& self.terminal_bounds == last.terminal_bounds
        &&& self.hovered() == last.hovered()
        &&& self.scrolled_to_top == (v.display_offset == v.history)
        &&& self.scrolled_to_bottom == (v.display_offset == 0)
    }

    /// Whether the same is shown as in the other content.
    pub open spec fn is_copy_of(self, other: TerminalContent) -> bool {
        &&& self.cell_views() == other.cell_views()
        &&& self.mode == other.mode
        &&& self.display_offset == other.display_offset
        &&& optional_text(self.selection_text) == optional_text(other.selection_text)
        &&& self.selection == other.selection
        &&& self.cursor == other.cursor
        &&& self.cursor_char == other.cursor_char
        &&& self.terminal_bounds == other.terminal_bounds
        &&& self.hovered() == other.hovered()
        &&& self.scrolled_to_top == other.scrolled_to_top
        &&& self.scrolled_to_bottom == other.scrolled_to_bottom
    }

    /// Nothing shown yet.
    pub open spec fn is_empty_content(self) -> bool {
        &&& self.cells@.len() == 0
        &&& self.mode == TermMode { bits: DEFAULT_MODE }
        &&& self.display_offset == 0
        &&& self.selection_text is None
        &&& self.selection is None
        &&& self.cursor == RenderableCursor {
            shape: CursorShape::Block,
            point: GridPoint { line: 0, column: 0 },
        }
        &&& self.cursor_char == '\0'
        &&& self.terminal_bounds == TerminalBounds::unlaid()
        &&& self.last_hovered_word is None
        &&& !self.scrolled_to_top
        &&& !self.scrolled_to_bottom
    }
}

impl Default for TerminalContent {
    fn default() -> (content: TerminalContent)
        ensures
            content.is_empty_content(),
    {
        TerminalContent {
            cells: Vec::new(),
            mode: TermMode { bits: DEFAULT_MODE },
            display_offset: 0,
            selection_text: None,
            selection: None,
            cursor: RenderableCursor {
                shape: CursorShape::Block,
                point: GridPoint { line: 0, column: 0 },
            },
            cursor_char: '\0',
            terminal_bounds: TerminalBounds::default(),
            last_hovered_word: None,
            scrolled_to_top: false,
            scrolled_to_bottom: false,
        }
    }
}

/// Copies of cells.
fn copied_cells(cells: &Vec<IndexedCell>) -> (copies: Vec<IndexedCell>)
    ensures
        copies@.map_values(|c: IndexedCell| c.cell_at()) == cells@.map_values(
            |c: IndexedCell| c.cell_at(),
        ),
{
    let ghost all = cells@.map_values(|c: IndexedCell| c.cell_at());
    let mut copies: Vec<IndexedCell> = Vec::new();
    for i in 0..cells.len()
        invariant
            all == cells@.map_values(|c: IndexedCell| c.cell_at()),
            copies@.map_values(|c: IndexedCell| c.cell_at()) == all.take(i as int),
    {
        let ghost before = copies@.map_values(|c: IndexedCell| c.cell_at());
        copies.push(cells[i].clone());
        assert(copies@.map_values(|c: IndexedCell| c.cell_at()) =~= before.push(all[i as int]));
        assert(before.push(all[i as int]) =~= all.take(i + 1));
    }
    assert(all.take(all.len() as int) =~= all);
    copies
}

impl Clone for TerminalContent {
    fn clone(&self) -> (copy: TerminalContent)
        ensures
            copy.is_copy_of(*self),
    {
        let selection_text = match &self.selection_text {
            Some(text) => Some(text.clone()),
            None => None,
        };
        TerminalContent {
            cells: copied_cells(&self.cells),
            mode: self.mode,
            display_offset: self.display_offset,
            selection_text,
            selection: self.selection,
            cursor: self.cursor,
            cursor_char: self.cursor_char,
            terminal_bounds: self.terminal_bounds,
            last_hovered_word: copied_word(&self.last_hovered_word),
            scrolled_to_top: self.scrolled_to_top,
            scrolled_to_bottom: self.scrolled_to_bottom,
        }
    }
}

/// A copy of a hovered word.
fn copied_word(word: &Option<HoveredWord>) -> (copy: Option<HoveredWord>)
    ensures
        copy is Some == word is Some,
        word is Some ==> copy->0@ == word->0@,
{
    match word {
        Some(w) => Some(
            HoveredWord { word: w.word.clone(), word_match: w.word_match, id: w.id },
        ),
        None => None,
    }
}

/// Whether the emulator can be asked for what it shows: it has a cell under its cursor, and the
/// text under the selection can be read.
pub open spec fn content_fits(v: TermView) -> bool {
    &&& v.sized()
    &&& v.has_cursor_cell()
    &&& v.selection_legible()
}

/// What the emulator shows now, within the bounds of `last_content`.
pub fn make_content(term: &Term<ZedListener>, last_content: &TerminalContent) -> (content:
    TerminalContent)
    requires
        content_fits(alac::term_view(*term)),
    ensures
        content.shows(alac::term_view(*term), *last_content),
{
    let content = alac::renderable_content(term);
    let selection_text = if content.selection.is_some() {
        alac::selection_to_string(term)
    } else {
        None
    };
    let cursor_cell = alac::cell_of(term, content.cursor.point);
    let cursor_char: char = alac::cell_char(&cursor_cell);
    let total: usize = alac::total_lines(term);
    let history: usize = total - alac::screen_lines(term);
    TerminalContent {
        cells: content.cells,
        mode: alac::mode(term),
        display_offset: content.display_offset,
        selection_text,
        selection: content.selection,
        cursor: content.cursor,
        cursor_char,
        terminal_bounds: last_content.terminal_bounds,
        last_hovered_word: copied_word(&last_content.last_hovered_word),
        scrolled_to_top: content.display_offset == history,
        scrolled_to_bottom: content.display_offset == 0,
    }
}

} // verus!
