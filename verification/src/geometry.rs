//! The terminal in its window: lengths in pixels, and how many cells they hold.
use alacritty_terminal::grid::Dimensions;
use vstd::prelude::*;

verus! {

/// A length in pixels, carried as the bit pattern of its `f32`, with its whole pixels beside it:
/// the `f32` cut off towards zero, as far as an `i32` goes.
#[derive(Clone, Copy, Debug, PartialEq, Eq, Structural)]
pub struct Pixels {
    pub bits: u32,
    pub whole: i32,
}

/// A position in the window.
#[derive(Clone, Copy, Debug, PartialEq, Eq, Structural)]
pub struct Point {
    pub x: Pixels,
    pub y: Pixels,
}

/// A width and a height.
#[derive(Clone, Copy, Debug, PartialEq, Eq, Structural)]
pub struct Size {
    pub width: Pixels,
    pub height: Pixels,
}

/// A rectangle in the window.
#[derive(Clone, Copy, Debug, PartialEq, Eq, Structural)]
pub struct Bounds {
    pub origin: Point,
    pub size: Size,
}

impl Pixels {
    /// No length.
    pub open spec fn spec_zero() -> Pixels {
        Pixels { bits: 0, whole: 0 }
    }

    /// No length.
    pub fn zero() -> (p: Pixels)
        ensures
            p == Pixels::spec_zero(),
    {
        Pixels { bits: 0, whole: 0 }
    }

    /// The place of the length in the total order of `f32`: negative numbers, which have the sign
    /// bit, run backwards, and come before zero.
    pub open spec fn rank(self) -> int {
        if self.bits < 0x8000_0000 {
            self.bits as int
        } else {
            0x7fff_ffff - self.bits
        }
    }

    /// How often the length fits into itself: once, unless it is zero, infinite, or no number.
    pub open spec fn spec_held_by_itself(self) -> usize {
        let magnitude = if self.bits < 0x8000_0000 {
            self.bits as int
        } else {
            self.bits - 0x8000_0000
        };
        if 0 < magnitude < 0x7f80_0000 {
            1
        } else {
            0
        }
    }

    /// How often the length fits into itself.
    pub fn held_by_itself(&self) -> (n: usize)
        ensures
            n == self.spec_held_by_itself(),
    {
        let magnitude: u32 = if self.bits < 0x8000_0000 {
            self.bits
        } else {
            self.bits - 0x8000_0000
        };
        if 0 < magnitude && magnitude < 0x7f80_0000 {
            1
        } else {
            0
        }
    }

    /// Whether the length comes before the other.
    pub fn is_less(&self, other: &Pixels) -> (r: bool)
        ensures
            r == (self.rank() < other.rank()),
    {
        let a: i64 = if self.bits < 0x8000_0000 {
            self.bits as i64
        } else {
            0x7fff_ffff - self.bits as i64
        };
        let b: i64 = if other.bits < 0x8000_0000 {
            other.bits as i64
        } else {
            0x7fff_ffff - other.bits as i64
        };
        a < b
    }
}

/// Where the terminal lies, how large its cells are, and how many whole lines and columns of them
/// fit: the height over the line height and the width over the cell width, rounded down.
#[derive(Clone, Copy, Debug, PartialEq, Eq, Structural)]
pub struct TerminalBounds {
    pub cell_width: Pixels,
    pub line_height: Pixels,
    pub bounds: Bounds,
    pub lines: usize,
    pub columns: usize,
}

/// The size of a terminal as a pty is told.
#[derive(Clone, Copy, Debug, PartialEq, Eq, Structural)]
pub struct WindowSize {
    pub num_lines: u16,
    pub num_cols: u16,
    pub cell_width: u16,
    pub cell_height: u16,
}

impl WindowSize {
    /// Whether the height and the width in pixels can be counted in 16 bits.
    pub open spec fn counts_pixels(self) -> bool {
        &&& self.num_lines * self.cell_height <= u16::MAX
        &&& self.num_cols * self.cell_width <= u16::MAX
    }

    /// Whether the height and the width in pixels can be counted in 16 bits.
    pub fn is_counted(&self) -> (r: bool)
        ensures
            r == self.counts_pixels(),
    {
        match (self.num_lines.checked_mul(self.cell_height), self.num_cols.checked_mul(
            self.cell_width,
        )) {
            (Some(_), Some(_)) => true,
            _ => false,
        }
    }
}

/// The bits of 500 pixels.
const DEBUG_TERMINAL_WIDTH: u32 = 0x43fa_0000;

/// The bits of 30 pixels.
const DEBUG_TERMINAL_HEIGHT: u32 = 0x41f0_0000;

/// The bits of 5 pixels.
const DEBUG_CELL_SIDE: u32 = 0x40a0_0000;

impl TerminalBounds {
    /// The given lengths, of which `lines` lines and `columns` columns fit into the bounds.
    pub fn new(
        line_height: Pixels,
        cell_width: Pixels,
        bounds: Bounds,
        lines: usize,
        columns: usize,
    ) -> (b: TerminalBounds)
        ensures
            b == (TerminalBounds { cell_width, line_height, bounds, lines, columns }),
    {
        TerminalBounds { cell_width, line_height, bounds, lines, columns }
    }

    /// How many whole lines fit.
    pub fn num_lines(&self) -> (n: usize)
        ensures
            n == self.lines,
    {
        self.lines
    }

    /// How many whole columns fit.
    pub fn num_columns(&self) -> (n: usize)
        ensures
            n == self.columns,
    {
        self.columns
    }

    /// The height of the terminal.
    pub fn height(&self) -> (p: Pixels)
        ensures
            p == self.bounds.size.height,
    {
        self.bounds.size.height
    }

    /// The width of the terminal.
    pub fn width(&self) -> (p: Pixels)
        ensures
            p == self.bounds.size.width,
    {
        self.bounds.size.width
    }

    /// The width of a cell.
    pub fn cell_width(&self) -> (p: Pixels)
        ensures
            p == self.cell_width,
    {
        self.cell_width
    }

    /// The height of a line.
    pub fn line_height(&self) -> (p: Pixels)
        ensures
            p == self.line_height,
    {
        self.line_height
    }

    /// The bounds made large enough for one cell: a height below one line becomes one line, a
    /// width below one cell one cell. A length that is nothing, or no number, holds none of itself.
    pub open spec fn spec_at_least_one_cell(self) -> TerminalBounds {
        let low = self.bounds.size.height.rank() < self.line_height.rank();
        let narrow = self.bounds.size.width.rank() < self.cell_width.rank();
        TerminalBounds {
            bounds: Bounds {
                size: Size {
                    height: if low {
                        self.line_height
                    } else {
                        self.bounds.size.height
                    },
                    width: if narrow {
                        self.cell_width
                    } else {
                        self.bounds.size.width
                    },
                },
                ..self.bounds
            },
            lines: if low {
                self.line_height.spec_held_by_itself()
            } else {
                self.lines
            },
            columns: if narrow {
                self.cell_width.spec_held_by_itself()
            } else {
                self.columns
            },
            ..self
        }
    }

    /// The bounds made large enough for one cell.
    pub fn at_least_one_cell(&self) -> (b: TerminalBounds)
        ensures
            b == self.spec_at_least_one_cell(),
    {
        let mut b: TerminalBounds = *self;
        if b.bounds.size.height.is_less(&b.line_height) {
            b.bounds.size.height = b.line_height;
            b.lines = b.line_height.held_by_itself();
        }
        if b.bounds.size.width.is_less(&b.cell_width) {
            b.bounds.size.width = b.cell_width;
            b.columns = b.cell_width.held_by_itself();
        }
        b
    }

    /// The size as a pty is told: the counts cut down to 16 bits, the cell in whole pixels as far
    /// as 16 bits go.
    pub open spec fn window_size(self) -> WindowSize {
        WindowSize {
            num_lines: (self.lines % 65536) as u16,
            num_cols: (self.columns % 65536) as u16,
            cell_width: crate::grid::clamped(self.cell_width.whole as int, 0, 65535) as u16,
            cell_height: crate::grid::clamped(self.line_height.whole as int, 0, 65535) as u16,
        }
    }

    /// The bounds of a terminal that has not been laid out: 6 lines of 100 columns, in cells of 5
    /// pixels.
    pub open spec fn unlaid() -> TerminalBounds {
        TerminalBounds {
            cell_width: Pixels { bits: 0x40a0_0000, whole: 5 },
            line_height: Pixels { bits: 0x40a0_0000, whole: 5 },
            bounds: Bounds {
                origin: Point { x: Pixels::spec_zero(), y: Pixels::spec_zero() },
                size: Size {
                    width: Pixels { bits: 0x43fa_0000, whole: 500 },
                    height: Pixels { bits: 0x41f0_0000, whole: 30 },
                },
            },
            lines: 6,
            columns: 100,
        }
    }
}

impl Dimensions for TerminalBounds {
    /// The emulator is only ever brought to a size, for which it does not ask this.
    fn total_lines(&self) -> (n: usize)
        ensures
            n == self.lines,
    {
        self.screen_lines()
    }

    fn screen_lines(&self) -> (n: usize)
        ensures
            n == self.lines,
    {
        self.num_lines()
    }

    fn columns(&self) -> (n: usize)
        ensures
            n == self.columns,
    {
        self.num_columns()
    }
}

impl Default for TerminalBounds {
    fn default() -> (b: TerminalBounds)
        ensures
            b == TerminalBounds::unlaid(),
    {
        let side: Pixels = Pixels { bits: DEBUG_CELL_SIDE, whole: 5 };
        TerminalBounds::new(
            side,
            side,
            Bounds {
                origin: Point { x: Pixels::zero(), y: Pixels::zero() },
                size: Size {
                    width: Pixels { bits: DEBUG_TERMINAL_WIDTH, whole: 500 },
                    height: Pixels { bits: DEBUG_TERMINAL_HEIGHT, whole: 30 },
                },
            },
            6,
            100,
        )
    }
}

fn whole_u16(p: &Pixels) -> (n: u16)
    ensures
        n == crate::grid::clamped(p.whole as int, 0, 65535),
{
    if p.whole < 0 {
        0
    } else if p.whole > 65535 {
        65535
    } else {
        p.whole as u16
    }
}

impl From<TerminalBounds> for WindowSize {
    fn from(val: TerminalBounds) -> (size: WindowSize) {
        WindowSize {
            num_lines: (val.lines % 65536) as u16,
            num_cols: (val.columns % 65536) as u16,
            cell_width: whole_u16(&val.cell_width),
            cell_height: whole_u16(&val.line_height),
        }
    }
}

impl vstd::std_specs::convert::FromSpecImpl<TerminalBounds> for WindowSize {
    open spec fn obeys_from_spec() -> bool {
        true
    }

    open spec fn from_spec(val: TerminalBounds) -> WindowSize {
        val.window_size()
    }
}

/// The place, in the list of the cells in sight, of the cell in the given row and column; a row or
/// column past the end is the last one.
pub open spec fn content_index(row: int, col: int, lines: int, columns: int) -> int {
    crate::grid::smaller(row, lines - 1) * columns + crate::grid::smaller(col, columns - 1)
}

/// The place, in the list of the cells in sight, of the cell under the mouse. The column and the
/// row are the mouse's distances from the left and the top, in cells, rounded to the nearest and
/// not below zero.
pub fn content_index_for_mouse(col: usize, row: usize, terminal_bounds: &TerminalBounds) -> (i:
    usize)
    requires
        terminal_bounds.lines >= 1,
        terminal_bounds.columns >= 1,
        terminal_bounds.lines * terminal_bounds.columns <= usize::MAX,
    ensures
        i == content_index(
            row as int,
            col as int,
            terminal_bounds.lines as int,
            terminal_bounds.columns as int,
        ),
        i < terminal_bounds.lines * terminal_bounds.columns,
{
    let columns: usize = terminal_bounds.num_columns();
    let lines: usize = terminal_bounds.num_lines();
    let clamped_col: usize = if col < columns - 1 { col } else { columns - 1 };
    let clamped_row: usize = if row < lines - 1 { row } else { lines - 1 };
    assert(clamped_row * columns + clamped_col < lines * columns) by (nonlinear_arith)
        requires
            clamped_row <= lines - 1,
            clamped_col <= columns - 1,
            columns >= 1,
            lines >= 1,
    ;
    assert(clamped_row * columns <= lines * columns) by (nonlinear_arith)
        requires
            clamped_row <= lines - 1,
            columns >= 1,
    ;
    clamped_row * columns + clamped_col
}

/// The mouse over a cell of the terminal finds that cell and no other: two places in the list are
/// the same only for the same row and column.
pub proof fn content_index_tells_cells_apart(
    row: int,
    col: int,
    other_row: int,
    other_col: int,
    lines: int,
    columns: int,
)
    requires
        0 <= row < lines,
        0 <= col < columns,
        0 <= other_row < lines,
        0 <= other_col < columns,
        content_index(row, col, lines, columns) == content_index(
            other_row,
            other_col,
            lines,
            columns,
        ),
    ensures
        row == other_row,
        col == other_col,
{
    assert(row == other_row && col == other_col) by (nonlinear_arith)
        requires
            0 <= col < columns,
            0 <= other_col < columns,
            row * columns + col == other_row * columns + other_col,
    ;
}

/// The mouse outside of the terminal finds the nearest cell: wherever it is, the place in the list
/// is that of a cell in sight, and past the last row and column it is the last cell.
pub proof fn content_index_stays_inside(row: int, col: int, lines: int, columns: int)
    requires
        0 <= row,
        0 <= col,
        1 <= lines,
        1 <= columns,
    ensures
        0 <= content_index(row, col, lines, columns) < lines * columns,
        row >= lines && col >= columns ==> content_index(row, col, lines, columns) == lines
            * columns - 1,
{
    let r = crate::grid::smaller(row, lines - 1);
    let c = crate::grid::smaller(col, columns - 1);
    assert(0 <= r * columns + c < lines * columns) by (nonlinear_arith)
        requires
            0 <= r <= lines - 1,
            0 <= c <= columns - 1,
    ;
    assert((lines - 1) * columns + columns - 1 == lines * columns - 1) by (nonlinear_arith);
}

} // verus!
