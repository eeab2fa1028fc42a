use alacritty_terminal::term::cell::Cell;
use rand::distributions::Alphanumeric;
use rand::rngs::ThreadRng;
use rand::{thread_rng, Rng};
use terminal::content::{IndexedCell, TerminalContent};
use terminal::geometry::{
    content_index_for_mouse, Bounds, Pixels, Point, Size, TerminalBounds, WindowSize,
};
use terminal::grid::GridPoint;

fn px(value: f32) -> Pixels {
    Pixels { bits: value.to_bits(), whole: value as i32 }
}

fn value(pixels: Pixels) -> f32 {
    f32::from_bits(pixels.bits)
}

fn bounds_of(cell_width: f32, line_height: f32, width: f32, height: f32) -> TerminalBounds {
    TerminalBounds::new(
        px(line_height),
        px(cell_width),
        Bounds {
            origin: Point { x: px(0.), y: px(0.) },
            size: Size { width: px(width), height: px(height) },
        },
        (height / line_height).floor() as usize,
        (width / cell_width).floor() as usize,
    )
}

fn index_at(x: f32, y: f32, bounds: &TerminalBounds) -> usize {
    let col = (x / value(bounds.cell_width())).round() as usize;
    let row = (y / value(bounds.line_height())).round() as usize;
    content_index_for_mouse(col, row, bounds)
}

#[test]
fn test_mouse_to_cell_test() {
    let mut rng = thread_rng();
    const ITERATIONS: usize = 10;
    const PRECISION: usize = 1000;

    for _ in 0..ITERATIONS {
        let viewport_cells = rng.gen_range(15..20);
        let cell_size = rng.gen_range(5 * PRECISION..20 * PRECISION) as f32 / PRECISION as f32;

        let size = bounds_of(
            cell_size,
            cell_size,
            cell_size * (viewport_cells as f32),
            cell_size * (viewport_cells as f32),
        );

        let cells = get_cells(size, &mut rng);
        let content = convert_cells_to_content(size, &cells);

        for row in 0..(viewport_cells - 1) {
            let row = row as usize;
            for col in 0..(viewport_cells - 1) {
                let col = col as usize;

                let row_offset = rng.gen_range(0..PRECISION) as f32 / PRECISION as f32;
                let col_offset = rng.gen_range(0..PRECISION) as f32 / PRECISION as f32;

                let content_index = index_at(
                    col as f32 * cell_size + col_offset,
                    row as f32 * cell_size + row_offset,
                    &content.terminal_bounds,
                );
                let mouse_cell = content.cells[content_index].c;
                let real_cell = cells[row][col];

                assert_eq!(mouse_cell, real_cell);
            }
        }
    }
}

#[test]
fn test_mouse_to_cell_clamp() {
    let mut rng = thread_rng();

    let size = bounds_of(10., 10., 100., 100.);

    let cells = get_cells(size, &mut rng);
    let content = convert_cells_to_content(size, &cells);

    assert_eq!(
        content.cells[index_at(-10., -10., &content.terminal_bounds)].c,
        cells[0][0]
    );
    assert_eq!(
        content.cells[index_at(1000., 1000., &content.terminal_bounds)].c,
        cells[9][9]
    );
}

fn get_cells(size: TerminalBounds, rng: &mut ThreadRng) -> Vec<Vec<char>> {
    let mut cells = Vec::new();

    for _ in 0..((value(size.height()) / value(size.line_height())) as usize) {
        let mut row_vec = Vec::new();
        for _ in 0..((value(size.width()) / value(size.cell_width())) as usize) {
            let cell_char = rng.sample(Alphanumeric) as char;
            row_vec.push(cell_char)
        }
        cells.push(row_vec)
    }

    cells
}

fn convert_cells_to_content(
    terminal_bounds: TerminalBounds,
    cells: &[Vec<char>],
) -> TerminalContent {
    let mut ic = Vec::new();

    for (index, row) in cells.iter().enumerate() {
        for (cell_index, cell_char) in row.iter().enumerate() {
            ic.push(IndexedCell {
                point: GridPoint { line: index as i32, column: cell_index },
                cell: Cell { c: *cell_char, ..Default::default() },
            });
        }
    }

    TerminalContent { cells: ic, terminal_bounds, ..Default::default() }
}

#[test]
fn cells_are_counted_row_by_row() {
    let bounds = bounds_of(10., 10., 100., 100.);
    assert_eq!(content_index_for_mouse(3, 2, &bounds), 23);
    assert_eq!(content_index_for_mouse(10, 2, &bounds), 29);
    assert_eq!(content_index_for_mouse(3, 10, &bounds), 93);
}

#[test]
fn unlaid_bounds_match_their_pixels() {
    let bounds = TerminalBounds::default();
    assert_eq!(bounds, bounds_of(5., 5., 500., 30.));
    assert_eq!(bounds.num_lines(), 6);
    assert_eq!(bounds.num_columns(), 100);
}

#[test]
fn bounds_are_made_large_enough_for_a_cell() {
    let narrow = bounds_of(10., 20., 5., 19.);
    assert_eq!(narrow.num_columns(), 0);
    assert_eq!(narrow.num_lines(), 0);
    let settled = narrow.at_least_one_cell();
    assert_eq!(settled, bounds_of(10., 20., 10., 20.));
    assert_eq!(settled.at_least_one_cell(), settled);

    let negative = bounds_of(10., 20., -5., 45.);
    assert_eq!(negative.at_least_one_cell(), bounds_of(10., 20., 10., 45.));
}

#[test]
fn a_pty_is_told_its_size() {
    let size = WindowSize::from(bounds_of(8.5, 17.25, 850., 414.));
    assert_eq!(
        size,
        WindowSize { num_lines: 24, num_cols: 100, cell_width: 8, cell_height: 17 }
    );
    let odd = TerminalBounds::new(
        px(-3.),
        px(70000.),
        bounds_of(1., 1., 1., 1.).bounds,
        65537,
        65536,
    );
    assert_eq!(
        WindowSize::from(odd),
        WindowSize { num_lines: 1, num_cols: 0, cell_width: 65535, cell_height: 0 }
    );
}
