//! The colours that the terminal answers with.
use crate::alac;
use crate::alac::ZedListener;
use crate::grid::Rgb;
use alacritty_terminal::term::Term;
use vstd::prelude::*;

verus! {

/// A colour of the theme, in hue, saturation, lightness and opacity. Each is the bit pattern of
/// the `f32` that the theme has.
#[derive(Clone, Copy, Debug, PartialEq, Eq, Structural)]
pub struct Hsla {
    pub h: u32,
    pub s: u32,
    pub l: u32,
    pub a: u32,
}

/// A colour in red, green, blue and opacity, each from 0 to 255.
#[derive(Clone, Copy, Debug, PartialEq, Eq, Structural)]
pub struct Rgba {
    pub r: u8,
    pub g: u8,
    pub b: u8,
    pub a: u8,
}

/// A colour, from the theme or by its channels.
#[derive(Clone, Copy, Debug, PartialEq, Eq, Structural)]
pub enum Color {
    Themed(Hsla),
    Fixed(Rgba),
}

/// The colours of a theme that a terminal uses.
pub struct Theme {
    pub terminal_ansi_black: Hsla,
    pub terminal_ansi_red: Hsla,
    pub terminal_ansi_green: Hsla,
    pub terminal_ansi_yellow: Hsla,
    pub terminal_ansi_blue: Hsla,
    pub terminal_ansi_magenta: Hsla,
    pub terminal_ansi_cyan: Hsla,
    pub terminal_ansi_white: Hsla,
    pub terminal_ansi_bright_black: Hsla,
    pub terminal_ansi_bright_red: Hsla,
    pub terminal_ansi_bright_green: Hsla,
    pub terminal_ansi_bright_yellow: Hsla,
    pub terminal_ansi_bright_blue: Hsla,
    pub terminal_ansi_bright_magenta: Hsla,
    pub terminal_ansi_bright_cyan: Hsla,
    pub terminal_ansi_bright_white: Hsla,
    pub terminal_ansi_dim_black: Hsla,
    pub terminal_ansi_dim_red: Hsla,
    pub terminal_ansi_dim_green: Hsla,
    pub terminal_ansi_dim_yellow: Hsla,
    pub terminal_ansi_dim_blue: Hsla,
    pub terminal_ansi_dim_magenta: Hsla,
    pub terminal_ansi_dim_cyan: Hsla,
    pub terminal_ansi_dim_white: Hsla,
    pub terminal_foreground: Hsla,
    pub terminal_bright_foreground: Hsla,
    pub terminal_background: Hsla,
    /// The cursor of the local player.
    pub cursor: Hsla,
}

impl Theme {
    /// The sixteen named colours in the order of their indices, the eight plain ones first.
    pub open spec fn named(self) -> Seq<Hsla> {
        seq![
            self.terminal_ansi_black,
            self.terminal_ansi_red,
            self.terminal_ansi_green,
            self.terminal_ansi_yellow,
            self.terminal_ansi_blue,
            self.terminal_ansi_magenta,
            self.terminal_ansi_cyan,
            self.terminal_ansi_white,
            self.terminal_ansi_bright_black,
            self.terminal_ansi_bright_red,
            self.terminal_ansi_bright_green,
            self.terminal_ansi_bright_yellow,
            self.terminal_ansi_bright_blue,
            self.terminal_ansi_bright_magenta,
            self.terminal_ansi_bright_cyan,
            self.terminal_ansi_bright_white,
        ]
    }

    /// The colours behind the 256 indexed ones, in the order of their indices: foreground,
    /// background, cursor, the eight dim colours, the bright foreground, and black for the dim
    /// background.
    pub open spec fn special(self) -> Seq<Hsla> {
        seq![
            self.terminal_foreground,
            self.terminal_background,
            self.cursor,
            self.terminal_ansi_dim_black,
            self.terminal_ansi_dim_red,
            self.terminal_ansi_dim_green,
            self.terminal_ansi_dim_yellow,
            self.terminal_ansi_dim_blue,
            self.terminal_ansi_dim_magenta,
            self.terminal_ansi_dim_cyan,
            self.terminal_ansi_dim_white,
            self.terminal_bright_foreground,
            self.terminal_ansi_black,
        ]
    }
}

/// The brightness of a step of the colour cube: off, or 95 and then up by 40.
pub open spec fn cube_level(step: int) -> int {
    if step == 0 {
        0
    } else {
        step * 40 + 55
    }
}

/// An opaque colour.
pub open spec fn opaque(r: int, g: int, b: int) -> Rgba {
    Rgba { r: r as u8, g: g as u8, b: b as u8, a: 255 }
}

/// The colour of an index: 16 named colours, a cube of 6 steps of red, green and blue, a ramp of
/// 24 greys, the special colours, and black for anything else.
pub open spec fn indexed_color(index: int, theme: Theme) -> Color {
    if 0 <= index < 16 {
        Color::Themed(theme.named()[index])
    } else if 16 <= index < 232 {
        let i = index - 16;
        Color::Fixed(
            opaque(cube_level(i / 36), cube_level(i / 6 % 6), cube_level(i % 6)),
        )
    } else if 232 <= index < 256 {
        let grey = (index - 232) * 10 + 8;
        Color::Fixed(opaque(grey, grey, grey))
    } else if 256 <= index < 269 {
        Color::Themed(theme.special()[index - 256])
    } else {
        Color::Fixed(opaque(0, 0, 0))
    }
}

/// The steps of red, green and blue, each from 0 to 5, of an index into the colour cube: the
/// reverse of `16 + 36 * r + 6 * g + b`.
pub fn rgb_for_index(i: u8) -> (rgb: (u8, u8, u8))
    requires
        16 <= i <= 231,
    ensures
        i == 16 + 36 * rgb.0 + 6 * rgb.1 + rgb.2,
        rgb.0 <= 5,
        rgb.1 <= 5,
        rgb.2 <= 5,
{
    let i: u8 = i - 16;
    let r: u8 = (i - (i % 36)) / 36;
    let g: u8 = ((i % 36) - (i % 6)) / 6;
    let b: u8 = (i % 36) % 6;
    (r, g, b)
}

/// An opaque colour of the given channels.
pub fn rgba_color(r: u8, g: u8, b: u8) -> (color: Rgba)
    ensures
        color == opaque(r as int, g as int, b as int),
{
    Rgba { r, g, b, a: 255 }
}

fn level(step: u8) -> (l: u8)
    requires
        step <= 5,
    ensures
        l == cube_level(step as int),
{
    if step == 0 {
        0
    } else {
        step * 40 + 55
    }
}

/// The colour of an index, as the emulator counts them. Meant for 0 to 255; the indices behind are
/// the emulator's own, and anything else is black.
pub fn get_color_at_index(index: usize, theme: &Theme) -> (color: Color)
    ensures
        color == indexed_color(index as int, *theme),
{
    if index < 16 {
        let named: Hsla = if index == 0 {
            theme.terminal_ansi_black
        } else if index == 1 {
            theme.terminal_ansi_red
        } else if index == 2 {
            theme.terminal_ansi_green
        } else if index == 3 {
            theme.terminal_ansi_yellow
        } else if index == 4 {
            theme.terminal_ansi_blue
        } else if index == 5 {
            theme.terminal_ansi_magenta
        } else if index == 6 {
            theme.terminal_ansi_cyan
        } else if index == 7 {
            theme.terminal_ansi_white
        } else if index == 8 {
            theme.terminal_ansi_bright_black
        } else if index == 9 {
            theme.terminal_ansi_bright_red
        } else if index == 10 {
            theme.terminal_ansi_bright_green
        } else if index == 11 {
            theme.terminal_ansi_bright_yellow
        } else if index == 12 {
            theme.terminal_ansi_bright_blue
        } else if index == 13 {
            theme.terminal_ansi_bright_magenta
        } else if index == 14 {
            theme.terminal_ansi_bright_cyan
        } else {
            theme.terminal_ansi_bright_white
        };
        Color::Themed(named)
    } else if index <= 231 {
        let (r, g, b) = rgb_for_index(index as u8);
        Color::Fixed(rgba_color(level(r), level(g), level(b)))
    } else if index <= 255 {
        let i: u8 = index as u8 - 232;
        let value: u8 = i * 10 + 8;
        Color::Fixed(rgba_color(value, value, value))
    } else if index <= 268 {
        let special: Hsla = if index == 256 {
            theme.terminal_foreground
        } else if index == 257 {
            theme.terminal_background
        } else if index == 258 {
            theme.cursor
        } else if index == 259 {
            theme.terminal_ansi_dim_black
        } else if index == 260 {
            theme.terminal_ansi_dim_red
        } else if index == 261 {
            theme.terminal_ansi_dim_green
        } else if index == 262 {
            theme.terminal_ansi_dim_yellow
        } else if index == 263 {
            theme.terminal_ansi_dim_blue
        } else if index == 264 {
            theme.terminal_ansi_dim_magenta
        } else if index == 265 {
            theme.terminal_ansi_dim_cyan
        } else if index == 266 {
            theme.terminal_ansi_dim_white
        } else if index == 267 {
            theme.terminal_bright_foreground
        } else {
            theme.terminal_ansi_black
        };
        Color::Themed(special)
    } else {
        Color::Fixed(rgba_color(0, 0, 0))
    }
}

/// How many colours a program can set and ask for.
pub const COLOR_COUNT: usize = 269;

/// What a program that asks for the colour of an index is told.
#[derive(Clone, Copy, Debug, PartialEq, Eq, Structural)]
pub enum RequestedColor {
    /// The colour that a program has set.
    Chosen(Rgb),
    /// The colour that the index has by itself.
    Default(Color),
}

/// The colour to answer a request with: the one that was set, else the index's own.
pub fn requested_color(
    term: &Term<ZedListener>,
    index: usize,
    theme: &Theme,
) -> (color: RequestedColor)
    requires
        index < COLOR_COUNT,
    ensures
        color == match alac::color_set(alac::term_view(*term), index as nat) {
            Some(rgb) => RequestedColor::Chosen(rgb),
            None => RequestedColor::Default(indexed_color(index as int, *theme)),
        },
{
    match alac::color(term, index) {
        Some(rgb) => RequestedColor::Chosen(rgb),
        None => RequestedColor::Default(get_color_at_index(index, theme)),
    }
}

/// The index of a colour in the cube.
pub open spec fn cube_index(r: int, g: int, b: int) -> int {
    16 + 36 * r + 6 * g + b
}

/// Every colour of the cube has its own index, and the colour at that index is the one with the
/// given steps.
pub proof fn cube_colors_are_indexed(theme: Theme, r: int, g: int, b: int)
    requires
        0 <= r <= 5,
        0 <= g <= 5,
        0 <= b <= 5,
    ensures
        16 <= cube_index(r, g, b) <= 231,
        indexed_color(cube_index(r, g, b), theme) == Color::Fixed(
            opaque(cube_level(r), cube_level(g), cube_level(b)),
        ),
{
    let i = cube_index(r, g, b) - 16;
    assert(i / 36 == r);
    assert(i / 6 == 6 * r + g);
    assert((6 * r + g) % 6 == g);
    assert(i % 6 == b);
}

proof fn steps_of_index(i: int) -> (steps: (int, int, int))
    requires
        16 <= i <= 231,
    ensures
        steps == ((i - 16) / 36, (i - 16) / 6 % 6, (i - 16) % 6),
        0 <= steps.0 <= 5,
        0 <= steps.1 <= 5,
        0 <= steps.2 <= 5,
        i == cube_index(steps.0, steps.1, steps.2),
{
    let k = i - 16;
    assert(k / 6 / 6 == k / 36);
    (k / 36, k / 6 % 6, k % 6)
}

proof fn level_tells_steps_apart(s: int, t: int)
    requires
        0 <= s <= 5,
        0 <= t <= 5,
        cube_level(s) as u8 == cube_level(t) as u8,
    ensures
        s == t,
{
}

/// No two indices of the cube have the same colour.
pub proof fn cube_colors_differ(theme: Theme, i: int, j: int)
    requires
        16 <= i <= 231,
        16 <= j <= 231,
        indexed_color(i, theme) == indexed_color(j, theme),
    ensures
        i == j,
{
    let a = steps_of_index(i);
    let b = steps_of_index(j);
    level_tells_steps_apart(a.0, b.0);
    level_tells_steps_apart(a.1, b.1);
    level_tells_steps_apart(a.2, b.2);
}

/// The grey ramp goes up: a later index of it is the lighter one, from 8 to 238.
pub proof fn greys_go_up(theme: Theme, i: int, j: int)
    requires
        232 <= i < j <= 255,
    ensures
        ({
            let a = indexed_color(i, theme)->Fixed_0;
            let b = indexed_color(j, theme)->Fixed_0;
            8 <= a.r < b.r <= 238 && a.r == a.g == a.b && b.r == b.g == b.b
        }),
{
}

} // verus!
