use terminal::color::{get_color_at_index, rgb_for_index, rgba_color, Color, Hsla, Rgba, Theme};

#[test]
fn test_rgb_for_index() {
    // Test every possible value in the color cube.
    for i in 16..=231 {
        let (r, g, b) = rgb_for_index(i);
        assert_eq!(i, 16 + 36 * r + 6 * g + b);
    }
}

fn theme() -> Theme {
    let color = |n: u32| Hsla { h: n, s: 0, l: 0, a: 0 };
    Theme {
        terminal_ansi_black: color(0),
        terminal_ansi_red: color(1),
        terminal_ansi_green: color(2),
        terminal_ansi_yellow: color(3),
        terminal_ansi_blue: color(4),
        terminal_ansi_magenta: color(5),
        terminal_ansi_cyan: color(6),
        terminal_ansi_white: color(7),
        terminal_ansi_bright_black: color(8),
        terminal_ansi_bright_red: color(9),
        terminal_ansi_bright_green: color(10),
        terminal_ansi_bright_yellow: color(11),
        terminal_ansi_bright_blue: color(12),
        terminal_ansi_bright_magenta: color(13),
        terminal_ansi_bright_cyan: color(14),
        terminal_ansi_bright_white: color(15),
        terminal_foreground: color(256),
        terminal_background: color(257),
        cursor: color(258),
        terminal_ansi_dim_black: color(259),
        terminal_ansi_dim_red: color(260),
        terminal_ansi_dim_green: color(261),
        terminal_ansi_dim_yellow: color(262),
        terminal_ansi_dim_blue: color(263),
        terminal_ansi_dim_magenta: color(264),
        terminal_ansi_dim_cyan: color(265),
        terminal_ansi_dim_white: color(266),
        terminal_bright_foreground: color(267),
    }
}

#[test]
fn named_colours_come_from_the_theme() {
    let theme = theme();
    for index in (0..16).chain(256..268) {
        assert!(matches!(
            get_color_at_index(index, &theme),
            Color::Themed(Hsla { h, .. }) if h == index as u32
        ));
    }
    assert_eq!(get_color_at_index(268, &theme), Color::Themed(theme.terminal_ansi_black));
    assert_eq!(get_color_at_index(269, &theme), Color::Fixed(rgba_color(0, 0, 0)));
    assert_eq!(get_color_at_index(usize::MAX, &theme), Color::Fixed(rgba_color(0, 0, 0)));
}

#[test]
fn cube_and_greys_are_fixed() {
    let theme = theme();
    let fixed = |index: usize| get_color_at_index(index, &theme);
    assert_eq!(fixed(16), Color::Fixed(rgba_color(0, 0, 0)));
    assert_eq!(fixed(17), Color::Fixed(rgba_color(0, 0, 95)));
    assert_eq!(fixed(67), Color::Fixed(rgba_color(95, 135, 175)));
    assert_eq!(fixed(231), Color::Fixed(rgba_color(255, 255, 255)));
    assert_eq!(fixed(232), Color::Fixed(rgba_color(8, 8, 8)));
    assert_eq!(fixed(255), Color::Fixed(rgba_color(238, 238, 238)));
    assert_eq!(rgba_color(1, 2, 3), Rgba { r: 1, g: 2, b: 3, a: 255 });
}
