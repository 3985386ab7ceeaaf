use mousefood::{
    dim_color, dim_u8, BinaryColor, Color, ColorTheme, FromThemedColor, Rgb, TermColor,
    TermColorType, TriColor,
};
use embedded_graphics::pixelcolor::{Rgb565 as EgRgb565, Rgb666 as EgRgb666, Rgb888, RgbColor};
use mousefood::{convert_channel, Rgb565, Rgb666};
use TermColorType::{Background, Foreground};

fn rgb_of(role: TermColorType, color: Color) -> Rgb {
    let theme = ColorTheme::ansi();
    <Rgb as FromThemedColor>::from_term_color(&TermColor::new(color, role, &theme))
}

fn binary_of(role: TermColorType, color: Color) -> BinaryColor {
    let theme = ColorTheme::ansi();
    <BinaryColor as FromThemedColor>::from_term_color(&TermColor::new(color, role, &theme))
}

fn tri_of(role: TermColorType, color: Color, theme: &ColorTheme) -> TriColor {
    TermColor::new(color, role, theme).to_tri_color()
}

#[test]
fn reset_resolves_to_theme_defaults() {
    let theme = ColorTheme::default();
    assert_eq!(theme.resolve(Color::Reset, Foreground), theme.foreground);
    assert_eq!(theme.resolve(Color::Reset, Background), theme.background);
    let tokyo = ColorTheme::tokyo_night();
    assert_eq!(tokyo.resolve(Color::Reset, Foreground), Rgb::new(0xa9, 0xb1, 0xd6));
    assert_eq!(tokyo.resolve(Color::Reset, Background), Rgb::new(0x1a, 0x1b, 0x26));
}

#[test]
fn into_rgb888() {
    assert_eq!(rgb_of(Foreground, Color::Reset), Rgb::new(255, 255, 255));
    assert_eq!(rgb_of(Background, Color::Reset), Rgb::new(0, 0, 0));
    let cases = [
        (Color::White, Rgb::new(255, 255, 255)),
        (Color::Black, Rgb::new(0, 0, 0)),
        (Color::Red, Rgb::new(255, 0, 0)),
        (Color::Green, Rgb::new(0, 255, 0)),
        (Color::Yellow, Rgb::new(255, 255, 0)),
        (Color::Blue, Rgb::new(0, 0, 255)),
        (Color::Magenta, Rgb::new(255, 0, 255)),
        (Color::Cyan, Rgb::new(0, 255, 255)),
        (Color::LightRed, Rgb::new(255, 127, 127)),
        (Color::LightGreen, Rgb::new(127, 255, 127)),
        (Color::LightYellow, Rgb::new(255, 255, 127)),
        (Color::LightBlue, Rgb::new(127, 127, 255)),
        (Color::LightMagenta, Rgb::new(255, 127, 255)),
        (Color::LightCyan, Rgb::new(127, 255, 255)),
        (Color::Gray, Rgb::new(127, 127, 127)),
        (Color::DarkGray, Rgb::new(170, 170, 170)),
        (Color::Rgb(50, 100, 200), Rgb::new(50, 100, 200)),
        (Color::Rgb(123, 23, 3), Rgb::new(123, 23, 3)),
        (Color::Indexed(42), Rgb::new(0, 0, 0)),
    ];
    for role in [Foreground, Background] {
        for (color, expected) in cases {
            assert_eq!(rgb_of(role, color), expected, "{:?} {:?}", role, color);
        }
    }
}

#[test]
fn into_binary_color() {
    assert_eq!(binary_of(Foreground, Color::Black), BinaryColor::Off);
    assert_eq!(binary_of(Background, Color::Black), BinaryColor::Off);
    assert_eq!(binary_of(Foreground, Color::White), BinaryColor::On);
    assert_eq!(binary_of(Background, Color::White), BinaryColor::On);
    assert_eq!(binary_of(Background, Color::Reset), BinaryColor::Off);
    assert_eq!(binary_of(Foreground, Color::Reset), BinaryColor::On);
}

#[test]
fn binary_falls_back_by_role() {
    assert_eq!(binary_of(Foreground, Color::Red), BinaryColor::On);
    assert_eq!(binary_of(Background, Color::Red), BinaryColor::Off);
    assert_eq!(binary_of(Foreground, Color::Rgb(0, 0, 0)), BinaryColor::Off);
    assert_eq!(binary_of(Background, Color::Rgb(255, 255, 255)), BinaryColor::On);
}

#[test]
fn binary_from_rgb_uses_luma() {
    assert_eq!(BinaryColor::from_rgb888(Rgb::new(200, 200, 200)), BinaryColor::On);
    assert_eq!(BinaryColor::from_rgb888(Rgb::new(100, 100, 100)), BinaryColor::Off);
    assert_eq!(BinaryColor::from_rgb888(Rgb::new(0, 255, 0)), BinaryColor::On);
    assert_eq!(BinaryColor::from_rgb888(Rgb::new(255, 0, 0)), BinaryColor::Off);
    assert_eq!(BinaryColor::On.to_rgb888(), Rgb::new(255, 255, 255));
    assert_eq!(BinaryColor::Off.to_rgb888(), Rgb::new(0, 0, 0));
}

#[test]
fn into_tri_colors() {
    let ansi = ColorTheme::ansi();
    for role in [Foreground, Background] {
        assert_eq!(tri_of(role, Color::Black, &ansi), TriColor::Black);
        assert_eq!(tri_of(role, Color::White, &ansi), TriColor::White);
        assert_eq!(tri_of(role, Color::Red, &ansi), TriColor::Red);
        assert_eq!(tri_of(role, Color::Rgb(255, 0, 0), &ansi), TriColor::Red);
    }
    assert_eq!(tri_of(Foreground, Color::Blue, &ansi), TriColor::Black);
    assert_eq!(tri_of(Background, Color::Blue, &ansi), TriColor::White);
    // Reset resolves to white / black under the default theme.
    assert_eq!(tri_of(Foreground, Color::Reset, &ansi), TriColor::White);
    assert_eq!(tri_of(Background, Color::Reset, &ansi), TriColor::Black);
}

#[test]
fn tri_color_follows_the_resolved_color() {
    // Tokyo Night's red is no palette entry, so it falls back by role.
    let tokyo = ColorTheme::tokyo_night();
    assert_eq!(tri_of(Foreground, Color::Red, &tokyo), TriColor::Black);
    assert_eq!(tri_of(Background, Color::Red, &tokyo), TriColor::White);
    assert_eq!(tri_of(Foreground, Color::Rgb(255, 0, 0), &tokyo), TriColor::Red);
}

#[test]
fn dim_color_halves_channels() {
    assert_eq!(dim_u8(255), 127);
    assert_eq!(dim_u8(7), 3);
    assert_eq!(dim_u8(0), 0);
    assert_eq!(dim_color(Rgb::new(255, 128, 7)), Rgb::new(127, 64, 3));
    assert_eq!(dim_color(Rgb::new(1, 2, 3)), Rgb::new(0, 1, 1));
    let fg = rgb_of(Foreground, Color::LightBlue);
    let bg = rgb_of(Background, Color::LightBlue);
    assert_eq!(dim_color(fg), dim_color(bg));
    assert_eq!(dim_color(BinaryColor::On), BinaryColor::Off);
    assert_eq!(dim_color(BinaryColor::Off), BinaryColor::Off);
}

#[test]
fn tokyo_night_repeats_base_colors() {
    let t = ColorTheme::tokyo_night();
    assert_eq!(t.light_red, t.red);
    assert_eq!(t.light_cyan, t.cyan);
    assert_eq!(t.gray, Rgb::new(0xc0, 0xca, 0xf5));
    assert_eq!(t.dark_gray, Rgb::new(0x41, 0x48, 0x68));
    assert_eq!(t.resolve(Color::Magenta, Foreground), Rgb::new(0xbb, 0x9a, 0xf7));
}

#[test]
fn channel_conversion_matches_embedded_graphics() {
    for v in 0..=255u8 {
        let c: EgRgb565 = Rgb888::new(v, v, v).into();
        assert_eq!((convert_channel(v, 255, 31), convert_channel(v, 255, 63)), (c.r(), c.g()));
        let d: EgRgb666 = Rgb888::new(v, 0, 0).into();
        assert_eq!(convert_channel(v, 255, 63), d.r());
    }
    for v in 0..=63u8 {
        let back: Rgb888 = EgRgb565::new(v & 31, v, v & 31).into();
        assert_eq!(convert_channel(v & 31, 31, 255), back.r());
        assert_eq!(convert_channel(v, 63, 255), back.g());
    }
    assert_eq!(convert_channel(200, 255, 255), 200);
}

#[test]
fn packed_colors_resolve_and_dim_in_their_own_depth() {
    let theme = ColorTheme::ansi();
    let c = <Rgb565 as FromThemedColor>::from_term_color(&TermColor::new(
        Color::Rgb(12, 255, 128),
        Foreground,
        &theme,
    ));
    assert_eq!((c.r, c.g, c.b), (1, 63, 16));
    assert_eq!(c.to_rgb888(), Rgb::new(8, 255, 132));
    let d = dim_color(c);
    // 8 -> 4 -> 0; 255 -> 127 -> 31; 132 -> 66 -> 8
    assert_eq!((d.r, d.g, d.b), (0, 31, 8));
    let w = <Rgb666 as FromThemedColor>::from_term_color(&TermColor::new(
        Color::Reset,
        Foreground,
        &theme,
    ));
    assert_eq!((w.r, w.g, w.b), (63, 63, 63));
}
