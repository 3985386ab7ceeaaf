use embedded_graphics::mock_display::MockDisplay;
use embedded_graphics::mono_font::ascii::FONT_4X6;
use embedded_graphics::mono_font::{MonoTextStyle, MonoTextStyleBuilder};
use embedded_graphics::pixelcolor::{Rgb888, RgbColor};
use embedded_graphics::prelude::{DrawTarget, Point as EgPoint};
use embedded_graphics::text::{Alignment, Baseline, LineHeight, Text, TextStyleBuilder};
use embedded_graphics::Drawable;
use mousefood::{
    BackendConfig, BackendState, BlinkConfig, Cell, Color, ColorTheme, CursorConfig, GlyphDraw,
    Rgb, TerminalAlignment,
};

fn eg(c: Rgb) -> Rgb888 {
    Rgb888::new(c.r, c.g, c.b)
}

fn state() -> BackendState<Rgb> {
    let config = BackendConfig {
        char_width: 4,
        char_height: 6,
        has_bold_font: false,
        has_italic_font: false,
        vertical_alignment: TerminalAlignment::Start,
        horizontal_alignment: TerminalAlignment::Start,
        color_theme: ColorTheme::default(),
        cursor: CursorConfig::default(),
        blink: BlinkConfig::default(),
        framebuffer: false,
    };
    BackendState::new(64, 64, config)
}

fn display() -> MockDisplay<Rgb888> {
    let mut d = MockDisplay::new();
    d.set_allow_overdraw(true);
    d
}

fn render(glyphs: &[GlyphDraw<Rgb>], target: &mut MockDisplay<Rgb888>) {
    for g in glyphs {
        let style = MonoTextStyleBuilder::new()
            .font(&FONT_4X6)
            .text_color(eg(g.fg))
            .background_color(eg(g.bg))
            .build();
        Text::with_baseline(&g.symbol, EgPoint::new(g.position.x, g.position.y), style, Baseline::Top)
            .draw(target)
            .unwrap();
    }
}

fn cells(text: &str) -> Vec<(u16, u16, Cell)> {
    text.chars()
        .enumerate()
        .filter(|(_, ch)| *ch != ' ')
        .map(|(i, ch)| {
            let cell = Cell {
                symbol: ch.to_string(),
                fg: Color::Reset,
                bg: Color::Reset,
                underline_color: Color::Reset,
                modifier: 0,
            };
            (i as u16, 0, cell)
        })
        .collect()
}

#[test]
fn renders_direct_as_expected() {
    let mut display0 = display();
    let mut display1 = display();

    // "T" through the backend, then " est" straight onto the display.
    {
        let mut s = state();
        let bg = s.clear().unwrap();
        display0.clear(eg(bg)).unwrap();
        let glyphs = s.draw(cells("T"));
        render(&glyphs, &mut display0);
        let text_style = TextStyleBuilder::new()
            .alignment(Alignment::Left)
            .line_height(LineHeight::Percent(100))
            .baseline(Baseline::Top)
            .build();
        Text::with_text_style(
            " est",
            EgPoint::new(0, 0),
            MonoTextStyle::new(&FONT_4X6, Rgb888::WHITE),
            text_style,
        )
        .draw(&mut display0)
        .unwrap();
    }

    // "Test" through the backend.
    {
        let mut s = state();
        let bg = s.clear().unwrap();
        display1.clear(eg(bg)).unwrap();
        let glyphs = s.draw(cells("Test"));
        assert_eq!(glyphs.len(), 4);
        render(&glyphs, &mut display1);
    }

    display0.assert_eq(&display1);
}
