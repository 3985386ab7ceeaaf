use mousefood::backend::{BOLD, CROSSED_OUT, DIM, HIDDEN, ITALIC, RAPID_BLINK, REVERSED, SLOW_BLINK, UNDERLINED};
use mousefood::{
    BackendConfig, BackendState, BinaryColor, BlinkConfig, Cell, ClearType, Color, ColorTheme,
    CursorConfig, CursorFill, CursorStyle, Error, FontChoice, Point, Position, Rgb, Size,
    TerminalAlignment, WindowSize,
};

fn config(char_width: u16, char_height: u16) -> BackendConfig {
    BackendConfig {
        char_width,
        char_height,
        has_bold_font: false,
        has_italic_font: false,
        vertical_alignment: TerminalAlignment::Start,
        horizontal_alignment: TerminalAlignment::Start,
        color_theme: ColorTheme::default(),
        cursor: CursorConfig::default(),
        blink: BlinkConfig::default(),
        framebuffer: false,
    }
}

fn cell(symbol: &str, fg: Color, bg: Color, modifier: u16) -> Cell {
    Cell { symbol: symbol.to_string(), fg, bg, underline_color: Color::Reset, modifier }
}

const WHITE: Rgb = Rgb { r: 255, g: 255, b: 255 };
const BLACK: Rgb = Rgb { r: 0, g: 0, b: 0 };
const RED: Rgb = Rgb { r: 255, g: 0, b: 0 };
const BLUE: Rgb = Rgb { r: 0, g: 0, b: 255 };

#[test]
fn size_discards_leftover_pixels() {
    let s = BackendState::<Rgb>::new(100, 50, config(6, 10));
    assert_eq!(s.size(), Size { width: 16, height: 5 });
    assert_eq!(
        s.window_size(),
        WindowSize { columns_rows: Size { width: 16, height: 5 }, pixels: Size { width: 100, height: 50 } }
    );
    let t = BackendState::<Rgb>::new(99, 49, config(10, 10));
    assert_eq!(t.size(), Size { width: 9, height: 4 });
    let u = BackendState::<Rgb>::new(3, 3, config(4, 6));
    assert_eq!(u.size(), Size { width: 0, height: 0 });
}

#[test]
fn largest_surface_and_cell_positions_fit() {
    let mut c = config(0x7fff, 7);
    c.horizontal_alignment = TerminalAlignment::End;
    let s = BackendState::<Rgb>::new(u16::MAX, u16::MAX, c);
    assert_eq!(s.size(), Size { width: 2, height: 9362 });
    // 65535 % 32767 = 1 pixel left over, all of it before the grid.
    let g = s.draw_cell(u16::MAX, u16::MAX, &cell("z", Color::Reset, Color::Reset, 0));
    assert_eq!(g.position, Point::new(65535 * 32767 + 1, 65535 * 7 + 0));
}

#[test]
fn alignment_places_the_grid() {
    let mut c = config(6, 10);
    c.horizontal_alignment = TerminalAlignment::Center;
    c.vertical_alignment = TerminalAlignment::End;
    let mut s = BackendState::<Rgb>::new(101, 57, c);
    // 101 % 6 = 5 -> centre offset 2; 57 % 10 = 7 -> end offset 7.
    let g = s.draw(vec![(1, 2, cell("x", Color::Reset, Color::Reset, 0))]);
    assert_eq!(g[0].position, Point::new(6 + 2, 20 + 7));
}

#[test]
fn clear_region_rejects_partial_kinds() {
    let kinds = [
        (ClearType::AfterCursor, "AfterCursor"),
        (ClearType::BeforeCursor, "BeforeCursor"),
        (ClearType::CurrentLine, "CurrentLine"),
        (ClearType::UntilNewLine, "UntilNewLine"),
    ];
    let mut s = BackendState::<Rgb>::new(40, 40, config(4, 6));
    for (kind, name) in kinds {
        match s.clear_region(kind) {
            Err(Error::ClearTypeUnsupported(n)) => {
                assert!(n.contains(name));
                assert_eq!(kind.name(), name);
            }
            other => panic!("unexpected {:?}", other.is_ok()),
        }
    }
}

#[test]
fn clear_region_all_is_clear() {
    let mut s = BackendState::<Rgb>::new(40, 40, config(4, 6));
    assert_eq!(s.clear(), Some(BLACK));
    assert_eq!(s.clear_region(ClearType::All).ok(), Some(Some(BLACK)));

    let mut c = config(4, 6);
    c.framebuffer = true;
    c.color_theme = ColorTheme::tokyo_night();
    let mut f = BackendState::<Rgb>::new(8, 6, c);
    f.set_buffer_pixel(1, 1, RED);
    assert_eq!(f.framebuffer().unwrap().get_pixel(1, 1), RED);
    assert_eq!(f.clear_region(ClearType::All).ok(), Some(None));
    let bg = Rgb::new(0x1a, 0x1b, 0x26);
    assert!(f.framebuffer().unwrap().pixels().iter().all(|p| *p == bg));
    f.set_buffer_pixel(1, 1, RED);
    assert_eq!(f.clear(), None);
    assert_eq!(f.framebuffer().unwrap().get_pixel(1, 1), bg);
}

#[test]
fn draw_cell_resolves_colors_and_position() {
    let mut c = config(4, 6);
    c.has_bold_font = true;
    let s = BackendState::<Rgb>::new(64, 64, c);
    let g = s.draw_cell(3, 2, &cell("A", Color::Red, Color::Blue, BOLD | UNDERLINED | CROSSED_OUT));
    assert_eq!(g.symbol, "A");
    assert_eq!(g.position, Point::new(12, 12));
    assert_eq!((g.fg, g.bg), (RED, BLUE));
    assert_eq!(g.font, FontChoice::Bold);
    assert!(g.underline && g.strikethrough);
    assert_eq!(g.underline_color, None);
    // No italic font configured: stays regular.
    let i = s.draw_cell(0, 0, &cell("A", Color::Red, Color::Blue, ITALIC));
    assert_eq!(i.font, FontChoice::Regular);
}

#[test]
fn modifiers_apply_in_fixed_order() {
    let s = BackendState::<Rgb>::new(64, 64, config(4, 6));
    let draw = |m: u16| {
        let g = s.draw_cell(0, 0, &cell("A", Color::Red, Color::Blue, m));
        (g.fg, g.bg)
    };
    assert_eq!(draw(DIM), (Rgb::new(127, 0, 0), BLUE));
    assert_eq!(draw(REVERSED), (BLUE, RED));
    assert_eq!(draw(HIDDEN), (BLUE, BLUE));
    // Reverse first, then hidden: both become the old foreground.
    assert_eq!(draw(REVERSED | HIDDEN), (RED, RED));
    // Dim, then reverse: the dimmed foreground becomes the background.
    assert_eq!(draw(DIM | REVERSED), (BLUE, Rgb::new(127, 0, 0)));
    // Blinking cells are visible at the start.
    assert_eq!(draw(SLOW_BLINK | RAPID_BLINK), (RED, BLUE));
}

#[test]
fn underline_color_is_resolved_when_set() {
    let s = BackendState::<Rgb>::new(64, 64, config(4, 6));
    let mut c = cell("A", Color::Reset, Color::Reset, UNDERLINED);
    c.underline_color = Color::Green;
    let g = s.draw_cell(0, 0, &c);
    assert_eq!(g.underline_color, Some(Rgb::new(0, 255, 0)));
    assert_eq!((g.fg, g.bg), (WHITE, BLACK));
}

#[test]
fn monochrome_cells_use_role_fallbacks() {
    let s = BackendState::<BinaryColor>::new(64, 64, config(4, 6));
    let g = s.draw_cell(0, 0, &cell("A", Color::Red, Color::Blue, 0));
    assert_eq!((g.fg, g.bg), (BinaryColor::On, BinaryColor::Off));
    let d = s.draw_cell(0, 0, &cell("A", Color::Reset, Color::Reset, DIM));
    assert_eq!((d.fg, d.bg), (BinaryColor::Off, BinaryColor::Off));
}

#[test]
fn blinking_cells_are_redrawn_when_visibility_changes() {
    let mut s = BackendState::<Rgb>::new(64, 64, config(4, 6));
    let first = s.draw(vec![
        (0, 0, cell("a", Color::Red, Color::Blue, RAPID_BLINK)),
        (1, 0, cell("b", Color::Red, Color::Blue, 0)),
        (2, 0, cell("c", Color::Red, Color::Blue, SLOW_BLINK)),
    ]);
    assert_eq!(first.len(), 3);
    // Position 2 stops blinking.
    let second = s.draw(vec![(2, 0, cell("d", Color::Red, Color::Blue, 0))]);
    assert_eq!(second.len(), 1);
    // Frames 3 and 4 change nothing; frame 5 hides rapid blinking text.
    assert_eq!(s.draw(vec![]).len(), 0);
    assert_eq!(s.draw(vec![]).len(), 0);
    let redraw = s.draw(vec![]);
    assert_eq!(redraw.len(), 1);
    assert_eq!(redraw[0].symbol, "a");
    assert_eq!(redraw[0].position, Point::new(0, 0));
    assert_eq!((redraw[0].fg, redraw[0].bg), (BLUE, BLUE));
}

#[test]
fn blinking_cells_are_redrawn_in_grid_order() {
    let mut s = BackendState::<Rgb>::new(64, 64, config(4, 6));
    s.draw(vec![
        (1, 0, cell("b", Color::Red, Color::Blue, RAPID_BLINK)),
        (0, 3, cell("c", Color::Red, Color::Blue, RAPID_BLINK)),
        (0, 0, cell("a", Color::Red, Color::Blue, RAPID_BLINK)),
    ]);
    for _ in 0..3 {
        assert!(s.advance_frame().is_empty());
    }
    // Frame 5 hides rapid blinking text.
    let redraw = s.advance_frame();
    let symbols: Vec<&str> = redraw.iter().map(|g| g.symbol.as_str()).collect();
    assert_eq!(symbols, vec!["a", "c", "b"]);
    // A cell replaced in place keeps its place in the order.
    let g = s.draw_content_cell(0, 3, &cell("d", Color::Red, Color::Blue, SLOW_BLINK));
    assert_eq!(g.symbol, "d");
    for _ in 0..4 {
        assert!(s.advance_frame().is_empty());
    }
    let again = s.advance_frame();
    let symbols: Vec<&str> = again.iter().map(|g| g.symbol.as_str()).collect();
    assert_eq!(symbols, vec!["a", "d", "b"]);
}

#[test]
fn flush_draws_the_visible_cursor() {
    let mut c = config(4, 6);
    c.cursor = CursorConfig { style: CursorStyle::Underline, blink: false, color: RED };
    let mut s = BackendState::<Rgb>::new(64, 64, c);
    assert!(s.flush().is_empty());
    s.show_cursor();
    s.set_cursor_position(Position::new(2, 1));
    assert_eq!(s.get_cursor_position(), Position::new(2, 1));
    let fills = s.flush();
    assert_eq!(fills.len(), 1);
    match &fills[0] {
        CursorFill::Solid(r, col) => {
            assert_eq!(r.top_left, Point::new(8, 11));
            assert_eq!((r.width, r.height), (4, 1));
            assert_eq!(*col, RED);
        }
        CursorFill::Pixels(..) => panic!("expected a solid fill"),
    }
    s.hide_cursor();
    assert!(s.flush().is_empty());
    assert!(!s.cursor().visible);
}

#[test]
fn blinking_cursor_hides_in_the_slow_phase() {
    let mut c = config(4, 6);
    c.cursor = CursorConfig { style: CursorStyle::Outline, blink: true, color: RED };
    let mut s = BackendState::<Rgb>::new(64, 64, c);
    s.show_cursor();
    for frame in 1..=30u16 {
        s.draw(vec![]);
        let hidden = (25..30).contains(&frame);
        assert_eq!(s.flush().is_empty(), hidden, "frame {frame}");
    }
}
