//! The backend's state: grid geometry, theme, cursor, blink tracking and the
//! optional framebuffer, and the decisions of each render-surface operation.
//! The display itself and the glyph rasterizer are driven by the caller
//! with the values these operations return.

use crate::blink::{BlinkConfig, hidden_at};
use crate::colors::{Color, ColorTheme, FromThemedColor, TermColor, TermColorType, dim_color, dim_spec};
use crate::cursor::{
    Cursor, CursorConfig, CursorFill, CursorStyle, buffer_value, cell_fits, covered,
    draws_cursor, lemma_outline_is_border, style_rects,
};
use crate::error::{ClearType, Error, clear_type_name};
use crate::framebuffer::Framebuffer;
use crate::geometry::{Point, Position, Size};
use vstd::prelude::*;

verus! {

/// Terminal alignment
#[derive(Clone, Copy, PartialEq, Eq, Structural, Debug)]
pub enum TerminalAlignment {
    /// Alignment with the start of the terminal: left or top.
    Start,
    /// Best effort alignment with the center of the terminal.
    Center,
    /// Alignment with the end of the terminal: right or bottom.
    End,
}

/// Offset of the grid on one axis, given the pixels left over there.
pub open spec fn alignment_offset(alignment: TerminalAlignment, extra: int) -> int {
    match alignment {
        TerminalAlignment::Start => 0,
        TerminalAlignment::Center => extra / 2,
        TerminalAlignment::End => extra,
    }
}

pub const BOLD: u16 = 0x0001;
pub const DIM: u16 = 0x0002;
pub const ITALIC: u16 = 0x0004;
pub const UNDERLINED: u16 = 0x0008;
pub const SLOW_BLINK: u16 = 0x0010;
pub const RAPID_BLINK: u16 = 0x0020;
pub const REVERSED: u16 = 0x0040;
pub const HIDDEN: u16 = 0x0080;
pub const CROSSED_OUT: u16 = 0x0100;

pub open spec fn has_flag(modifier: u16, flag: u16) -> bool {
    modifier & flag != 0
}

/// One cell of the grid, as the user interface hands it over.
#[derive(Clone, Debug)]
pub struct Cell {
    /// The glyph: one or more code points filling one cell.
    pub symbol: String,
    pub fg: Color,
    pub bg: Color,
    pub underline_color: Color,
    /// Style modifiers, as a set of the flags above.
    pub modifier: u16,
}

impl Cell {
    /// A copy of the cell.
    pub fn duplicate(&self) -> (c: Cell)
        ensures
            c == *self,
    {
        Cell {
            symbol: self.symbol.clone(),
            fg: self.fg,
            bg: self.bg,
            underline_color: self.underline_color,
            modifier: self.modifier,
        }
    }

    /// Whether the cell blinks, slowly or rapidly.
    pub fn is_blinking(&self) -> (b: bool)
        ensures
            b == is_blinking(*self),
    {
        self.modifier & SLOW_BLINK != 0 || self.modifier & RAPID_BLINK != 0
    }
}

pub open spec fn is_blinking(cell: Cell) -> bool {
    has_flag(cell.modifier, SLOW_BLINK) || has_flag(cell.modifier, RAPID_BLINK)
}

/// Which font a glyph is drawn with.
#[derive(Clone, Copy, PartialEq, Eq, Structural, Debug)]
pub enum FontChoice {
    Regular,
    Bold,
    Italic,
}

/// Everything needed to draw one cell's glyph.
pub struct GlyphDraw<C> {
    pub symbol: String,
    /// Top-left pixel of the glyph.
    pub position: Point,
    pub font: FontChoice,
    pub fg: C,
    pub bg: C,
    pub underline: bool,
    pub strikethrough: bool,
    /// The underline's own color, when the cell sets one; such a color
    /// underlines the glyph even without the underline modifier.
    pub underline_color: Option<C>,
}

/// A cell remembered because it blinks, with its grid position.
pub struct BlinkCell {
    pub x: u16,
    pub y: u16,
    pub cell: Cell,
}

/// Grid order of a position: by column, then by row.
pub open spec fn cell_key(x: u16, y: u16) -> int {
    x as int * 0x10000 + y as int
}

pub open spec fn entry_key(bc: BlinkCell) -> int {
    cell_key(bc.x, bc.y)
}

/// Entries strictly ascending in grid order, hence at most one per position.
pub open spec fn keys_sorted(cells: Seq<BlinkCell>) -> bool {
    forall|i: int, j: int|
        0 <= i < j < cells.len() ==> entry_key(cells[i]) < entry_key(cells[j])
}

/// `i` is where the entry for `(x, y)` stands or would stand: exactly the
/// entries before `i` come earlier in grid order.
pub open spec fn is_slot(cells: Seq<BlinkCell>, x: u16, y: u16, i: int) -> bool {
    &&& 0 <= i <= cells.len()
    &&& forall|j: int|
        0 <= j < cells.len() ==> (j < i <==> #[trigger] entry_key(cells[j]) < cell_key(x, y))
}

/// The slot of `(x, y)` in `cells`.
pub open spec fn slot_of(cells: Seq<BlinkCell>, x: u16, y: u16) -> int {
    choose|i: int| is_slot(cells, x, y, i)
}

/// Whether the entry at index `i` is the one for `(x, y)`.
pub open spec fn holds_at(cells: Seq<BlinkCell>, x: u16, y: u16, i: int) -> bool {
    0 <= i < cells.len() && cells[i].x == x && cells[i].y == y
}

/// The tracked cells after a cell is drawn at `(x, y)`: a blinking cell is
/// remembered in place of any earlier one there, or inserted in grid order;
/// any other cell forgets the position.
pub open spec fn track_spec(cells: Seq<BlinkCell>, x: u16, y: u16, cell: Cell) -> Seq<BlinkCell> {
    let i = slot_of(cells, x, y);
    let entry = BlinkCell { x, y, cell };
    if is_blinking(cell) {
        if holds_at(cells, x, y, i) {
            cells.update(i, entry)
        } else {
            cells.insert(i, entry)
        }
    } else if holds_at(cells, x, y, i) {
        cells.remove(i)
    } else {
        cells
    }
}

proof fn lemma_slot_unique(cells: Seq<BlinkCell>, x: u16, y: u16, a: int, b: int)
    requires
        is_slot(cells, x, y, a),
        is_slot(cells, x, y, b),
    ensures
        a == b,
{
    if a < b {
        assert(entry_key(cells[a]) < cell_key(x, y));
    } else if b < a {
        assert(entry_key(cells[b]) < cell_key(x, y));
    }
}

/// The tracked cells after drawing `content` in order.
pub open spec fn track_all(cells: Seq<BlinkCell>, content: Seq<(u16, u16, Cell)>) -> Seq<BlinkCell>
    decreases content.len(),
{
    if content.len() == 0 {
        cells
    } else {
        let last = content.last();
        track_spec(track_all(cells, content.drop_last()), last.0, last.1, last.2)
    }
}

/// Plain settings of a backend. The fonts themselves stay with the caller,
/// who reports the regular font's cell size and which variants exist.
#[derive(Clone, Copy, PartialEq, Eq, Structural, Debug)]
pub struct BackendConfig {
    /// Pixel width of one glyph cell of the regular font.
    pub char_width: u16,
    /// Pixel height of one glyph cell of the regular font.
    pub char_height: u16,
    pub has_bold_font: bool,
    pub has_italic_font: bool,
    pub vertical_alignment: TerminalAlignment,
    pub horizontal_alignment: TerminalAlignment,
    pub color_theme: ColorTheme,
    pub cursor: CursorConfig,
    pub blink: BlinkConfig,
    /// Whether cells are drawn into an in-memory framebuffer.
    pub framebuffer: bool,
}

/// Grid size and pixel size of the surface.
#[derive(Clone, Copy, PartialEq, Eq, Structural, Debug)]
pub struct WindowSize {
    pub columns_rows: Size,
    pub pixels: Size,
}

/// The state of a backend, apart from its display and fonts.
pub struct BackendState<C> {
    pixels: Size,
    columns_rows: Size,
    char_width: u16,
    char_height: u16,
    char_offset: Point,
    has_bold_font: bool,
    has_italic_font: bool,
    color_theme: ColorTheme,
    cursor: Cursor,
    frame_count: u16,
    blink_config: BlinkConfig,
    blink_cells: Vec<BlinkCell>,
    buffer: Option<Framebuffer<C>>,
}

impl<C: FromThemedColor> BackendState<C> {
    pub closed spec fn pixels_spec(&self) -> Size {
        self.pixels
    }

    pub closed spec fn columns_rows_spec(&self) -> Size {
        self.columns_rows
    }

    pub closed spec fn char_width_spec(&self) -> int {
        self.char_width as int
    }

    pub closed spec fn char_height_spec(&self) -> int {
        self.char_height as int
    }

    /// Pixel offset of the grid on the surface.
    pub closed spec fn char_offset_spec(&self) -> Point {
        self.char_offset
    }

    pub closed spec fn has_bold_spec(&self) -> bool {
        self.has_bold_font
    }

    pub closed spec fn has_italic_spec(&self) -> bool {
        self.has_italic_font
    }

    pub closed spec fn theme_spec(&self) -> ColorTheme {
        self.color_theme
    }

    pub closed spec fn cursor_spec(&self) -> Cursor {
        self.cursor
    }

    pub closed spec fn frame_count_spec(&self) -> u16 {
        self.frame_count
    }

    pub closed spec fn blink_spec(&self) -> BlinkConfig {
        self.blink_config
    }

    /// The cells that blink, as they were last drawn.
    pub closed spec fn blink_cells_spec(&self) -> Seq<BlinkCell> {
        self.blink_cells@
    }

    pub closed spec fn buffer_spec(&self) -> Option<Framebuffer<C>> {
        self.buffer
    }

    pub closed spec fn wf(&self) -> bool {
        &&& 1 <= self.char_width <= 0x7fff
        &&& 1 <= self.char_height <= 0x7fff
        &&& 0 <= self.char_offset.x < self.char_width
        &&& 0 <= self.char_offset.y < self.char_height
        &&& self.columns_rows.width == self.pixels.width / self.char_width
        &&& self.columns_rows.height == self.pixels.height / self.char_height
        &&& keys_sorted(self.blink_cells@)
        &&& forall|i: int|
            0 <= i < self.blink_cells@.len() ==> is_blinking(#[trigger] self.blink_cells@[i].cell)
        &&& self.buffer matches Some(fb) ==> {
            &&& fb.wf()
            &&& fb.width_spec() == self.pixels.width
            &&& fb.height_spec() == self.pixels.height
        }
    }

    /// The theme's background, as a pixel.
    pub open spec fn background(&self) -> C {
        C::themed(Color::Reset, TermColorType::Background, self.theme_spec())
    }

    /// The glyph draw for `cell` at column `x`, row `y`, given whether slow
    /// and rapid blinking text is hidden now. Modifiers apply in a fixed
    /// order: the font (italic over bold, where that font exists), then
    /// dim, slow blink, rapid blink, reverse and hidden.
    pub open spec fn glyph_spec(
        &self,
        x: u16,
        y: u16,
        cell: Cell,
        slow_hidden: bool,
        fast_hidden: bool,
    ) -> GlyphDraw<C> {
        let theme = self.theme_spec();
        let m = cell.modifier;
        let fg0 = C::themed(cell.fg, TermColorType::Foreground, theme);
        let bg = C::themed(cell.bg, TermColorType::Background, theme);
        let fg1 = if has_flag(m, DIM) {
            dim_spec(fg0)
        } else {
            fg0
        };
        let fg2 = if has_flag(m, SLOW_BLINK) && slow_hidden {
            bg
        } else {
            fg1
        };
        let fg3 = if has_flag(m, RAPID_BLINK) && fast_hidden {
            bg
        } else {
            fg2
        };
        let fg4 = if has_flag(m, REVERSED) {
            bg
        } else {
            fg3
        };
        let bg4 = if has_flag(m, REVERSED) {
            fg3
        } else {
            bg
        };
        let fg5 = if has_flag(m, HIDDEN) {
            bg4
        } else {
            fg4
        };
        GlyphDraw {
            symbol: cell.symbol,
            position: Point {
                x: (x * self.char_width_spec() + self.char_offset_spec().x) as i32,
                y: (y * self.char_height_spec() + self.char_offset_spec().y) as i32,
            },
            font: if has_flag(m, ITALIC) && self.has_italic_spec() {
                FontChoice::Italic
            } else if has_flag(m, BOLD) && self.has_bold_spec() {
                FontChoice::Bold
            } else {
                FontChoice::Regular
            },
            fg: fg5,
            bg: bg4,
            underline: has_flag(m, UNDERLINED),
            strikethrough: has_flag(m, CROSSED_OUT),
            underline_color: if cell.underline_color == Color::Reset {
                None
            } else {
                Some(C::themed(cell.underline_color, TermColorType::Foreground, theme))
            },
        }
    }

    /// A backend for a surface of `pixel_width` × `pixel_height` pixels. The
    /// grid holds as many whole cells as fit; the pixels left over on each
    /// axis place the grid by the alignment.
    pub fn new(pixel_width: u16, pixel_height: u16, config: BackendConfig) -> (s: Self)
        requires
            1 <= config.char_width <= 0x7fff,
            1 <= config.char_height <= 0x7fff,
        ensures
            s.wf(),
            s.pixels_spec() == (Size { width: pixel_width, height: pixel_height }),
            s.columns_rows_spec() == (Size {
                width: (pixel_width / config.char_width) as u16,
                height: (pixel_height / config.char_height) as u16,
            }),
            s.char_width_spec() == config.char_width,
            s.char_height_spec() == config.char_height,
            s.char_offset_spec().x == alignment_offset(
                config.horizontal_alignment,
                pixel_width as int % config.char_width as int,
            ),
            s.char_offset_spec().y == alignment_offset(
                config.vertical_alignment,
                pixel_height as int % config.char_height as int,
            ),
            s.has_bold_spec() == config.has_bold_font,
            s.has_italic_spec() == config.has_italic_font,
            s.theme_spec() == config.color_theme,
            s.cursor_spec() == (Cursor {
                visible: false,
                position: Position { x: 0, y: 0 },
                config: config.cursor,
            }),
            s.frame_count_spec() == 0,
            s.blink_spec() == config.blink,
            s.blink_cells_spec().len() == 0,
            config.framebuffer <==> s.buffer_spec() is Some,
            s.buffer_spec() matches Some(fb) ==> fb.fill_spec() == s.background() && forall|
                x: int,
                y: int,
            | #[trigger] fb.pixel_at(x, y) == s.background(),
    {
        let extra_x: u16 = pixel_width % config.char_width;
        let extra_y: u16 = pixel_height % config.char_height;
        let off_x: u16 = match config.horizontal_alignment {
            TerminalAlignment::Start => 0,
            TerminalAlignment::Center => extra_x / 2,
            TerminalAlignment::End => extra_x,
        };
        let off_y: u16 = match config.vertical_alignment {
            TerminalAlignment::Start => 0,
            TerminalAlignment::Center => extra_y / 2,
            TerminalAlignment::End => extra_y,
        };
        let theme = config.color_theme;
        let buffer = if config.framebuffer {
            let bg = C::from_term_color(
                &TermColor::new(Color::Reset, TermColorType::Background, &theme),
            );
            Some(Framebuffer::new(pixel_width, pixel_height, bg))
        } else {
            None
        };
        BackendState {
            pixels: Size { width: pixel_width, height: pixel_height },
            columns_rows: Size {
                width: pixel_width / config.char_width,
                height: pixel_height / config.char_height,
            },
            char_width: config.char_width,
            char_height: config.char_height,
            char_offset: Point::new(off_x as i32, off_y as i32),
            has_bold_font: config.has_bold_font,
            has_italic_font: config.has_italic_font,
            color_theme: theme,
            cursor: Cursor::new(config.cursor),
            frame_count: 0,
            blink_config: config.blink,
            blink_cells: Vec::new(),
            buffer,
        }
    }

    /// Whether `o` has the same geometry, fonts and theme as `self`.
    pub open spec fn same_layout(&self, o: &Self) -> bool {
        &&& o.pixels_spec() == self.pixels_spec()
        &&& o.columns_rows_spec() == self.columns_rows_spec()
        &&& o.char_width_spec() == self.char_width_spec()
        &&& o.char_height_spec() == self.char_height_spec()
        &&& o.char_offset_spec() == self.char_offset_spec()
        &&& o.has_bold_spec() == self.has_bold_spec()
        &&& o.has_italic_spec() == self.has_italic_spec()
        &&& o.theme_spec() == self.theme_spec()
    }

    /// Whether `o` differs from `self` at most in the framebuffer's pixels.
    pub open spec fn same_but_pixels(&self, o: &Self) -> bool {
        &&& self.same_layout(o)
        &&& o.cursor_spec() == self.cursor_spec()
        &&& o.frame_count_spec() == self.frame_count_spec()
        &&& o.blink_spec() == self.blink_spec()
        &&& o.blink_cells_spec() == self.blink_cells_spec()
        &&& (o.buffer_spec() is Some <==> self.buffer_spec() is Some)
        &&& o.buffer_spec() matches Some(nfb) ==> {
            let fb = self.buffer_spec().unwrap();
            &&& nfb.width_spec() == fb.width_spec()
            &&& nfb.height_spec() == fb.height_spec()
            &&& nfb.fill_spec() == fb.fill_spec()
        }
    }

    /// What clearing does: the framebuffer, if there is one, turns to the
    /// theme's background and nothing is left for the display; without one
    /// the display is to be filled with the background.
    pub open spec fn clears(&self, new: &Self, r: Option<C>) -> bool {
        &&& new.wf()
        &&& self.same_but_pixels(new)
        &&& match new.buffer_spec() {
            Some(nfb) => {
                &&& r is None
                &&& forall|x: int, y: int|
                    #[trigger] nfb.pixel_at(x, y) == if nfb.in_bounds(x, y) {
                        self.background()
                    } else {
                        nfb.fill_spec()
                    }
            },
            None => r == Some(self.background()),
        }
    }

    /// The cell grid size: whole cells only.
    pub fn size(&self) -> (r: Size)
        ensures
            r == self.columns_rows_spec(),
    {
        self.columns_rows
    }

    /// The cell grid size together with the pixel size.
    pub fn window_size(&self) -> (r: WindowSize)
        ensures
            r == (WindowSize { columns_rows: self.columns_rows_spec(), pixels: self.pixels_spec() }),
    {
        WindowSize { columns_rows: self.columns_rows, pixels: self.pixels }
    }

    /// The framebuffer, for a bulk transfer to the display.
    pub fn framebuffer(&self) -> (b: Option<&Framebuffer<C>>)
        ensures
            buffer_value(b) == self.buffer_spec(),
    {
        match &self.buffer {
            Some(fb) => Some(fb),
            None => None,
        }
    }

    pub fn cursor(&self) -> (c: Cursor)
        ensures
            c == self.cursor_spec(),
    {
        self.cursor
    }

    pub fn hide_cursor(&mut self)
        requires
            old(self).wf(),
        ensures
            final(self).wf(),
            final(self).cursor_spec() == (Cursor { visible: false, ..old(self).cursor_spec() }),
            old(self).same_layout(&*final(self)),
            final(self).frame_count_spec() == old(self).frame_count_spec(),
            final(self).blink_spec() == old(self).blink_spec(),
            final(self).blink_cells_spec() == old(self).blink_cells_spec(),
            final(self).buffer_spec() == old(self).buffer_spec(),
    {
        self.cursor.visible = false;
    }

    pub fn show_cursor(&mut self)
        requires
            old(self).wf(),
        ensures
            final(self).wf(),
            final(self).cursor_spec() == (Cursor { visible: true, ..old(self).cursor_spec() }),
            old(self).same_layout(&*final(self)),
            final(self).frame_count_spec() == old(self).frame_count_spec(),
            final(self).blink_spec() == old(self).blink_spec(),
            final(self).blink_cells_spec() == old(self).blink_cells_spec(),
            final(self).buffer_spec() == old(self).buffer_spec(),
    {
        self.cursor.visible = true;
    }

    pub fn get_cursor_position(&self) -> (p: Position)
        ensures
            p == self.cursor_spec().position,
    {
        self.cursor.position
    }

    pub fn set_cursor_position(&mut self, position: Position)
        requires
            old(self).wf(),
        ensures
            final(self).wf(),
            final(self).cursor_spec() == (Cursor { position, ..old(self).cursor_spec() }),
            old(self).same_layout(&*final(self)),
            final(self).frame_count_spec() == old(self).frame_count_spec(),
            final(self).blink_spec() == old(self).blink_spec(),
            final(self).blink_cells_spec() == old(self).blink_cells_spec(),
            final(self).buffer_spec() == old(self).buffer_spec(),
    {
        self.cursor.position = position;
    }

    /// Writes one pixel of a glyph into the framebuffer; without one, or
    /// outside it, nothing changes.
    pub fn set_buffer_pixel(&mut self, x: i32, y: i32, c: C)
        requires
            old(self).wf(),
        ensures
            final(self).wf(),
            old(self).same_but_pixels(&*final(self)),
            old(self).buffer_spec() is None ==> final(self).buffer_spec() is None,
            final(self).buffer_spec() matches Some(nfb) ==> {
                let fb = old(self).buffer_spec().unwrap();
                forall|px: int, py: int|
                    #[trigger] nfb.pixel_at(px, py) == if px == x && py == y && fb.in_bounds(
                        px,
                        py,
                    ) {
                        c
                    } else {
                        fb.pixel_at(px, py)
                    }
            },
    {
        match &mut self.buffer {
            Some(fb) => fb.set_pixel(x, y, c),
            None => {},
        }
    }

    /// Clears the surface with the theme's background. Returns the color the
    /// display itself is to be cleared with, or `None` when the framebuffer
    /// took the clear.
    pub fn clear(&mut self) -> (r: Option<C>)
        requires
            old(self).wf(),
        ensures
            old(self).clears(&*final(self), r),
    {
        let bg = C::from_term_color(
            &TermColor::new(Color::Reset, TermColorType::Background, &self.color_theme),
        );
        match &mut self.buffer {
            Some(fb) => {
                fb.clear(bg);
                None
            },
            None => Some(bg),
        }
    }

    /// Clears a region. Only `All` is supported, and does what `clear`
    /// does; any other kind fails, naming the kind, and changes nothing.
    pub fn clear_region(&mut self, clear_type: ClearType) -> (r: Result<Option<C>, Error>)
        requires
            old(self).wf(),
        ensures
            clear_type == ClearType::All ==> (r matches Ok(c) && old(self).clears(&*final(self), c)),
            clear_type != ClearType::All ==> {
                &&& r matches Err(Error::ClearTypeUnsupported(name))
                &&& name@ == clear_type_name(clear_type)
                &&& *final(self) == *old(self)
            },
    {
        match clear_type {
            ClearType::All => Ok(self.clear()),
            _ => Err(Error::ClearTypeUnsupported(clear_type.name())),
        }
    }

    /// The glyph draw for `cell` at column `x`, row `y`, with the current
    /// blink visibility.
    pub fn draw_cell(&self, x: u16, y: u16, cell: &Cell) -> (g: GlyphDraw<C>)
        requires
            self.wf(),
        ensures
            g == self.glyph_spec(
                x,
                y,
                *cell,
                self.blink_spec().slow.hidden,
                self.blink_spec().fast.hidden,
            ),
    {
        let theme = &self.color_theme;
        let m = cell.modifier;
        let fg0: C = C::from_term_color(&TermColor::new(cell.fg, TermColorType::Foreground, theme));
        let bg: C = C::from_term_color(&TermColor::new(cell.bg, TermColorType::Background, theme));
        let fg1 = if m & DIM != 0 {
            dim_color(fg0)
        } else {
            fg0
        };
        let fg2 = if m & SLOW_BLINK != 0 && self.blink_config.slow.is_hidden() {
            bg
        } else {
            fg1
        };
        let fg3 = if m & RAPID_BLINK != 0 && self.blink_config.fast.is_hidden() {
            bg
        } else {
            fg2
        };
        let reversed = m & REVERSED != 0;
        let fg4 = if reversed {
            bg
        } else {
            fg3
        };
        let bg4 = if reversed {
            fg3
        } else {
            bg
        };
        let fg5 = if m & HIDDEN != 0 {
            bg4
        } else {
            fg4
        };
        let font = if m & ITALIC != 0 && self.has_italic_font {
            FontChoice::Italic
        } else if m & BOLD != 0 && self.has_bold_font {
            FontChoice::Bold
        } else {
            FontChoice::Regular
        };
        let underline_color = if cell.underline_color == Color::Reset {
            None
        } else {
            Some(
                C::from_term_color(
                    &TermColor::new(cell.underline_color, TermColorType::Foreground, theme),
                ),
            )
        };
        proof {
            assert(0 <= x * self.char_width <= 65535 * 0x7fff) by (nonlinear_arith)
                requires
                    0 <= x <= 65535,
                    1 <= self.char_width <= 0x7fff,
            ;
            assert(0 <= y * self.char_height <= 65535 * 0x7fff) by (nonlinear_arith)
                requires
                    0 <= y <= 65535,
                    1 <= self.char_height <= 0x7fff,
            ;
        }
        let position = Point::new(
            x as i32 * self.char_width as i32 + self.char_offset.x,
            y as i32 * self.char_height as i32 + self.char_offset.y,
        );
        GlyphDraw {
            symbol: cell.symbol.clone(),
            position,
            font,
            fg: fg5,
            bg: bg4,
            underline: m & UNDERLINED != 0,
            strikethrough: m & CROSSED_OUT != 0,
            underline_color,
        }
    }

    /// Finds the slot of `(x, y)` among the tracked cells.
    fn find_slot(&self, x: u16, y: u16) -> (i: usize)
        requires
            self.wf(),
        ensures
            is_slot(self.blink_cells@, x, y, i as int),
            i == slot_of(self.blink_cells@, x, y),
    {
        let n = self.blink_cells.len();
        let k: u32 = x as u32 * 0x10000 + y as u32;
        let mut i: usize = 0;
        while i < n && (self.blink_cells[i].x as u32 * 0x10000 + self.blink_cells[i].y as u32) < k
            invariant
                n == self.blink_cells@.len(),
                i <= n,
                k == cell_key(x, y),
                keys_sorted(self.blink_cells@),
                forall|j: int| 0 <= j < i ==> #[trigger] entry_key(self.blink_cells@[j]) < cell_key(x, y),
            decreases n - i,
        {
            i = i + 1;
        }
        proof {
            let s = self.blink_cells@;
            assert forall|j: int| 0 <= j < s.len() implies (j < i <==> #[trigger] entry_key(s[j])
                < cell_key(x, y)) by {
                if j > i {
                    assert(entry_key(s[i as int]) < entry_key(s[j]));
                }
            }
            assert(is_slot(s, x, y, i as int));
            lemma_slot_unique(s, x, y, i as int, slot_of(s, x, y));
        }
        i
    }

    /// Remembers `cell` at `(x, y)` if it blinks, and forgets the position
    /// otherwise. The tracked cells stay in grid order.
    pub fn track_blink_cell(&mut self, x: u16, y: u16, cell: Cell)
        requires
            old(self).wf(),
        ensures
            final(self).wf(),
            final(self).blink_cells_spec() == track_spec(old(self).blink_cells_spec(), x, y, cell),
            old(self).same_layout(&*final(self)),
            final(self).cursor_spec() == old(self).cursor_spec(),
            final(self).frame_count_spec() == old(self).frame_count_spec(),
            final(self).blink_spec() == old(self).blink_spec(),
            final(self).buffer_spec() == old(self).buffer_spec(),
    {
        let ghost cells = self.blink_cells@;
        let blinking = cell.is_blinking();
        let i = self.find_slot(x, y);
        let here = i < self.blink_cells.len() && self.blink_cells[i].x == x
            && self.blink_cells[i].y == y;
        assert(here == holds_at(cells, x, y, i as int));
        if blinking {
            if here {
                self.blink_cells.set(i, BlinkCell { x, y, cell });
            } else {
                let ghost entry = BlinkCell { x, y, cell };
                self.blink_cells.insert(i, BlinkCell { x, y, cell });
                proof {
                    cells.insert_ensures(i as int, entry);
                    let s = self.blink_cells@;
                    let k = cell_key(x, y);
                    if i < cells.len() {
                        assert(entry_key(cells[i as int]) > k);
                    }
                    assert forall|a: int, b: int| 0 <= a < b < s.len() implies entry_key(s[a])
                        < entry_key(s[b]) by {
                        if a > i {
                            assert(s[a] == cells[a - 1]);
                        }
                        if b > i {
                            assert(s[b] == cells[b - 1]);
                            if b - 1 > i {
                                assert(entry_key(cells[i as int]) < entry_key(cells[b - 1]));
                            }
                        }
                    }
                    assert forall|a: int| 0 <= a < s.len() implies is_blinking(
                        #[trigger] s[a].cell,
                    ) by {
                        if a > i {
                            assert(s[a] == cells[a - 1]);
                        }
                    }
                }
            }
        } else if here {
            let _ = self.blink_cells.remove(i);
            proof {
                cells.remove_ensures(i as int);
                let s = self.blink_cells@;
                assert forall|a: int, b: int| 0 <= a < b < s.len() implies entry_key(s[a])
                    < entry_key(s[b]) by {
                    if a >= i {
                        assert(s[a] == cells[a + 1]);
                    }
                    if b >= i {
                        assert(s[b] == cells[b + 1]);
                    }
                }
                assert forall|a: int| 0 <= a < s.len() implies is_blinking(
                    #[trigger] s[a].cell,
                ) by {
                    if a >= i {
                        assert(s[a] == cells[a + 1]);
                    }
                }
            }
        }
    }

    /// `new` is `self` one frame on: the frame counter wrapped forward by
    /// one and the blink state ticked at the new frame.
    pub open spec fn advanced(&self, new: &Self) -> bool {
        let frame = new.frame_count_spec();
        let b0 = self.blink_spec();
        let b1 = new.blink_spec();
        &&& frame == ((self.frame_count_spec() + 1) % 65536) as u16
        &&& b1.fps == b0.fps
        &&& b1.slow.blinks_per_sec == b0.slow.blinks_per_sec
        &&& b1.slow.duty_percent == b0.slow.duty_percent
        &&& b1.fast.blinks_per_sec == b0.fast.blinks_per_sec
        &&& b1.fast.duty_percent == b0.fast.duty_percent
        &&& b1.slow.hidden == hidden_at(frame, b0.fps, b0.slow.blinks_per_sec, b0.slow.duty_percent)
        &&& b1.fast.hidden == hidden_at(frame, b0.fps, b0.fast.blinks_per_sec, b0.fast.duty_percent)
        &&& b1.prev_state_spec() == (b1.slow.hidden, b1.fast.hidden)
    }

    /// The glyph draw for `cell` at `(x, y)` with the current blink
    /// visibility.
    pub open spec fn glyph_now(&self, x: u16, y: u16, cell: Cell) -> GlyphDraw<C> {
        self.glyph_spec(x, y, cell, self.blink_spec().slow.hidden, self.blink_spec().fast.hidden)
    }

    /// What a frame step from `self` to `new` redraws: when the blink
    /// visibility changed, every tracked cell of `self` in their order (grid
    /// order), with the visibility of `new`; otherwise nothing.
    pub open spec fn redrawn(&self, new: &Self) -> Seq<GlyphDraw<C>> {
        if new.blink_spec().prev_state_spec() != self.blink_spec().prev_state_spec() {
            self.blink_cells_spec().map_values(
                |bc: BlinkCell| new.glyph_now(bc.x, bc.y, bc.cell),
            )
        } else {
            Seq::empty()
        }
    }

    /// Advances one frame. When the blink visibility changed at this frame,
    /// returns the glyph draws of every tracked blinking cell, in grid order.
    pub fn advance_frame(&mut self) -> (glyphs: Vec<GlyphDraw<C>>)
        requires
            old(self).wf(),
        ensures
            final(self).wf(),
            old(self).same_layout(&*final(self)),
            final(self).cursor_spec() == old(self).cursor_spec(),
            final(self).buffer_spec() == old(self).buffer_spec(),
            final(self).blink_cells_spec() == old(self).blink_cells_spec(),
            old(self).advanced(&*final(self)),
            keys_sorted(old(self).blink_cells_spec()),
            glyphs@ == old(self).redrawn(&*final(self)),
    {
        let ghost start = *self;
        self.frame_count = if self.frame_count == u16::MAX {
            0
        } else {
            self.frame_count + 1
        };
        let toggled = self.blink_config.tick(self.frame_count);
        let mut glyphs: Vec<GlyphDraw<C>> = Vec::new();
        let ghost redrawn = start.redrawn(&*self);
        if toggled {
            let n = self.blink_cells.len();
            let mut i: usize = 0;
            while i < n
                invariant
                    self.wf(),
                    n == self.blink_cells@.len(),
                    i <= n,
                    redrawn.len() == n,
                    forall|j: int|
                        0 <= j < n ==> #[trigger] redrawn[j] == self.glyph_now(
                            self.blink_cells@[j].x,
                            self.blink_cells@[j].y,
                            self.blink_cells@[j].cell,
                        ),
                    glyphs@ == redrawn.take(i as int),
                decreases n - i,
            {
                let bc = &self.blink_cells[i];
                let g = self.draw_cell(bc.x, bc.y, &bc.cell);
                glyphs.push(g);
                assert(glyphs@ =~= redrawn.take(i + 1));
                i = i + 1;
            }
            assert(redrawn.take(n as int) =~= redrawn);
        }
        glyphs
    }

    /// Draws one incoming cell: tracks it if it blinks, then returns its
    /// glyph draw.
    pub fn draw_content_cell(&mut self, x: u16, y: u16, cell: &Cell) -> (g: GlyphDraw<C>)
        requires
            old(self).wf(),
        ensures
            final(self).wf(),
            old(self).same_layout(&*final(self)),
            final(self).cursor_spec() == old(self).cursor_spec(),
            final(self).buffer_spec() == old(self).buffer_spec(),
            final(self).frame_count_spec() == old(self).frame_count_spec(),
            final(self).blink_spec() == old(self).blink_spec(),
            final(self).blink_cells_spec() == track_spec(old(self).blink_cells_spec(), x, y, *cell),
            g == old(self).glyph_now(x, y, *cell),
    {
        let c = cell.duplicate();
        self.track_blink_cell(x, y, c);
        self.draw_cell(x, y, cell)
    }

    /// Advances a frame and draws `content` in order: first, when the blink
    /// visibility changed, every tracked blinking cell in grid order, then
    /// each incoming cell, tracked as it goes. Returns the glyph draws, in
    /// drawing order.
    pub fn draw(&mut self, content: Vec<(u16, u16, Cell)>) -> (glyphs: Vec<GlyphDraw<C>>)
        requires
            old(self).wf(),
        ensures
            final(self).wf(),
            old(self).same_layout(&*final(self)),
            final(self).cursor_spec() == old(self).cursor_spec(),
            final(self).buffer_spec() == old(self).buffer_spec(),
            old(self).advanced(&*final(self)),
            keys_sorted(old(self).blink_cells_spec()),
            final(self).blink_cells_spec() == track_all(old(self).blink_cells_spec(), content@),
            glyphs@ == old(self).redrawn(&*final(self)) + content@.map_values(
                |c: (u16, u16, Cell)| final(self).glyph_now(c.0, c.1, c.2),
            ),
    {
        let ghost start = *self;
        let mut glyphs = self.advance_frame();
        let ghost mid = *self;
        let ghost redrawn = glyphs@;
        let ghost news: Seq<GlyphDraw<C>> = content@.map_values(
            |c: (u16, u16, Cell)| mid.glyph_now(c.0, c.1, c.2),
        );
        let m = content.len();
        let mut k: usize = 0;
        while k < m
            invariant
                self.wf(),
                m == content@.len(),
                k <= m,
                mid.same_layout(&*self),
                self.cursor == mid.cursor,
                self.buffer == mid.buffer,
                self.frame_count == mid.frame_count,
                self.blink_config == mid.blink_config,
                self.blink_cells@ == track_all(mid.blink_cells@, content@.take(k as int)),
                news.len() == m,
                forall|j: int|
                    0 <= j < m ==> #[trigger] news[j] == mid.glyph_now(
                        content@[j].0,
                        content@[j].1,
                        content@[j].2,
                    ),
                glyphs@ == redrawn + news.take(k as int),
            decreases m - k,
        {
            let x = content[k].0;
            let y = content[k].1;
            let g = self.draw_content_cell(x, y, &content[k].2);
            assert(g == news[k as int]);
            glyphs.push(g);
            proof {
                let t = content@.take(k + 1);
                assert(t.drop_last() =~= content@.take(k as int));
                assert(t.last() == content@[k as int]);
                assert(news.take(k + 1) =~= news.take(k as int).push(news[k as int]));
                assert(glyphs@ =~= redrawn + news.take(k + 1));
            }
            k = k + 1;
        }
        proof {
            assert(content@.take(m as int) =~= content@);
            assert(news.take(m as int) =~= news);
            assert(news =~= content@.map_values(
                |c: (u16, u16, Cell)| self.glyph_now(c.0, c.1, c.2),
            ));
            assert(start.redrawn(&mid) =~= start.redrawn(&*self));
        }
        glyphs
    }

    /// The fills that draw the cursor at flush time. There are none when
    /// the cursor is hidden, or when it blinks and slow blinking is in its
    /// hidden phase.
    pub fn flush(&self) -> (fills: Vec<CursorFill<C>>)
        requires
            self.wf(),
        ensures
            ({
                let c = self.cursor_spec();
                if !c.visible || (c.config.blink && self.blink_spec().slow.hidden) {
                    fills@.len() == 0
                } else {
                    draws_cursor(
                        c,
                        self.buffer_spec(),
                        self.char_offset_spec(),
                        self.char_width_spec(),
                        self.char_height_spec(),
                        fills@,
                    )
                }
            }),
    {
        let c = &self.cursor;
        if !c.visible || (c.config.blink && self.blink_config.slow.is_hidden()) {
            return Vec::new();
        }
        proof {
            lemma_cursor_cell_fits(self);
        }
        c.draw(self.framebuffer(), self.char_offset, self.char_width as i32, self.char_height as i32)
    }
}

/// Wherever the cursor stands, every pixel coordinate of its cell, and of
/// the fills that draw it, fits in an `i32`.
pub proof fn lemma_cursor_cell_fits<C: FromThemedColor>(s: &BackendState<C>)
    requires
        s.wf(),
    ensures
        ({
            let w = s.char_width_spec();
            let h = s.char_height_spec();
            let (x0, y0) = s.cursor_spec().origin(s.char_offset_spec(), w, h);
            cell_fits(x0, y0, w, h)
        }),
{
    let w = s.char_width_spec();
    let h = s.char_height_spec();
    let px = s.cursor_spec().position.x as int;
    let py = s.cursor_spec().position.y as int;
    assert(0 <= px * w <= 65535 * 0x7fff) by (nonlinear_arith)
        requires
            0 <= px <= 65535,
            1 <= w <= 0x7fff,
    ;
    assert(0 <= py * h <= 65535 * 0x7fff) by (nonlinear_arith)
        requires
            0 <= py <= 65535,
            1 <= h <= 0x7fff,
    ;
}

/// An outline cursor, as flush draws it, covers exactly the border of its
/// cell: the four edges, one pixel thick, and no pixel inside or outside.
pub proof fn lemma_outline_cursor_is_border<C: FromThemedColor>(
    s: &BackendState<C>,
    x: int,
    y: int,
)
    requires
        s.wf(),
        s.cursor_spec().config.style == CursorStyle::Outline,
    ensures
        ({
            let w = s.char_width_spec();
            let h = s.char_height_spec();
            let (x0, y0) = s.cursor_spec().origin(s.char_offset_spec(), w, h);
            covered(style_rects(CursorStyle::Outline, x0, y0, w, h), x, y) <==> (x0 <= x < x0 + w
                && y0 <= y < y0 + h && (x == x0 || x == x0 + w - 1 || y == y0 || y == y0 + h - 1))
        }),
{
    let w = s.char_width_spec();
    let h = s.char_height_spec();
    let (x0, y0) = s.cursor_spec().origin(s.char_offset_spec(), w, h);
    lemma_cursor_cell_fits(s);
    lemma_outline_is_border(x0, y0, w, h, x, y);
}

/// The backend keeps only cells that blink, at most one per position, in
/// grid order: by column, then by row.
pub proof fn lemma_tracked_cells_blink<C: FromThemedColor>(s: &BackendState<C>)
    requires
        s.wf(),
    ensures
        keys_sorted(s.blink_cells_spec()),
        forall|i: int|
            0 <= i < s.blink_cells_spec().len() ==> is_blinking(
                #[trigger] s.blink_cells_spec()[i].cell,
            ),
{
}

/// Clearing has one outcome: two states that both clear `s` (as `clear`
/// and `clear_region(ClearType::All)` each promise to) return the same color
/// and agree on every part of the state and on every framebuffer pixel.
pub proof fn lemma_clear_outcome_unique<C: FromThemedColor>(
    s: &BackendState<C>,
    a: &BackendState<C>,
    ra: Option<C>,
    b: &BackendState<C>,
    rb: Option<C>,
)
    requires
        s.wf(),
        s.clears(a, ra),
        s.clears(b, rb),
    ensures
        ra == rb,
        a.same_but_pixels(b),
        a.buffer_spec() is Some <==> b.buffer_spec() is Some,
        a.buffer_spec() matches Some(fa) ==> forall|x: int, y: int|
            #[trigger] fa.pixel_at(x, y) == b.buffer_spec().unwrap().pixel_at(x, y),
{
    if let Some(fa) = a.buffer_spec() {
        let fb = b.buffer_spec().unwrap();
        assert forall|x: int, y: int| #[trigger] fa.pixel_at(x, y) == fb.pixel_at(x, y) by {
            assert(fa.pixel_at(x, y) == if fa.in_bounds(x, y) {
                s.background()
            } else {
                fa.fill_spec()
            });
            assert(fb.pixel_at(x, y) == if fb.in_bounds(x, y) {
                s.background()
            } else {
                fb.fill_spec()
            });
        }
    }
}

/// The grid holds whole cells only: the pixels it reports cover at most the
/// surface, and what is left over on each axis is less than one cell.
pub proof fn lemma_grid_excludes_leftover<C: FromThemedColor>(s: &BackendState<C>)
    requires
        s.wf(),
    ensures
        s.columns_rows_spec().width == s.pixels_spec().width as int / s.char_width_spec(),
        s.columns_rows_spec().height == s.pixels_spec().height as int / s.char_height_spec(),
        s.columns_rows_spec().width * s.char_width_spec() <= s.pixels_spec().width,
        s.pixels_spec().width < (s.columns_rows_spec().width + 1) * s.char_width_spec(),
        s.columns_rows_spec().height * s.char_height_spec() <= s.pixels_spec().height,
        s.pixels_spec().height < (s.columns_rows_spec().height + 1) * s.char_height_spec(),
{
    let pw = s.pixels_spec().width as int;
    let ph = s.pixels_spec().height as int;
    let cw = s.char_width_spec();
    let ch = s.char_height_spec();
    assert(0 <= (pw / cw) * cw <= pw < (pw / cw + 1) * cw) by (nonlinear_arith)
        requires
            0 <= pw,
            1 <= cw,
    ;
    assert(0 <= (ph / ch) * ch <= ph < (ph / ch + 1) * ch) by (nonlinear_arith)
        requires
            0 <= ph,
            1 <= ch,
    ;
}

} // verus!
