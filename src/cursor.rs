//! Cursor configuration, styles, and the fills that draw it.

use crate::colors::{FromThemedColor, Rgb, rgb};
use crate::framebuffer::Framebuffer;
use crate::geometry::{Point, Position, Rect, rect_contains};
use vstd::prelude::*;

verus! {

/// How the cursor is rendered on screen.
#[derive(Clone, Copy, PartialEq, Eq, Structural, Debug)]
pub enum CursorStyle {
    /// Invert all pixels in the character cell (needs a framebuffer to read
    /// back from). Falls back to `Underline` without one.
    Inverse,
    /// Thin line at the bottom of the character cell.
    Underline,
    /// Outline around the character cell.
    Outline,
    /// Corner brackets at the top-left and bottom-right corners.
    Japanese,
}

/// Cursor appearance and behavior.
#[derive(Clone, Copy, PartialEq, Eq, Structural, Debug)]
pub struct CursorConfig {
    /// Visual style of the cursor.
    pub style: CursorStyle,
    /// Whether the cursor blinks, with the slow blink timing.
    pub blink: bool,
    /// Cursor color for the styles other than `Inverse`.
    pub color: Rgb,
}

impl Default for CursorConfig {
    fn default() -> (c: CursorConfig)
        ensures
            c.style == CursorStyle::Inverse,
            c.blink,
            c.color == rgb(255, 255, 255),
    {
        CursorConfig { style: CursorStyle::Inverse, blink: true, color: Rgb::new(255, 255, 255) }
    }
}

/// One fill operation on the display.
pub enum CursorFill<C> {
    /// A rectangle in one color.
    Solid(Rect, C),
    /// A rectangle filled with the given colors, row by row.
    Pixels(Rect, Vec<C>),
}

/// The cursor: visibility, cell position and appearance.
#[derive(Clone, Copy, PartialEq, Eq, Structural, Debug)]
pub struct Cursor {
    pub visible: bool,
    pub position: Position,
    pub config: CursorConfig,
}

/// The color with each channel complemented, as a bitwise not does.
pub open spec fn invert_rgb(c: Rgb) -> Rgb {
    rgb((255 - c.r) as u8, (255 - c.g) as u8, (255 - c.b) as u8)
}

/// A rectangle placed relative to the cell's top-left corner `(x0, y0)`.
pub open spec fn line(x0: int, y0: int, dy: int, dx: int, w: int, h: int) -> Rect {
    Rect { top_left: Point { x: (x0 + dx) as i32, y: (y0 + dy) as i32 }, width: w as u32, height: h as u32 }
}

/// Length of each arm of a corner bracket.
pub open spec fn corner_len(w: int) -> int {
    if w / 2 > 2 {
        w / 2
    } else {
        2
    }
}

/// The rectangles of a solid cursor style on a `w` × `h` cell at `(x0, y0)`.
/// `Inverse` stands here for its fallback, `Underline`.
pub open spec fn style_rects(style: CursorStyle, x0: int, y0: int, w: int, h: int) -> Seq<Rect> {
    match style {
        CursorStyle::Outline => seq![
            line(x0, y0, 0, 0, w, 1),
            line(x0, y0, h - 1, 0, w, 1),
            line(x0, y0, 0, 0, 1, h),
            line(x0, y0, 0, w - 1, 1, h),
        ],
        CursorStyle::Japanese => {
            let c = corner_len(w);
            seq![
                line(x0, y0, 0, 0, c, 1),
                line(x0, y0, 0, 0, 1, c),
                line(x0, y0, h - c, w - 1, 1, c),
                line(x0, y0, h - 1, w - c, c, 1),
            ]
        },
        _ => seq![line(x0, y0, h - 1, 0, w, 1)],
    }
}

/// Whether some rectangle of `rects` covers the pixel `(x, y)`.
pub open spec fn covered(rects: Seq<Rect>, x: int, y: int) -> bool {
    exists|i: int| 0 <= i < rects.len() && #[trigger] rect_contains(rects[i], x, y)
}

/// Whether every coordinate that drawing a `w` × `h` cursor at `(x0, y0)`
/// computes fits in an `i32`.
pub open spec fn cell_fits(x0: int, y0: int, w: int, h: int) -> bool {
    &&& 1 <= w
    &&& 1 <= h
    &&& i32::MIN <= x0 - w - 2
    &&& x0 + w + 2 <= i32::MAX
    &&& i32::MIN <= y0 - w - 2
    &&& y0 + h + w + 2 <= i32::MAX
}

/// The cursor outline covers exactly the border of its cell: the four
/// edges, one pixel thick, and no pixel inside or outside them.
pub proof fn lemma_outline_is_border(x0: int, y0: int, w: int, h: int, x: int, y: int)
    requires
        cell_fits(x0, y0, w, h),
    ensures
        covered(style_rects(CursorStyle::Outline, x0, y0, w, h), x, y) <==> (x0 <= x < x0 + w
            && y0 <= y < y0 + h && (x == x0 || x == x0 + w - 1 || y == y0 || y == y0 + h - 1)),
{
    let rs = style_rects(CursorStyle::Outline, x0, y0, w, h);
    if x0 <= x < x0 + w && y0 <= y < y0 + h {
        if y == y0 {
            assert(rect_contains(rs[0], x, y));
        } else if y == y0 + h - 1 {
            assert(rect_contains(rs[1], x, y));
        } else if x == x0 {
            assert(rect_contains(rs[2], x, y));
        } else if x == x0 + w - 1 {
            assert(rect_contains(rs[3], x, y));
        }
    }
}

/// The framebuffer behind an optional reference.
pub open spec fn buffer_value<C>(buffer: Option<&Framebuffer<C>>) -> Option<Framebuffer<C>> {
    match buffer {
        Some(fb) => Some(*fb),
        None => None,
    }
}

/// Whether `fills` draw `cursor` on a cell of `char_w` × `char_h` pixels:
/// for `Inverse` with a framebuffer, one fill per row of the cell holding the
/// complement of each pixel read back; otherwise the solid rectangles of the
/// style in the configured color.
pub open spec fn draws_cursor<C: FromThemedColor>(
    cursor: Cursor,
    buffer: Option<Framebuffer<C>>,
    char_offset: Point,
    char_w: int,
    char_h: int,
    fills: Seq<CursorFill<C>>,
) -> bool {
    let (x0, y0) = cursor.origin(char_offset, char_w, char_h);
    if cursor.config.style == CursorStyle::Inverse && buffer is Some {
        let fb = buffer.unwrap();
        &&& fills.len() == char_h
        &&& forall|i: int|
            0 <= i < char_h ==> match #[trigger] fills[i] {
                CursorFill::Pixels(area, colors) => {
                    &&& area == line(x0, y0, i, 0, char_w, 1)
                    &&& colors@.len() == char_w
                    &&& forall|k: int|
                        0 <= k < char_w ==> #[trigger] colors@[k] == C::of_rgb(
                            invert_rgb(fb.pixel_at(x0 + k, y0 + i).rgb_of()),
                        )
                },
                CursorFill::Solid(_, _) => false,
            }
    } else {
        let rects = style_rects(cursor.config.style, x0, y0, char_w, char_h);
        &&& fills.len() == rects.len()
        &&& forall|i: int|
            0 <= i < rects.len() ==> #[trigger] fills[i] == CursorFill::Solid(
                rects[i],
                C::of_rgb(cursor.config.color),
            )
    }
}

impl Cursor {
    /// A hidden cursor at the top-left cell.
    pub fn new(config: CursorConfig) -> (c: Cursor)
        ensures
            !c.visible,
            c.position == (Position { x: 0, y: 0 }),
            c.config == config,
    {
        Cursor { visible: false, position: Position::new(0, 0), config }
    }

    /// Top-left pixel of the cursor's cell.
    pub open spec fn origin(&self, char_offset: Point, char_w: int, char_h: int) -> (int, int) {
        (
            self.position.x * char_w + char_offset.x,
            self.position.y * char_h + char_offset.y,
        )
    }

    /// The fills that draw the cursor on a cell of `char_w` × `char_h`
    /// pixels. `Inverse` reads each pixel of the cell back from the
    /// framebuffer and writes its complement, one fill per row; without a
    /// framebuffer it draws as `Underline`. The other styles are solid
    /// rectangles in the configured color.
    pub fn draw<C: FromThemedColor>(
        &self,
        buffer: Option<&Framebuffer<C>>,
        char_offset: Point,
        char_w: i32,
        char_h: i32,
    ) -> (fills: Vec<CursorFill<C>>)
        requires
            cell_fits(
                self.origin(char_offset, char_w as int, char_h as int).0,
                self.origin(char_offset, char_w as int, char_h as int).1,
                char_w as int,
                char_h as int,
            ),
            buffer matches Some(fb) ==> fb.wf(),
        ensures
            draws_cursor(*self, buffer_value(buffer), char_offset, char_w as int, char_h as int, fills@),
    {
        let x0: i32 = (self.position.x as i64 * char_w as i64 + char_offset.x as i64) as i32;
        let y0: i32 = (self.position.y as i64 * char_h as i64 + char_offset.y as i64) as i32;
        proof {
            let px = self.position.x as int;
            let py = self.position.y as int;
            assert(0 <= px * char_w <= 65535 * 0x8000_0000) by (nonlinear_arith)
                requires
                    0 <= px <= 65535,
                    1 <= char_w <= 0x7fff_ffff,
            ;
            assert(0 <= py * char_h <= 65535 * 0x8000_0000) by (nonlinear_arith)
                requires
                    0 <= py <= 65535,
                    1 <= char_h <= 0x7fff_ffff,
            ;
        }
        let mut fills: Vec<CursorFill<C>> = Vec::new();
        match (self.config.style, buffer) {
            (CursorStyle::Inverse, Some(fb)) => {
                let mut i: i32 = 0;
                while i < char_h
                    invariant
                        0 <= i <= char_h,
                        1 <= char_w,
                        x0 as int + char_w + 2 <= i32::MAX,
                        y0 as int + char_h + 2 <= i32::MAX,
                        x0 - char_w - 2 >= i32::MIN,
                        y0 - 2 >= i32::MIN,
                        fb.wf(),
                        fills@.len() == i,
                        forall|j: int|
                            0 <= j < i ==> match #[trigger] fills@[j] {
                                CursorFill::Pixels(area, colors) => {
                                    &&& area == line(x0 as int, y0 as int, j, 0, char_w as int, 1)
                                    &&& colors@.len() == char_w
                                    &&& forall|k: int|
                                        0 <= k < char_w ==> #[trigger] colors@[k] == C::of_rgb(
                                            invert_rgb(
                                                fb.pixel_at(x0 + k, y0 + j).rgb_of(),
                                            ),
                                        )
                                },
                                CursorFill::Solid(_, _) => false,
                            },
                    decreases char_h - i,
                {
                    let y: i32 = y0 + i;
                    let mut colors: Vec<C> = Vec::new();
                    let mut k: i32 = 0;
                    while k < char_w
                        invariant
                            0 <= k <= char_w,
                            x0 as int + char_w + 2 <= i32::MAX,
                            x0 - char_w - 2 >= i32::MIN,
                            fb.wf(),
                            colors@.len() == k,
                            forall|m: int|
                                0 <= m < k ==> #[trigger] colors@[m] == C::of_rgb(
                                    invert_rgb(fb.pixel_at(x0 + m, y as int).rgb_of()),
                                ),
                        decreases char_w - k,
                    {
                        let p = fb.get_pixel(x0 + k, y).to_rgb888();
                        colors.push(C::from_rgb888(Rgb::new(255 - p.r, 255 - p.g, 255 - p.b)));
                        k = k + 1;
                    }
                    let area = Rect { top_left: Point::new(x0, y), width: char_w as u32, height: 1 };
                    fills.push(CursorFill::Pixels(area, colors));
                    i = i + 1;
                }
            },
            (CursorStyle::Outline, _) => {
                let color = C::from_rgb888(self.config.color);
                fills.push(CursorFill::Solid(Self::line_rect(x0, y0, 0, 0, char_w, 1), color));
                fills.push(
                    CursorFill::Solid(Self::line_rect(x0, y0, char_h - 1, 0, char_w, 1), color),
                );
                fills.push(CursorFill::Solid(Self::line_rect(x0, y0, 0, 0, 1, char_h), color));
                fills.push(
                    CursorFill::Solid(Self::line_rect(x0, y0, 0, char_w - 1, 1, char_h), color),
                );
            },
            (CursorStyle::Japanese, _) => {
                let color = C::from_rgb888(self.config.color);
                let corner: i32 = if char_w / 2 > 2 {
                    char_w / 2
                } else {
                    2
                };
                fills.push(CursorFill::Solid(Self::line_rect(x0, y0, 0, 0, corner, 1), color));
                fills.push(CursorFill::Solid(Self::line_rect(x0, y0, 0, 0, 1, corner), color));
                fills.push(
                    CursorFill::Solid(
                        Self::line_rect(x0, y0, char_h - corner, char_w - 1, 1, corner),
                        color,
                    ),
                );
                fills.push(
                    CursorFill::Solid(
                        Self::line_rect(x0, y0, char_h - 1, char_w - corner, corner, 1),
                        color,
                    ),
                );
            },
            _ => {
                let color = C::from_rgb888(self.config.color);
                fills.push(
                    CursorFill::Solid(Self::line_rect(x0, y0, char_h - 1, 0, char_w, 1), color),
                );
            },
        }
        fills
    }

    fn line_rect(x0: i32, y0: i32, dy: i32, dx: i32, w: i32, h: i32) -> (r: Rect)
        requires
            i32::MIN <= x0 + dx <= i32::MAX,
            i32::MIN <= y0 + dy <= i32::MAX,
            0 <= w,
            0 <= h,
        ensures
            r == line(x0 as int, y0 as int, dy as int, dx as int, w as int, h as int),
    {
        Rect { top_left: Point::new(x0 + dx, y0 + dy), width: w as u32, height: h as u32 }
    }
}

} // verus!
