//! An in-memory mirror of the display, which can be read back.

use vstd::prelude::*;

verus! {

/// The index of pixel `(x, y)` in a row-major buffer `width` pixels wide.
pub open spec fn pixel_index(width: int, x: int, y: int) -> int {
    y * width + x
}

proof fn lemma_index_in_range(width: int, height: int, x: int, y: int)
    requires
        0 <= x < width,
        0 <= y < height,
    ensures
        0 <= pixel_index(width, x, y) < width * height,
{
    assert(0 <= y * width + x < width * height) by (nonlinear_arith)
        requires
            0 <= x < width,
            0 <= y < height,
    ;
}

proof fn lemma_area_fits(width: int, height: int)
    requires
        0 <= width <= u16::MAX,
        0 <= height <= u16::MAX,
    ensures
        0 <= width * height <= u16::MAX * u16::MAX,
{
    assert(0 <= width * height <= u16::MAX * u16::MAX) by (nonlinear_arith)
        requires
            0 <= width <= u16::MAX,
            0 <= height <= u16::MAX,
    ;
}

/// A `width` × `height` array of pixels, row by row. Reads outside it give
/// the color it was created with.
pub struct Framebuffer<C> {
    width: u16,
    height: u16,
    pixels: Vec<C>,
    fill: C,
}

impl<C: Copy> Framebuffer<C> {
    pub closed spec fn width_spec(&self) -> int {
        self.width as int
    }

    pub closed spec fn height_spec(&self) -> int {
        self.height as int
    }

    /// The pixels, row by row.
    pub closed spec fn pixels_spec(&self) -> Seq<C> {
        self.pixels@
    }

    /// The color read outside the buffer.
    pub closed spec fn fill_spec(&self) -> C {
        self.fill
    }

    pub open spec fn wf(&self) -> bool {
        &&& 0 <= self.width_spec() <= u16::MAX
        &&& 0 <= self.height_spec() <= u16::MAX
        &&& self.pixels_spec().len() == self.width_spec() * self.height_spec()
    }

    pub open spec fn in_bounds(&self, x: int, y: int) -> bool {
        0 <= x < self.width_spec() && 0 <= y < self.height_spec()
    }

    /// The pixel at `(x, y)`, or the fill color outside the buffer.
    pub open spec fn pixel_at(&self, x: int, y: int) -> C {
        if self.in_bounds(x, y) {
            self.pixels_spec()[pixel_index(self.width_spec(), x, y)]
        } else {
            self.fill_spec()
        }
    }

    /// A buffer with every pixel set to `fill`.
    pub fn new(width: u16, height: u16, fill: C) -> (fb: Self)
        ensures
            fb.wf(),
            fb.width_spec() == width,
            fb.height_spec() == height,
            fb.fill_spec() == fill,
            forall|x: int, y: int| #[trigger] fb.pixel_at(x, y) == fill,
    {
        proof {
            lemma_area_fits(width as int, height as int);
        }
        let n: usize = (width as u32 * height as u32) as usize;
        let mut pixels: Vec<C> = Vec::new();
        let mut i: usize = 0;
        while i < n
            invariant
                n == width * height,
                i <= n,
                pixels@.len() == i,
                forall|j: int| 0 <= j < i ==> pixels@[j] == fill,
            decreases n - i,
        {
            pixels.push(fill);
            i = i + 1;
        }
        let fb = Framebuffer { width, height, pixels, fill };
        assert forall|x: int, y: int| #[trigger] fb.pixel_at(x, y) == fill by {
            if fb.in_bounds(x, y) {
                lemma_index_in_range(width as int, height as int, x, y);
            }
        }
        fb
    }

    pub fn width(&self) -> (w: u16)
        ensures
            w == self.width_spec(),
    {
        self.width
    }

    pub fn height(&self) -> (h: u16)
        ensures
            h == self.height_spec(),
    {
        self.height
    }

    /// The pixels, row by row, for a bulk transfer to the display.
    pub fn pixels(&self) -> (p: &Vec<C>)
        ensures
            p@ == self.pixels_spec(),
    {
        &self.pixels
    }

    /// Reads one pixel back; outside the buffer this is the fill color.
    pub fn get_pixel(&self, x: i32, y: i32) -> (c: C)
        requires
            self.wf(),
        ensures
            c == self.pixel_at(x as int, y as int),
    {
        if 0 <= x && x < self.width as i32 && 0 <= y && y < self.height as i32 {
            proof {
                lemma_index_in_range(self.width as int, self.height as int, x as int, y as int);
                lemma_area_fits(self.width as int, self.height as int);
                assert(0 <= y * self.width <= y * self.width + x) by (nonlinear_arith)
                    requires
                        0 <= x,
                        0 <= y,
                        0 <= self.width,
                ;
            }
            let i: usize = (y as u32 * self.width as u32 + x as u32) as usize;
            self.pixels[i]
        } else {
            self.fill
        }
    }

    /// Writes one pixel; a write outside the buffer is ignored.
    pub fn set_pixel(&mut self, x: i32, y: i32, c: C)
        requires
            old(self).wf(),
        ensures
            final(self).wf(),
            final(self).width_spec() == old(self).width_spec(),
            final(self).height_spec() == old(self).height_spec(),
            final(self).fill_spec() == old(self).fill_spec(),
            forall|px: int, py: int|
                #[trigger] final(self).pixel_at(px, py) == if px == x && py == y && old(
                    self,
                ).in_bounds(px, py) {
                    c
                } else {
                    old(self).pixel_at(px, py)
                },
    {
        if 0 <= x && x < self.width as i32 && 0 <= y && y < self.height as i32 {
            proof {
                lemma_index_in_range(self.width as int, self.height as int, x as int, y as int);
                lemma_area_fits(self.width as int, self.height as int);
                assert(0 <= y * self.width <= y * self.width + x) by (nonlinear_arith)
                    requires
                        0 <= x,
                        0 <= y,
                        0 <= self.width,
                ;
            }
            let i: usize = (y as u32 * self.width as u32 + x as u32) as usize;
            self.pixels.set(i, c);
            proof {
                let w = self.width as int;
                assert forall|px: int, py: int|
                    #[trigger] self.pixel_at(px, py) == if px == x && py == y && old(
                        self,
                    ).in_bounds(px, py) {
                        c
                    } else {
                        old(self).pixel_at(px, py)
                    } by {
                    if self.in_bounds(px, py) {
                        lemma_index_in_range(w, self.height as int, px, py);
                        if px != x || py != y {
                            assert(pixel_index(w, px, py) != pixel_index(w, x as int, y as int))
                                by (nonlinear_arith)
                                requires
                                    0 <= px < w,
                                    0 <= x < w,
                                    px != x || py != y,
                            ;
                        }
                    }
                }
            }
        }
    }

    /// Sets every pixel to `c`.
    pub fn clear(&mut self, c: C)
        requires
            old(self).wf(),
        ensures
            final(self).wf(),
            final(self).width_spec() == old(self).width_spec(),
            final(self).height_spec() == old(self).height_spec(),
            final(self).fill_spec() == old(self).fill_spec(),
            forall|x: int, y: int|
                #[trigger] final(self).pixel_at(x, y) == if old(self).in_bounds(x, y) {
                    c
                } else {
                    old(self).fill_spec()
                },
    {
        let n = self.pixels.len();
        let mut i: usize = 0;
        while i < n
            invariant
                n == self.pixels@.len(),
                n == old(self).pixels@.len(),
                self.width == old(self).width,
                self.height == old(self).height,
                self.fill == old(self).fill,
                i <= n,
                forall|j: int| 0 <= j < i ==> self.pixels@[j] == c,
            decreases n - i,
        {
            self.pixels.set(i, c);
            i = i + 1;
        }
        proof {
            assert forall|x: int, y: int|
                #[trigger] self.pixel_at(x, y) == if old(self).in_bounds(x, y) {
                    c
                } else {
                    old(self).fill_spec()
                } by {
                if self.in_bounds(x, y) {
                    lemma_index_in_range(self.width as int, self.height as int, x, y);
                }
            }
        }
    }
}

} // verus!
