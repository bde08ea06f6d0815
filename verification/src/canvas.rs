//! The mathematical model of a texture: a grid of colours laid out row by row.

use vstd::prelude::*;
use crate::color::Color;

verus! {

/// What a texture holds: `height` rows of `width` colours each, stored one
/// row after another, so that the pixel in column `x` of row `y` sits at
/// index `y * width + x`.
pub struct Canvas {
    /// The number of columns.
    pub width: nat,
    /// The number of rows.
    pub height: nat,
    /// The colours, row after row.
    pub pixels: Seq<Color>,
}

impl Canvas {
    /// A canvas is well formed when it holds exactly one colour per pixel.
    pub open spec fn wf(self) -> bool {
        self.pixels.len() == self.width * self.height
    }

    /// Whether column `x` of row `y` is a pixel of the canvas.
    pub open spec fn in_bounds(self, x: int, y: int) -> bool {
        0 <= x < self.width && 0 <= y < self.height
    }

    /// Where the pixel in column `x` of row `y` is stored.
    pub open spec fn index_of(self, x: int, y: int) -> int {
        y * self.width + x
    }

    /// The colour in column `x` of row `y`; meaningful for pixels of the
    /// canvas only.
    pub open spec fn at(self, x: int, y: int) -> Color {
        self.pixels[self.index_of(x, y)]
    }

    /// The colour in column `x` of row `y`, or `None` off the canvas.
    pub open spec fn get(self, x: int, y: int) -> Option<Color> {
        if self.in_bounds(x, y) {
            Some(self.at(x, y))
        } else {
            None
        }
    }

    /// The canvas after writing `color` to column `x` of row `y`. Off the
    /// canvas nothing is written.
    pub open spec fn set(self, x: int, y: int, color: Color) -> Canvas {
        if self.in_bounds(x, y) {
            Canvas { pixels: self.pixels.update(self.index_of(x, y), color), ..self }
        } else {
            self
        }
    }

    /// The canvas of a fresh texture: every pixel black.
    pub open spec fn blank(width: nat, height: nat) -> Canvas {
        Canvas { width, height, pixels: Seq::new(width * height, |i: int| Color::black_spec()) }
    }

    /// The canvas as packed `0x00RRGGBB` values, row after row.
    pub open spec fn packed(self) -> Seq<u32> {
        Seq::new(self.pixels.len(), |i: int| self.pixels[i].to_hex_spec())
    }

    /// Whether `after` is this canvas painted over: the extent is the same,
    /// every pixel for which `paint` names a colour holds that colour, and
    /// every other pixel is untouched. What `paint` names off the canvas is
    /// dropped.
    pub open spec fn painted_over(
        self,
        after: Canvas,
        paint: spec_fn(int, int) -> Option<Color>,
    ) -> bool {
        &&& after.width == self.width
        &&& after.height == self.height
        &&& after.wf()
        &&& forall|x: int, y: int|
            self.in_bounds(x, y) ==> #[trigger] after.at(x, y) == match paint(x, y) {
                Some(color) => color,
                None => self.at(x, y),
            }
    }

    /// Every pixel of a well-formed canvas has a place in its storage.
    pub proof fn lemma_index_in_range(self, x: int, y: int)
        requires
            self.wf(),
            self.in_bounds(x, y),
        ensures
            0 <= y * self.width <= self.index_of(x, y) < self.pixels.len(),
            self.index_of(x, y) < self.width * self.height,
    {
        let w = self.width as int;
        let h = self.height as int;
        assert(y * w + x < h * w) by (nonlinear_arith)
            requires
                0 <= x < w,
                0 <= y < h,
        ;
        assert(0 <= y * w) by (nonlinear_arith)
            requires
                0 <= y,
                0 <= w,
        ;
        assert(h * w == w * h) by (nonlinear_arith);
    }

    /// Two different pixels never share a place in storage.
    pub proof fn lemma_index_injective(self, x1: int, y1: int, x2: int, y2: int)
        requires
            self.in_bounds(x1, y1),
            self.in_bounds(x2, y2),
            self.index_of(x1, y1) == self.index_of(x2, y2),
        ensures
            x1 == x2,
            y1 == y2,
    {
        let w = self.width as int;
        if y1 < y2 {
            assert(y1 * w + w <= y2 * w) by (nonlinear_arith)
                requires
                    y1 + 1 <= y2,
                    0 <= w,
            ;
        } else if y2 < y1 {
            assert(y2 * w + w <= y1 * w) by (nonlinear_arith)
                requires
                    y2 + 1 <= y1,
                    0 <= w,
            ;
        }
    }

    /// Every place in the storage of a well-formed canvas belongs to one of
    /// its pixels: index `i` holds column `i % width` of row `i / width`.
    pub proof fn lemma_index_onto(self, i: int)
        requires
            self.wf(),
            0 <= i < self.pixels.len(),
        ensures
            self.width > 0,
            self.in_bounds(i % (self.width as int), i / (self.width as int)),
            self.index_of(i % (self.width as int), i / (self.width as int)) == i,
    {
        let w = self.width as int;
        let h = self.height as int;
        assert(w > 0) by (nonlinear_arith)
            requires
                0 <= i < w * h,
                0 <= w,
                0 <= h,
        ;
        vstd::arithmetic::div_mod::lemma_fundamental_div_mod(i, w);
        vstd::arithmetic::div_mod::lemma_mod_bound(i, w);
        vstd::arithmetic::div_mod::lemma_div_pos_is_pos(i, w);
        let q = i / w;
        assert(w * q == q * w) by (nonlinear_arith);
        assert(q < h) by (nonlinear_arith)
            requires
                q * w <= i,
                i < w * h,
                0 < w,
        ;
    }

    /// What `painted_over` says of a canvas leaves nothing open: two
    /// canvases that are both this canvas painted over in the same way are
    /// the same canvas.
    pub proof fn lemma_painted_over_is_exact(
        self,
        first: Canvas,
        second: Canvas,
        paint: spec_fn(int, int) -> Option<Color>,
    )
        requires
            self.painted_over(first, paint),
            self.painted_over(second, paint),
        ensures
            first == second,
    {
        assert forall|i: int| 0 <= i < first.pixels.len() implies first.pixels[i]
            == second.pixels[i] by {
            first.lemma_index_onto(i);
            let x = i % (first.width as int);
            let y = i / (first.width as int);
            assert(self.in_bounds(x, y));
            assert(first.at(x, y) == second.at(x, y));
        }
        assert(first.pixels =~= second.pixels);
    }

    /// Writing a pixel of the canvas and reading it back gives the colour
    /// written.
    pub proof fn lemma_set_then_get(self, x: int, y: int, color: Color)
        requires
            self.wf(),
            self.in_bounds(x, y),
        ensures
            self.set(x, y, color).wf(),
            self.set(x, y, color).get(x, y) == Some(color),
    {
        self.lemma_index_in_range(x, y);
    }

    /// Writing one pixel leaves every other pixel as it was.
    pub proof fn lemma_set_keeps_others(self, x: int, y: int, color: Color, px: int, py: int)
        requires
            self.wf(),
            px != x || py != y,
        ensures
            self.set(x, y, color).get(px, py) == self.get(px, py),
    {
        if self.in_bounds(x, y) && self.in_bounds(px, py) {
            self.lemma_index_in_range(x, y);
            self.lemma_index_in_range(px, py);
            if self.index_of(x, y) == self.index_of(px, py) {
                self.lemma_index_injective(x, y, px, py);
            }
        }
    }

    /// Off the canvas a write changes nothing and a read finds nothing.
    pub proof fn lemma_out_of_bounds(self, x: int, y: int, color: Color)
        requires
            x >= self.width || y >= self.height || x < 0 || y < 0,
        ensures
            self.set(x, y, color) == self,
            self.get(x, y) is None,
    {
    }

    /// A blank canvas is well formed, every pixel of it is black, and its
    /// packed form has one entry per pixel, each of them zero.
    pub proof fn lemma_blank(width: nat, height: nat)
        ensures
            Canvas::blank(width, height).wf(),
            Canvas::blank(width, height).width == width,
            Canvas::blank(width, height).height == height,
            forall|x: int, y: int| #[trigger]
                Canvas::blank(width, height).in_bounds(x, y) ==> Canvas::blank(width, height).get(
                    x,
                    y,
                ) == Some(Color::black_spec()),
            Canvas::blank(width, height).packed().len() == width * height,
            forall|i: int|
                0 <= i < width * height ==> #[trigger] Canvas::blank(width, height).packed()[i]
                    == 0,
    {
        let c = Canvas::blank(width, height);
        assert forall|x: int, y: int| #[trigger] c.in_bounds(x, y) implies c.get(x, y) == Some(
            Color::black_spec(),
        ) by {
            c.lemma_index_in_range(x, y);
        }
    }

    /// The packed form has one entry per pixel: entry `y * width + x` is the
    /// packed colour of column `x` of row `y`.
    pub proof fn lemma_packed(self, x: int, y: int)
        requires
            self.wf(),
            self.in_bounds(x, y),
        ensures
            self.packed().len() == self.width * self.height,
            self.packed()[self.index_of(x, y)] == self.at(x, y).to_hex_spec(),
    {
        self.lemma_index_in_range(x, y);
    }
}

} // verus!
