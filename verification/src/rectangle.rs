//! The `RectangleNode`: a filled rectangle with sides parallel to the edges
//! of the texture.

use vstd::prelude::*;
use crate::color::Color;
use crate::component::{DrawComponent, FillColorComponent, PositionComponent, SizeComponent};
use crate::texture::Texture;

verus! {

/// A node that stands for a filled rectangle: its top-left corner, its size
/// and its fill colour. Column 0 of row 0 is the top-left pixel of a texture.
#[derive(Copy, Clone, Debug, PartialEq, Eq, Structural)]
pub struct RectangleNode {
    /// The column of the top-left corner.
    pub x: usize,
    /// The row of the top-left corner.
    pub y: usize,
    /// The width in pixels.
    pub width: usize,
    /// The height in pixels.
    pub height: usize,
    /// The colour that the rectangle is filled with.
    pub fill_color: Color,
}

/// The first coordinate past a run of `length` pixels that starts at `start`,
/// or `limit` if the run reaches that far.
fn run_end(start: usize, length: usize, limit: usize) -> (end: usize)
    ensures
        end == if start + length < limit {
            start + length
        } else {
            limit as int
        },
{
    match start.checked_add(length) {
        Some(end) => if end < limit {
            end
        } else {
            limit
        },
        None => limit,
    }
}

impl RectangleNode {
    /// A rectangle with its top-left corner in column `x` of row `y`, `width`
    /// pixels wide and `height` pixels high, filled with `fill_color`.
    pub fn new(x: usize, y: usize, width: usize, height: usize, fill_color: Color) -> (node:
        RectangleNode)
        ensures
            node == (RectangleNode { x, y, width, height, fill_color }),
    {
        RectangleNode { x, y, width, height, fill_color }
    }

    /// Whether column `px` of row `py` lies in the rectangle: in one of the
    /// `width` columns from `x` on and one of the `height` rows from `y` on.
    pub open spec fn covers(&self, px: int, py: int) -> bool {
        &&& self.x <= px < self.x + self.width
        &&& self.y <= py < self.y + self.height
    }
}

impl DrawComponent for RectangleNode {
    open spec fn painted(&self, x: int, y: int) -> Option<Color> {
        if self.covers(x, y) {
            Some(self.fill_color)
        } else {
            None
        }
    }

    /// Fills the rectangle row by row. The part of it that lies off the
    /// texture is left out.
    #[verifier::loop_isolation(false)]
    fn draw(&self, texture: &mut Texture) {
        let ghost before = texture@;
        proof {
            texture.lemma_well_formed();
        }
        let row_end = run_end(self.y, self.height, texture.get_height());
        let column_end = run_end(self.x, self.width, texture.get_width());
        let mut py = self.y;
        while py < row_end
            invariant
                self.y <= py,
                texture@.wf(),
                texture@.width == before.width,
                texture@.height == before.height,
                forall|qx: int, qy: int|
                    before.in_bounds(qx, qy) ==> #[trigger] texture@.at(qx, qy) == if self.covers(
                        qx,
                        qy,
                    ) && qy < py {
                        self.fill_color
                    } else {
                        before.at(qx, qy)
                    },
            decreases row_end - py,
        {
            let mut px = self.x;
            while px < column_end
                invariant
                    self.x <= px,
                    self.y <= py < row_end,
                    texture@.wf(),
                    texture@.width == before.width,
                    texture@.height == before.height,
                    forall|qx: int, qy: int|
                        before.in_bounds(qx, qy) ==> #[trigger] texture@.at(qx, qy) == if self.covers(
                            qx,
                            qy,
                        ) && (qy < py || (qy == py && qx < px)) {
                            self.fill_color
                        } else {
                            before.at(qx, qy)
                        },
                decreases column_end - px,
            {
                let ghost earlier = texture@;
                let _ = texture.set_pixel(px, py, self.fill_color);
                proof {
                    texture.lemma_well_formed();
                    assert forall|qx: int, qy: int| before.in_bounds(qx, qy) implies #[trigger] texture@.at(
                        qx,
                        qy,
                    ) == if self.covers(qx, qy) && (qy < py || (qy == py && qx < px + 1)) {
                        self.fill_color
                    } else {
                        before.at(qx, qy)
                    } by {
                        if qx == px && qy == py {
                            earlier.lemma_set_then_get(qx, qy, self.fill_color);
                        } else {
                            earlier.lemma_set_keeps_others(
                                px as int,
                                py as int,
                                self.fill_color,
                                qx,
                                qy,
                            );
                        }
                    }
                }
                px += 1;
            }
            py += 1;
        }
    }
}

impl PositionComponent for RectangleNode {
    open spec fn x_spec(&self) -> usize {
        self.x
    }

    open spec fn y_spec(&self) -> usize {
        self.y
    }

    open spec fn with_x(&self, x: usize) -> Self {
        RectangleNode { x, ..*self }
    }

    open spec fn with_y(&self, y: usize) -> Self {
        RectangleNode { y, ..*self }
    }

    fn get_x(&self) -> (x: usize) {
        self.x
    }

    fn get_y(&self) -> (y: usize) {
        self.y
    }

    fn set_x(&mut self, x: usize) {
        self.x = x;
    }

    fn set_y(&mut self, y: usize) {
        self.y = y;
    }
}

impl SizeComponent for RectangleNode {
    open spec fn width_spec(&self) -> usize {
        self.width
    }

    open spec fn height_spec(&self) -> usize {
        self.height
    }

    open spec fn with_width(&self, width: usize) -> Self {
        RectangleNode { width, ..*self }
    }

    open spec fn with_height(&self, height: usize) -> Self {
        RectangleNode { height, ..*self }
    }

    fn get_width(&self) -> (width: usize) {
        self.width
    }

    fn get_height(&self) -> (height: usize) {
        self.height
    }

    fn set_width(&mut self, width: usize) {
        self.width = width;
    }

    fn set_height(&mut self, height: usize) {
        self.height = height;
    }
}

impl FillColorComponent for RectangleNode {
    open spec fn fill_color_spec(&self) -> Color {
        self.fill_color
    }

    open spec fn with_fill_color(&self, color: Color) -> Self {
        RectangleNode { fill_color: color, ..*self }
    }

    fn get_fill_color(&self) -> (color: &Color) {
        &self.fill_color
    }

    fn set_fill_color(&mut self, color: Color) {
        self.fill_color = color;
    }
}

} // verus!
