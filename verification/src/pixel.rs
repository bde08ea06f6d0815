//! The `PixelNode`: a single pixel of a texture.

use vstd::prelude::*;
use crate::color::Color;
use crate::component::{DrawComponent, FillColorComponent, PositionComponent};
use crate::texture::Texture;

verus! {

/// A node that stands for one pixel: a column, a row and a colour.
#[derive(Copy, Clone, Debug, PartialEq, Eq, Structural)]
pub struct PixelNode {
    /// The column of the pixel.
    pub x: usize,
    /// The row of the pixel.
    pub y: usize,
    /// The colour of the pixel.
    pub color: Color,
}

impl PixelNode {
    /// A pixel in column `x` of row `y` with the colour `color`.
    pub fn new(x: usize, y: usize, color: Color) -> (node: PixelNode)
        ensures
            node == (PixelNode { x, y, color }),
    {
        PixelNode { x, y, color }
    }

    /// Whether column `px` of row `py` is the node's pixel.
    pub open spec fn covers(&self, px: int, py: int) -> bool {
        px == self.x && py == self.y
    }
}

impl DrawComponent for PixelNode {
    open spec fn painted(&self, x: int, y: int) -> Option<Color> {
        if self.covers(x, y) {
            Some(self.color)
        } else {
            None
        }
    }

    /// Writes the node's colour to its pixel, if the texture has that pixel.
    fn draw(&self, texture: &mut Texture) {
        let ghost before = texture@;
        proof {
            texture.lemma_well_formed();
        }
        let _ = texture.set_pixel(self.x, self.y, self.color);
        proof {
            texture.lemma_well_formed();
            assert forall|x: int, y: int| before.in_bounds(x, y) implies #[trigger] texture@.at(
                x,
                y,
            ) == match self.painted(x, y) {
                Some(color) => color,
                None => before.at(x, y),
            } by {
                if self.covers(x, y) {
                    before.lemma_set_then_get(x, y, self.color);
                } else {
                    before.lemma_set_keeps_others(self.x as int, self.y as int, self.color, x, y);
                }
            }
        }
    }
}

impl PositionComponent for PixelNode {
    open spec fn x_spec(&self) -> usize {
        self.x
    }

    open spec fn y_spec(&self) -> usize {
        self.y
    }

    open spec fn with_x(&self, x: usize) -> Self {
        PixelNode { x, ..*self }
    }

    open spec fn with_y(&self, y: usize) -> Self {
        PixelNode { y, ..*self }
    }

    fn get_x(&self) -> (x: usize) {
        self.x
    }

    fn get_y(&self) -> (y: usize) {
        self.y
    }

    fn set_x(&mut self, x: usize) {
        self.x = x;
    }

    fn set_y(&mut self, y: usize) {
        self.y = y;
    }
}

impl FillColorComponent for PixelNode {
    open spec fn fill_color_spec(&self) -> Color {
        self.color
    }

    open spec fn with_fill_color(&self, color: Color) -> Self {
        PixelNode { color, ..*self }
    }

    fn get_fill_color(&self) -> (color: &Color) {
        &self.color
    }

    fn set_fill_color(&mut self, color: Color) {
        self.color = color;
    }
}

} // verus!
