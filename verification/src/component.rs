//! The capabilities that nodes are made of.
//!
//! A node is described by the components it has: it can be drawn, it has a
//! position, a size, a fill colour, a stroke. Code that needs one of these
//! asks for that component alone and works with every node that has it.

use vstd::prelude::*;
use crate::color::Color;
use crate::texture::Texture;

verus! {

/// A node that can draw itself onto a texture.
pub trait DrawComponent {
    /// The colour that the node puts in column `x` of row `y`, or `None`
    /// where it leaves the pixel alone.
    spec fn painted(&self, x: int, y: int) -> Option<Color>;

    /// Draws the node onto `texture`. Whatever falls outside the texture is
    /// skipped; the rest of the node is still drawn.
    fn draw(&self, texture: &mut Texture)
        ensures
            old(texture)@.painted_over(final(texture)@, |x: int, y: int| self.painted(x, y)),
    ;
}

/// A node with a position: the top-left corner of the node.
pub trait PositionComponent: Sized {
    /// The column of the node's top-left corner.
    spec fn x_spec(&self) -> usize;

    /// The row of the node's top-left corner.
    spec fn y_spec(&self) -> usize;

    /// The node moved so that its top-left corner is in column `x`.
    spec fn with_x(&self, x: usize) -> Self;

    /// The node moved so that its top-left corner is in row `y`.
    spec fn with_y(&self, y: usize) -> Self;

    /// The column of the node's top-left corner.
    fn get_x(&self) -> (x: usize)
        ensures
            x == self.x_spec(),
    ;

    /// The row of the node's top-left corner.
    fn get_y(&self) -> (y: usize)
        ensures
            y == self.y_spec(),
    ;

    /// Moves the node so that its top-left corner is in column `x`.
    fn set_x(&mut self, x: usize)
        ensures
            *final(self) == old(self).with_x(x),
    ;

    /// Moves the node so that its top-left corner is in row `y`.
    fn set_y(&mut self, y: usize)
        ensures
            *final(self) == old(self).with_y(y),
    ;

    /// Moves the node so that its top-left corner is at `position`, given as
    /// (column, row).
    fn set_position(&mut self, position: (usize, usize))
        ensures
            *final(self) == old(self).with_x(position.0).with_y(position.1),
    {
        self.set_x(position.0);
        self.set_y(position.1);
    }

    /// The node's top-left corner as (column, row).
    fn get_position(&self) -> (position: (usize, usize))
        ensures
            position == (self.x_spec(), self.y_spec()),
    {
        (self.get_x(), self.get_y())
    }
}

/// A node with a size: the width and height of the rectangle it fits in.
pub trait SizeComponent: Sized {
    /// The width of the node.
    spec fn width_spec(&self) -> usize;

    /// The height of the node.
    spec fn height_spec(&self) -> usize;

    /// The node resized to the width `width`.
    spec fn with_width(&self, width: usize) -> Self;

    /// The node resized to the height `height`.
    spec fn with_height(&self, height: usize) -> Self;

    /// The width of the node.
    fn get_width(&self) -> (width: usize)
        ensures
            width == self.width_spec(),
    ;

    /// The height of the node.
    fn get_height(&self) -> (height: usize)
        ensures
            height == self.height_spec(),
    ;

    /// Resizes the node to the width `width`.
    fn set_width(&mut self, width: usize)
        ensures
            *final(self) == old(self).with_width(width),
    ;

    /// Resizes the node to the height `height`.
    fn set_height(&mut self, height: usize)
        ensures
            *final(self) == old(self).with_height(height),
    ;

    /// Resizes the node to `size`, given as (width, height).
    fn set_size(&mut self, size: (usize, usize))
        ensures
            *final(self) == old(self).with_width(size.0).with_height(size.1),
    {
        self.set_width(size.0);
        self.set_height(size.1);
    }

    /// The node's size as (width, height).
    fn get_size(&self) -> (size: (usize, usize))
        ensures
            size == (self.width_spec(), self.height_spec()),
    {
        (self.get_width(), self.get_height())
    }
}

/// A node with a fill colour.
pub trait FillColorComponent: Sized {
    /// The colour that the node is filled with.
    spec fn fill_color_spec(&self) -> Color;

    /// The node filled with `color` instead.
    spec fn with_fill_color(&self, color: Color) -> Self;

    /// The colour that the node is filled with.
    fn get_fill_color(&self) -> (color: &Color)
        ensures
            *color == self.fill_color_spec(),
    ;

    /// Fills the node with `color` from now on.
    fn set_fill_color(&mut self, color: Color)
        ensures
            *final(self) == old(self).with_fill_color(color),
    ;
}

/// A node with a stroke colour: the colour of its outline.
pub trait NodeStrokeColor: Sized {
    /// The colour of the node's outline.
    spec fn stroke_color_spec(&self) -> Color;

    /// The node outlined in `color` instead.
    spec fn with_stroke_color(&self, color: Color) -> Self;

    /// The colour of the node's outline.
    fn get_stroke_color(&self) -> (color: &Color)
        ensures
            *color == self.stroke_color_spec(),
    ;

    /// Outlines the node in `color` from now on.
    fn set_stroke_color(&mut self, color: Color)
        ensures
            *final(self) == old(self).with_stroke_color(color),
    ;
}

/// A node with a stroke width: the thickness of its outline or, for a node
/// without a fill, of the node itself.
pub trait NodeStrokeWidth: Sized {
    /// The thickness of the node's outline.
    spec fn stroke_width_spec(&self) -> usize;

    /// The node with an outline of thickness `width` instead.
    spec fn with_stroke_width(&self, width: usize) -> Self;

    /// The thickness of the node's outline.
    fn get_stroke_width(&self) -> (width: usize)
        ensures
            width == self.stroke_width_spec(),
    ;

    /// Gives the node's outline the thickness `width` from now on.
    fn set_stroke_width(&mut self, width: usize)
        ensures
            *final(self) == old(self).with_stroke_width(width),
    ;
}

} // verus!
