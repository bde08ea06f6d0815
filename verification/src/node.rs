//! The components under their `Node` names.
//!
//! Each trait here stands for one component: `NodeDraw` for `DrawComponent`,
//! `NodePosition` for `PositionComponent`, and so on. A node that has a
//! component has the matching trait here as well, with nothing more to
//! implement, so code written against either set of names works with every
//! node.

use vstd::prelude::*;
use crate::color::Color;
use crate::component::{
    DrawComponent, FillColorComponent, PositionComponent, SizeComponent,
};
use crate::texture::Texture;

verus! {

/// A node that can draw itself onto a texture: every `DrawComponent`.
pub trait NodeDraw {
    /// The colour that the node puts in column `x` of row `y`, or `None`
    /// where it leaves the pixel alone.
    spec fn node_painted(&self, x: int, y: int) -> Option<Color>;

    /// Draws the node onto `texture`, as `DrawComponent::draw` does.
    fn draw(&self, texture: &mut Texture)
        ensures
            old(texture)@.painted_over(final(texture)@, |x: int, y: int| self.node_painted(x, y)),
    ;
}

impl<N: DrawComponent> NodeDraw for N {
    open spec fn node_painted(&self, x: int, y: int) -> Option<Color> {
        self.painted(x, y)
    }

    fn draw(&self, texture: &mut Texture) {
        DrawComponent::draw(self, texture);
    }
}

/// A node with a position: every `PositionComponent`.
pub trait NodePosition: Sized {
    /// The column of the node's top-left corner.
    spec fn node_x(&self) -> usize;

    /// The row of the node's top-left corner.
    spec fn node_y(&self) -> usize;

    /// The node moved so that its top-left corner is in column `x`.
    spec fn moved_to_x(&self, x: usize) -> Self;

    /// The node moved so that its top-left corner is in row `y`.
    spec fn moved_to_y(&self, y: usize) -> Self;

    /// The column of the node's top-left corner.
    fn get_x(&self) -> (x: usize)
        ensures
            x == self.node_x(),
    ;

    /// The row of the node's top-left corner.
    fn get_y(&self) -> (y: usize)
        ensures
            y == self.node_y(),
    ;

    /// Moves the node so that its top-left corner is in column `x`.
    fn set_x(&mut self, x: usize)
        ensures
            *final(self) == old(self).moved_to_x(x),
    ;

    /// Moves the node so that its top-left corner is in row `y`.
    fn set_y(&mut self, y: usize)
        ensures
            *final(self) == old(self).moved_to_y(y),
    ;

    /// Moves the node so that its top-left corner is at `position`, given as
    /// (column, row).
    fn set_position(&mut self, position: (usize, usize))
        ensures
            *final(self) == old(self).moved_to_x(position.0).moved_to_y(position.1),
    {
        NodePosition::set_x(self, position.0);
        NodePosition::set_y(self, position.1);
    }

    /// The node's top-left corner as (column, row).
    fn get_position(&self) -> (position: (usize, usize))
        ensures
            position == (self.node_x(), self.node_y()),
    {
        (NodePosition::get_x(self), NodePosition::get_y(self))
    }
}

impl<N: PositionComponent> NodePosition for N {
    open spec fn node_x(&self) -> usize {
        self.x_spec()
    }

    open spec fn node_y(&self) -> usize {
        self.y_spec()
    }

    open spec fn moved_to_x(&self, x: usize) -> Self {
        self.with_x(x)
    }

    open spec fn moved_to_y(&self, y: usize) -> Self {
        self.with_y(y)
    }

    fn get_x(&self) -> (x: usize) {
        PositionComponent::get_x(self)
    }

    fn get_y(&self) -> (y: usize) {
        PositionComponent::get_y(self)
    }

    fn set_x(&mut self, x: usize) {
        PositionComponent::set_x(self, x);
    }

    fn set_y(&mut self, y: usize) {
        PositionComponent::set_y(self, y);
    }
}

/// A node with a size: every `SizeComponent`.
pub trait NodeSize: Sized {
    /// The width of the node.
    spec fn node_width(&self) -> usize;

    /// The height of the node.
    spec fn node_height(&self) -> usize;

    /// The node resized to the width `width`.
    spec fn resized_to_width(&self, width: usize) -> Self;

    /// The node resized to the height `height`.
    spec fn resized_to_height(&self, height: usize) -> Self;

    /// The width of the node.
    fn get_width(&self) -> (width: usize)
        ensures
            width == self.node_width(),
    ;

    /// The height of the node.
    fn get_height(&self) -> (height: usize)
        ensures
            height == self.node_height(),
    ;

    /// Resizes the node to the width `width`.
    fn set_width(&mut self, width: usize)
        ensures
            *final(self) == old(self).resized_to_width(width),
    ;

    /// Resizes the node to the height `height`.
    fn set_height(&mut self, height: usize)
        ensures
            *final(self) == old(self).resized_to_height(height),
    ;

    /// Resizes the node to `width` by `height`.
    fn set_size(&mut self, width: usize, height: usize)
        ensures
            *final(self) == old(self).resized_to_width(width).resized_to_height(height),
    {
        NodeSize::set_width(self, width);
        NodeSize::set_height(self, height);
    }

    /// The node's size as (width, height).
    fn get_size(&self) -> (size: (usize, usize))
        ensures
            size == (self.node_width(), self.node_height()),
    {
        (NodeSize::get_width(self), NodeSize::get_height(self))
    }
}

impl<N: SizeComponent> NodeSize for N {
    open spec fn node_width(&self) -> usize {
        self.width_spec()
    }

    open spec fn node_height(&self) -> usize {
        self.height_spec()
    }

    open spec fn resized_to_width(&self, width: usize) -> Self {
        self.with_width(width)
    }

    open spec fn resized_to_height(&self, height: usize) -> Self {
        self.with_height(height)
    }

    fn get_width(&self) -> (width: usize) {
        SizeComponent::get_width(self)
    }

    fn get_height(&self) -> (height: usize) {
        SizeComponent::get_height(self)
    }

    fn set_width(&mut self, width: usize) {
        SizeComponent::set_width(self, width);
    }

    fn set_height(&mut self, height: usize) {
        SizeComponent::set_height(self, height);
    }
}

/// A node with a fill colour: every `FillColorComponent`.
pub trait NodeFillColor: Sized {
    /// The colour that the node is filled with.
    spec fn node_fill_color(&self) -> Color;

    /// The node filled with `color` instead.
    spec fn filled_with(&self, color: Color) -> Self;

    /// The colour that the node is filled with.
    fn get_fill_color(&self) -> (color: &Color)
        ensures
            *color == self.node_fill_color(),
    ;

    /// Fills the node with `color` from now on.
    fn set_fill_color(&mut self, color: Color)
        ensures
            *final(self) == old(self).filled_with(color),
    ;
}

impl<N: FillColorComponent> NodeFillColor for N {
    open spec fn node_fill_color(&self) -> Color {
        self.fill_color_spec()
    }

    open spec fn filled_with(&self, color: Color) -> Self {
        self.with_fill_color(color)
    }

    fn get_fill_color(&self) -> (color: &Color) {
        FillColorComponent::get_fill_color(self)
    }

    fn set_fill_color(&mut self, color: Color) {
        FillColorComponent::set_fill_color(self, color);
    }
}

/// A node with a stroke colour, spoken of as the colour of its border:
/// every node with the stroke-colour component.
pub trait NodeStrokeColor: Sized {
    /// The colour of the node's border.
    spec fn border_color(&self) -> Color;

    /// The node with a border of the colour `color` instead.
    spec fn bordered_in(&self, color: Color) -> Self;

    /// The colour of the node's border.
    fn get_border_color(&self) -> (color: &Color)
        ensures
            *color == self.border_color(),
    ;

    /// Gives the node's border the colour `color` from now on.
    fn set_border_color(&mut self, color: Color)
        ensures
            *final(self) == old(self).bordered_in(color),
    ;
}

impl<N: crate::component::NodeStrokeColor> NodeStrokeColor for N {
    open spec fn border_color(&self) -> Color {
        self.stroke_color_spec()
    }

    open spec fn bordered_in(&self, color: Color) -> Self {
        self.with_stroke_color(color)
    }

    fn get_border_color(&self) -> (color: &Color) {
        crate::component::NodeStrokeColor::get_stroke_color(self)
    }

    fn set_border_color(&mut self, color: Color) {
        crate::component::NodeStrokeColor::set_stroke_color(self, color);
    }
}

/// A node with a stroke width, spoken of as the width of its border: every
/// node with the stroke-width component.
pub trait NodeStrokeWidth: Sized {
    /// The width of the node's border.
    spec fn border_width(&self) -> usize;

    /// The node with a border of the width `width` instead.
    spec fn bordered_by(&self, width: usize) -> Self;

    /// The width of the node's border.
    fn get_border_width(&self) -> (width: usize)
        ensures
            width == self.border_width(),
    ;

    /// Gives the node's border the width `width` from now on.
    fn set_border_width(&mut self, width: usize)
        ensures
            *final(self) == old(self).bordered_by(width),
    ;
}

impl<N: crate::component::NodeStrokeWidth> NodeStrokeWidth for N {
    open spec fn border_width(&self) -> usize {
        self.stroke_width_spec()
    }

    open spec fn bordered_by(&self, width: usize) -> Self {
        self.with_stroke_width(width)
    }

    fn get_border_width(&self) -> (width: usize) {
        crate::component::NodeStrokeWidth::get_stroke_width(self)
    }

    fn set_border_width(&mut self, width: usize) {
        crate::component::NodeStrokeWidth::set_stroke_width(self, width);
    }
}

} // verus!
