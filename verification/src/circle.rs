//! The `CircleNode`: a filled circle.

use vstd::prelude::*;
use crate::color::Color;
use crate::component::{DrawComponent, FillColorComponent, PositionComponent};
use crate::convert::{plot, widen};
use crate::texture::Texture;

verus! {

/// A node that stands for a filled circle: its centre, its radius and its
/// fill colour.
///
/// `x` and `y` name the centre. The position that `PositionComponent` speaks
/// of is the top-left corner of the square around the circle, `radius` to the
/// left of the centre and `radius` above it.
#[derive(Copy, Clone, Debug, PartialEq, Eq, Structural)]
pub struct CircleNode {
    /// The column of the centre.
    pub x: usize,
    /// The row of the centre.
    pub y: usize,
    /// The distance from the centre to the edge.
    pub radius: usize,
    /// The colour that the circle is filled with.
    pub fill_color: Color,
}

/// Whether a point that lies `dx` columns and `dy` rows from the centre of a
/// circle of the given radius is inside the circle or on its edge.
pub open spec fn in_reach(dx: int, dy: int, radius: int) -> bool {
    dx * dx + dy * dy <= radius * radius
}

/// The distance of `offset` from zero.
fn magnitude(offset: i128) -> (distance: u128)
    requires
        -0x1_0000_0000_0000_0000 < offset < 0x1_0000_0000_0000_0000,
    ensures
        distance == if offset < 0 {
            -offset
        } else {
            offset as int
        },
{
    if offset < 0 {
        (-offset) as u128
    } else {
        offset as u128
    }
}

/// Decides whether a point `dx` columns and `dy` rows from the centre lies
/// within `radius` of it, by comparing squared distances.
///
/// The offsets and the radius are differences of pixel coordinates, so each
/// is less than 2^64 in size; no such numbers make the comparison overflow.
pub fn within_radius(dx: i128, dy: i128, radius: i128) -> (inside: bool)
    requires
        -0x1_0000_0000_0000_0000 < dx < 0x1_0000_0000_0000_0000,
        -0x1_0000_0000_0000_0000 < dy < 0x1_0000_0000_0000_0000,
        0 <= radius < 0x1_0000_0000_0000_0000,
    ensures
        inside == in_reach(dx as int, dy as int, radius as int),
{
    let across = magnitude(dx);
    let down = magnitude(dy);
    let reach = magnitude(radius);
    proof {
        let ax = across as int;
        let ay = down as int;
        let r = reach as int;
        assert(ax * ax == dx * dx && ay * ay == dy * dy) by (nonlinear_arith)
            requires
                ax == dx || ax == -dx,
                ay == dy || ay == -dy,
        ;
        assert(0 <= ax * ax && 0 <= ay * ay) by (nonlinear_arith);
        assert(r * r <= 0xFFFF_FFFF_FFFF_FFFF * 0xFFFF_FFFF_FFFF_FFFF) by (nonlinear_arith)
            requires
                0 <= r <= 0xFFFF_FFFF_FFFF_FFFF,
        ;
        if ax > r {
            assert(ax * ax > r * r) by (nonlinear_arith)
                requires
                    0 <= r < ax,
            ;
        } else {
            assert(ax * ax <= r * r) by (nonlinear_arith)
                requires
                    0 <= ax <= r,
            ;
        }
        if ay > r {
            assert(ay * ay > r * r) by (nonlinear_arith)
                requires
                    0 <= r < ay,
            ;
        } else {
            assert(ay * ay <= r * r) by (nonlinear_arith)
                requires
                    0 <= ay <= r,
            ;
        }
    }
    if across > reach || down > reach {
        return false;
    }
    down * down <= reach * reach - across * across
}

impl CircleNode {
    /// A circle around the centre in column `x` of row `y` with the given
    /// radius, filled with `fill_color`.
    pub fn new(x: usize, y: usize, radius: usize, fill_color: Color) -> (node: CircleNode)
        ensures
            node == (CircleNode { x, y, radius, fill_color }),
    {
        CircleNode { x, y, radius, fill_color }
    }

    /// Whether column `px` of row `py` lies in the circle: no further from
    /// the centre than the radius.
    pub open spec fn covers(&self, px: int, py: int) -> bool {
        in_reach(px - self.x, py - self.y, self.radius as int)
    }
}

/// A point further than the radius from the centre along one axis alone is
/// outside the circle.
pub proof fn lemma_out_of_reach(dx: int, dy: int, radius: int)
    requires
        0 <= radius,
        dx < -radius || dx > radius || dy < -radius || dy > radius,
    ensures
        !in_reach(dx, dy, radius),
{
    assert(dx * dx >= 0 && dy * dy >= 0) by (nonlinear_arith);
    if dx < -radius || dx > radius {
        assert(dx * dx > radius * radius) by (nonlinear_arith)
            requires
                0 <= radius,
                dx < -radius || dx > radius,
        ;
    } else {
        assert(dy * dy > radius * radius) by (nonlinear_arith)
            requires
                0 <= radius,
                dy < -radius || dy > radius,
        ;
    }
}

impl CircleNode {
    /// A circle covers its centre, whatever its radius.
    pub proof fn lemma_covers_centre(&self)
        ensures
            self.covers(self.x as int, self.y as int),
    {
        let r = self.radius as int;
        assert(0 * 0 + 0 * 0 <= r * r) by (nonlinear_arith);
    }

    /// Every pixel of a circle lies in the square around it: within the
    /// radius of the centre along each axis.
    pub proof fn lemma_covers_within_square(&self, px: int, py: int)
        requires
            self.covers(px, py),
        ensures
            self.x - self.radius <= px <= self.x + self.radius,
            self.y - self.radius <= py <= self.y + self.radius,
    {
        if !(self.x - self.radius <= px <= self.x + self.radius && self.y - self.radius <= py
            <= self.y + self.radius) {
            lemma_out_of_reach(px - self.x, py - self.y, self.radius as int);
        }
    }

    /// A circle is symmetric about its centre: it covers a pixel exactly
    /// when it covers the pixel's mirror image in the centre's column, in
    /// the centre's row, and on the diagonal through the centre.
    pub proof fn lemma_symmetric(&self, dx: int, dy: int)
        ensures
            self.covers(self.x + dx, self.y + dy) == self.covers(self.x - dx, self.y + dy),
            self.covers(self.x + dx, self.y + dy) == self.covers(self.x + dx, self.y - dy),
            self.covers(self.x + dx, self.y + dy) == self.covers(self.x + dy, self.y + dx),
    {
        assert((-dx) * (-dx) == dx * dx) by (nonlinear_arith);
        assert((-dy) * (-dy) == dy * dy) by (nonlinear_arith);
    }
}

impl DrawComponent for CircleNode {
    open spec fn painted(&self, x: int, y: int) -> Option<Color> {
        if self.covers(x, y) {
            Some(self.fill_color)
        } else {
            None
        }
    }

    /// Fills the circle: scans the square around it, as far as the square
    /// lies on the texture, and writes every pixel that is within the radius
    /// of the centre.
    #[verifier::loop_isolation(false)]
    fn draw(&self, texture: &mut Texture) {
        let ghost before = texture@;
        proof {
            texture.lemma_well_formed();
        }
        let center_x = widen(self.x);
        let center_y = widen(self.y);
        let radius = widen(self.radius);
        let width = widen(texture.get_width());
        let height = widen(texture.get_height());
        let left_x = if center_x - radius < 0 {
            0
        } else {
            center_x - radius
        };
        let right_x = if center_x + radius < width - 1 {
            center_x + radius
        } else {
            width - 1
        };
        let top_y = if center_y - radius < 0 {
            0
        } else {
            center_y - radius
        };
        let bottom_y = if center_y + radius < height - 1 {
            center_y + radius
        } else {
            height - 1
        };
        let mut y = top_y;
        while y <= bottom_y
            invariant
                top_y <= y,
                bottom_y < top_y || y <= bottom_y + 1,
                texture@.wf(),
                texture@.width == before.width,
                texture@.height == before.height,
                forall|qx: int, qy: int|
                    before.in_bounds(qx, qy) ==> #[trigger] texture@.at(qx, qy) == if self.covers(
                        qx,
                        qy,
                    ) && top_y <= qy < y && left_x <= qx <= right_x {
                        self.fill_color
                    } else {
                        before.at(qx, qy)
                    },
            decreases bottom_y + 1 - y,
        {
            let mut x = left_x;
            while x <= right_x
                invariant
                    top_y <= y <= bottom_y,
                    left_x <= x,
                    right_x < left_x || x <= right_x + 1,
                    texture@.wf(),
                    texture@.width == before.width,
                    texture@.height == before.height,
                    forall|qx: int, qy: int|
                        before.in_bounds(qx, qy) ==> #[trigger] texture@.at(qx, qy) == if self.covers(
                            qx,
                            qy,
                        ) && left_x <= qx <= right_x && (top_y <= qy < y || (qy == y && qx < x)) {
                            self.fill_color
                        } else {
                            before.at(qx, qy)
                        },
                decreases right_x + 1 - x,
            {
                let ghost earlier = texture@;
                let inside = within_radius(x - center_x, y - center_y, radius);
                if inside {
                    plot(texture, x, y, self.fill_color);
                }
                proof {
                    texture.lemma_well_formed();
                    assert forall|qx: int, qy: int| before.in_bounds(qx, qy) implies #[trigger] texture@.at(
                        qx,
                        qy,
                    ) == if self.covers(qx, qy) && left_x <= qx <= right_x && (top_y <= qy < y || (qy
                        == y && qx < x + 1)) {
                        self.fill_color
                    } else {
                        before.at(qx, qy)
                    } by {
                        if inside {
                            if qx == x && qy == y {
                                earlier.lemma_set_then_get(qx, qy, self.fill_color);
                            } else {
                                earlier.lemma_set_keeps_others(
                                    x as int,
                                    y as int,
                                    self.fill_color,
                                    qx,
                                    qy,
                                );
                            }
                        }
                    }
                }
                x += 1;
            }
            y += 1;
        }
        proof {
            assert forall|qx: int, qy: int| before.in_bounds(qx, qy) implies #[trigger] texture@.at(
                qx,
                qy,
            ) == match self.painted(qx, qy) {
                Some(color) => color,
                None => before.at(qx, qy),
            } by {
                if !(top_y <= qy <= bottom_y && left_x <= qx <= right_x) {
                    lemma_out_of_reach(qx - self.x, qy - self.y, self.radius as int);
                }
            }
        }
    }
}

impl FillColorComponent for CircleNode {
    open spec fn fill_color_spec(&self) -> Color {
        self.fill_color
    }

    open spec fn with_fill_color(&self, color: Color) -> Self {
        CircleNode { fill_color: color, ..*self }
    }

    fn get_fill_color(&self) -> (color: &Color) {
        &self.fill_color
    }

    fn set_fill_color(&mut self, color: Color) {
        self.fill_color = color;
    }
}

impl PositionComponent for CircleNode {
    /// The column of the left edge of the square around the circle, or 0
    /// where that edge would lie left of column 0.
    open spec fn x_spec(&self) -> usize {
        if self.x >= self.radius {
            (self.x - self.radius) as usize
        } else {
            0
        }
    }

    /// The row of the top edge of the square around the circle, or 0 where
    /// that edge would lie above row 0.
    open spec fn y_spec(&self) -> usize {
        if self.y >= self.radius {
            (self.y - self.radius) as usize
        } else {
            0
        }
    }

    /// The circle with its centre `radius` columns right of `x`, or in the
    /// last column that a `usize` can name where that is not far enough.
    open spec fn with_x(&self, x: usize) -> Self {
        CircleNode {
            x: if x + self.radius > usize::MAX {
                usize::MAX
            } else {
                (x + self.radius) as usize
            },
            ..*self
        }
    }

    /// The circle with its centre `radius` rows below `y`, or in the last
    /// row that a `usize` can name where that is not far enough.
    open spec fn with_y(&self, y: usize) -> Self {
        CircleNode {
            y: if y + self.radius > usize::MAX {
                usize::MAX
            } else {
                (y + self.radius) as usize
            },
            ..*self
        }
    }

    fn get_x(&self) -> (x: usize) {
        self.x.saturating_sub(self.radius)
    }

    fn get_y(&self) -> (y: usize) {
        self.y.saturating_sub(self.radius)
    }

    fn set_x(&mut self, x: usize) {
        self.x = x.saturating_add(self.radius);
    }

    fn set_y(&mut self, y: usize) {
        self.y = y.saturating_add(self.radius);
    }
}

} // verus!
