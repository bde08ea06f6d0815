//! The `LineNode`: a straight line between two pixels.

use vstd::prelude::*;
use crate::color::Color;
use crate::component::{DrawComponent, NodeStrokeColor};
use crate::convert::{plot, widen};
use crate::texture::Texture;

verus! {

/// A node that stands for a line from the pixel (`x1`, `y1`) to the pixel
/// (`x2`, `y2`), one pixel thick.
#[derive(Copy, Clone, Debug, PartialEq, Eq, Structural)]
pub struct LineNode {
    /// The column of the start of the line.
    pub x1: usize,
    /// The row of the start of the line.
    pub y1: usize,
    /// The column of the end of the line.
    pub x2: usize,
    /// The row of the end of the line.
    pub y2: usize,
    /// The colour of the line.
    pub color: Color,
}

/// Whether `v` is the whole number nearest to `u * minor / major`, a half
/// counting upwards: `v - 1/2 <= u * minor / major < v + 1/2`.
///
/// On a line that advances `major` steps along one axis and `minor` steps
/// along the other, this makes `v` the step across at step `u` along. A line
/// of no length has only its starting point.
pub open spec fn on_track(major: int, minor: int, u: int, v: int) -> bool {
    if major == 0 {
        v == 0
    } else {
        -major < 2 * (major * v - minor * u) <= major
    }
}

impl LineNode {
    /// A line from (`x1`, `y1`) to (`x2`, `y2`) in the colour `color`.
    pub fn new(x1: usize, y1: usize, x2: usize, y2: usize, color: Color) -> (node: LineNode)
        ensures
            node == (LineNode { x1, y1, x2, y2, color }),
    {
        LineNode { x1, y1, x2, y2, color }
    }

    /// How many columns lie between the two ends.
    pub open spec fn span_x(&self) -> int {
        if self.x1 < self.x2 {
            self.x2 - self.x1
        } else {
            self.x1 - self.x2
        }
    }

    /// How many rows lie between the two ends.
    pub open spec fn span_y(&self) -> int {
        if self.y1 < self.y2 {
            self.y2 - self.y1
        } else {
            self.y1 - self.y2
        }
    }

    /// How many columns `px` lies from the start, counted towards the end.
    pub open spec fn along_x(&self, px: int) -> int {
        if self.x1 < self.x2 {
            px - self.x1
        } else {
            self.x1 - px
        }
    }

    /// How many rows `py` lies from the start, counted towards the end.
    pub open spec fn along_y(&self, py: int) -> int {
        if self.y1 < self.y2 {
            py - self.y1
        } else {
            self.y1 - py
        }
    }

    /// Whether the line runs through more columns than rows, or as many.
    pub open spec fn is_shallow(&self) -> bool {
        self.span_x() >= self.span_y()
    }

    /// How far along the line the pixel lies, counted in columns on a
    /// shallow line and in rows on a steep one.
    pub open spec fn progress(&self, px: int, py: int) -> int {
        if self.is_shallow() {
            self.along_x(px)
        } else {
            self.along_y(py)
        }
    }

    /// Whether column `px` of row `py` is a pixel of the line.
    ///
    /// A shallow line has one pixel in each column between its ends: the one
    /// whose row is nearest to the ideal segment. A steep line has one pixel
    /// in each row between its ends: the one whose column is nearest. Where
    /// the segment passes midway between two pixels, the one further along
    /// is taken.
    pub open spec fn covers(&self, px: int, py: int) -> bool {
        if self.is_shallow() {
            &&& 0 <= self.along_x(px) <= self.span_x()
            &&& on_track(self.span_x(), self.span_y(), self.along_x(px), self.along_y(py))
        } else {
            &&& 0 <= self.along_y(py) <= self.span_y()
            &&& on_track(self.span_y(), self.span_x(), self.along_y(py), self.along_x(px))
        }
    }

    /// Whether column `px` of row `py` is a pixel of the line that lies fewer
    /// than `steps` steps from the start.
    spec fn covers_before(&self, px: int, py: int, steps: int) -> bool {
        self.covers(px, py) && self.progress(px, py) < steps
    }
}

/// At each step along there is one step across that is on track, no more.
pub proof fn lemma_track_unique(major: int, minor: int, u: int, v1: int, v2: int)
    requires
        0 <= major,
        on_track(major, minor, u, v1),
        on_track(major, minor, u, v2),
    ensures
        v1 == v2,
{
    if major > 0 && v1 != v2 {
        assert(major * v1 - major * v2 >= major || major * v2 - major * v1 >= major)
            by (nonlinear_arith)
            requires
                major > 0,
                v1 != v2,
        ;
    }
}

/// A point on track lies between the two ends across as well.
pub proof fn lemma_track_bounded(major: int, minor: int, u: int, v: int)
    requires
        0 <= minor,
        0 <= u <= major,
        on_track(major, minor, u, v),
    ensures
        0 <= v,
        minor <= major ==> v <= minor,
{
    if major > 0 {
        assert(0 <= minor * u <= minor * major) by (nonlinear_arith)
            requires
                0 <= minor,
                0 <= u <= major,
        ;
        assert(v >= 0) by (nonlinear_arith)
            requires
                major > 0,
                2 * (major * v) > -major,
        ;
        if minor <= major {
            assert(v <= minor) by (nonlinear_arith)
                requires
                    major > 0,
                    0 <= minor,
                    2 * (major * v) <= 2 * (minor * major) + major,
            ;
        }
    }
}

/// The two ends of a line are on track.
pub proof fn lemma_track_ends(major: int, minor: int)
    requires
        0 <= minor <= major,
    ensures
        on_track(major, minor, 0, 0),
        on_track(major, minor, major, minor),
{
    assert(major * 0 == 0 && minor * 0 == 0) by (nonlinear_arith);
    assert(major * minor == minor * major) by (nonlinear_arith);
}

/// The step across that is on track at step `u` along, in closed form: the
/// quotient rounds `u * minor / major` to the nearest whole number.
pub open spec fn track_at(major: int, minor: int, u: int) -> int {
    if major == 0 {
        0
    } else {
        (2 * (minor * u) + major) / (2 * major)
    }
}

/// At each step along, the step across that the closed form gives is on
/// track.
pub proof fn lemma_track_at(major: int, minor: int, u: int)
    requires
        0 <= major,
    ensures
        on_track(major, minor, u, track_at(major, minor, u)),
{
    if major > 0 {
        let n = 2 * (minor * u) + major;
        let d = 2 * major;
        let q = n / d;
        vstd::arithmetic::div_mod::lemma_fundamental_div_mod(n, d);
        vstd::arithmetic::div_mod::lemma_mod_bound(n, d);
        assert(d * q == 2 * (major * q)) by (nonlinear_arith)
            requires
                d == 2 * major,
        ;
    }
}

/// From one step along to the next, a line moves across by one step or not
/// at all.
pub proof fn lemma_track_steps(major: int, minor: int, u: int, v: int, next: int)
    requires
        0 <= minor <= major,
        on_track(major, minor, u, v),
        on_track(major, minor, u + 1, next),
    ensures
        v <= next <= v + 1,
{
    if major > 0 {
        assert(minor * (u + 1) == minor * u + minor) by (nonlinear_arith);
        if next < v {
            assert(major * v - major * next >= major) by (nonlinear_arith)
                requires
                    major > 0,
                    next + 1 <= v,
            ;
        }
        if next > v + 1 {
            assert(major * next - major * v >= 2 * major) by (nonlinear_arith)
                requires
                    major > 0,
                    next >= v + 2,
            ;
        }
    }
}

impl LineNode {
    /// A line covers both of its ends.
    pub proof fn lemma_covers_ends(&self)
        ensures
            self.covers(self.x1 as int, self.y1 as int),
            self.covers(self.x2 as int, self.y2 as int),
    {
        if self.is_shallow() {
            lemma_track_ends(self.span_x(), self.span_y());
        } else {
            lemma_track_ends(self.span_y(), self.span_x());
        }
    }

    /// Every pixel of a line lies between its ends, in both directions.
    pub proof fn lemma_covers_between_ends(&self, px: int, py: int)
        requires
            self.covers(px, py),
        ensures
            0 <= self.along_x(px) <= self.span_x(),
            0 <= self.along_y(py) <= self.span_y(),
            self.x1 <= px <= self.x2 || self.x2 <= px <= self.x1,
            self.y1 <= py <= self.y2 || self.y2 <= py <= self.y1,
    {
        if self.is_shallow() {
            lemma_track_bounded(self.span_x(), self.span_y(), self.along_x(px), self.along_y(py));
        } else {
            lemma_track_bounded(self.span_y(), self.span_x(), self.along_y(py), self.along_x(px));
        }
    }

    /// The row in which a shallow line crosses column `px`.
    pub open spec fn row_at(&self, px: int) -> int {
        let down = track_at(self.span_x(), self.span_y(), self.along_x(px));
        if self.y1 < self.y2 {
            self.y1 + down
        } else {
            self.y1 - down
        }
    }

    /// The column in which a steep line crosses row `py`.
    pub open spec fn column_at(&self, py: int) -> int {
        let across = track_at(self.span_y(), self.span_x(), self.along_y(py));
        if self.x1 < self.x2 {
            self.x1 + across
        } else {
            self.x1 - across
        }
    }

    /// A shallow line skips no column: in each column between its ends it
    /// has exactly one pixel, the one in row `row_at`.
    pub proof fn lemma_one_pixel_per_column(&self, px: int, py: int)
        requires
            self.is_shallow(),
            self.x1 <= px <= self.x2 || self.x2 <= px <= self.x1,
        ensures
            self.covers(px, py) <==> py == self.row_at(px),
    {
        let a = self.span_x();
        let b = self.span_y();
        let i = self.along_x(px);
        lemma_track_at(a, b, i);
        if self.covers(px, py) {
            lemma_track_unique(a, b, i, self.along_y(py), track_at(a, b, i));
        }
    }

    /// A steep line skips no row: in each row between its ends it has
    /// exactly one pixel, the one in column `column_at`.
    pub proof fn lemma_one_pixel_per_row(&self, px: int, py: int)
        requires
            !self.is_shallow(),
            self.y1 <= py <= self.y2 || self.y2 <= py <= self.y1,
        ensures
            self.covers(px, py) <==> px == self.column_at(py),
    {
        let a = self.span_x();
        let b = self.span_y();
        let j = self.along_y(py);
        lemma_track_at(b, a, j);
        if self.covers(px, py) {
            lemma_track_unique(b, a, j, self.along_x(px), track_at(b, a, j));
        }
    }

    /// The pixels of a line touch: two pixels that lie one step apart along
    /// the line are neighbours, side by side or corner to corner.
    pub proof fn lemma_pixels_touch(&self, px: int, py: int, qx: int, qy: int)
        requires
            self.covers(px, py),
            self.covers(qx, qy),
            self.progress(qx, qy) == self.progress(px, py) + 1,
        ensures
            -1 <= qx - px <= 1,
            -1 <= qy - py <= 1,
    {
        self.lemma_covers_between_ends(px, py);
        self.lemma_covers_between_ends(qx, qy);
        if self.is_shallow() {
            lemma_track_steps(
                self.span_x(),
                self.span_y(),
                self.along_x(px),
                self.along_y(py),
                self.along_y(qy),
            );
        } else {
            lemma_track_steps(
                self.span_y(),
                self.span_x(),
                self.along_y(py),
                self.along_x(px),
                self.along_x(qx),
            );
        }
    }
}

/// Draws the line from (`x1`, `y1`) to (`x2`, `y2`) onto `texture` with
/// Bresenham's algorithm, which walks from the start to the end one pixel at
/// a time and keeps the error against the ideal segment in whole numbers.
/// Points off the texture are skipped.
pub fn draw_line(texture: &mut Texture, x1: usize, y1: usize, x2: usize, y2: usize, color: Color)
    ensures
        old(texture)@.painted_over(
            final(texture)@,
            |x: int, y: int| (LineNode { x1, y1, x2, y2, color }).painted(x, y),
        ),
{
    let ghost line = LineNode { x1, y1, x2, y2, color };
    let ghost before = texture@;
    proof {
        texture.lemma_well_formed();
    }
    let x1i = widen(x1);
    let y1i = widen(y1);
    let x2i = widen(x2);
    let y2i = widen(y2);

    let dx: i128 = if x1i < x2i {
        x2i - x1i
    } else {
        x1i - x2i
    };
    let dy: i128 = if y1i < y2i {
        y1i - y2i
    } else {
        y2i - y1i
    };
    let sx: i128 = if x1 < x2 {
        1
    } else {
        -1
    };
    let sy: i128 = if y1 < y2 {
        1
    } else {
        -1
    };
    let mut err: i128 = dx + dy;
    let mut x: i128 = x1i;
    let mut y: i128 = y1i;

    let ghost a: int = line.span_x();
    let ghost b: int = line.span_y();
    // How many steps the walk has taken along each axis.
    let ghost mut i: int = 0;
    let ghost mut j: int = 0;
    proof {
        if a >= b {
            lemma_track_ends(a, b);
        } else {
            lemma_track_ends(b, a);
        }
        assert(a * 1 == a && b * 1 == b) by (nonlinear_arith);
    }

    loop
        invariant_except_break
            forall|px: int, py: int|
                before.in_bounds(px, py) ==> #[trigger] texture@.at(px, py) == if line.covers_before(
                    px,
                    py,
                    if a >= b { i } else { j },
                ) {
                    color
                } else {
                    before.at(px, py)
                },
        invariant
            dx == a,
            dy == -b,
            a == line.span_x(),
            b == line.span_y(),
            line == (LineNode { x1, y1, x2, y2, color }),
            x1i == x1,
            y1i == y1,
            x2i == x2,
            y2i == y2,
            sx == if x1 < x2 { 1int } else { -1int },
            sy == if y1 < y2 { 1int } else { -1int },
            0 <= i <= a,
            0 <= j <= b,
            x == if x1 < x2 { x1 + i } else { x1 - i },
            y == if y1 < y2 { y1 + j } else { y1 - j },
            err == a * (j + 1) - b * (i + 1),
            if a >= b {
                on_track(a, b, i, j)
            } else {
                on_track(b, a, j, i)
            },
            texture@.width == before.width,
            texture@.height == before.height,
            texture@.wf(),
            before.wf(),
        ensures
            before.painted_over(texture@, |x: int, y: int| line.painted(x, y)),
        decreases (a - i) + (b - j),
    {
        let ghost earlier = texture@;
        let ghost steps = if a >= b { i } else { j };
        plot(texture, x, y, color);
        proof {
            texture.lemma_well_formed();
            assert(line.covers(x as int, y as int));
            assert forall|px: int, py: int| before.in_bounds(px, py) implies #[trigger] texture@.at(
                px,
                py,
            ) == if line.covers_before(px, py, steps + 1) {
                color
            } else {
                before.at(px, py)
            } by {
                if px == x && py == y {
                    earlier.lemma_set_then_get(px, py, color);
                } else {
                    earlier.lemma_set_keeps_others(x as int, y as int, color, px, py);
                    if line.covers(px, py) && line.progress(px, py) == steps {
                        if a >= b {
                            lemma_track_unique(a, b, i, j, line.along_y(py));
                        } else {
                            lemma_track_unique(b, a, j, i, line.along_x(px));
                        }
                    }
                }
            }
        }
        if x == x2i && y == y2i {
            proof {
                assert forall|px: int, py: int| before.in_bounds(px, py) implies #[trigger] texture@.at(
                    px,
                    py,
                ) == match line.painted(px, py) {
                    Some(c) => c,
                    None => before.at(px, py),
                } by {
                }
            }
            break ;
        }
        proof {
            // Away from the end the walk has steps left along its main axis.
            if a >= b {
                if i == a {
                    lemma_track_ends(a, b);
                    lemma_track_unique(a, b, a, j, b);
                }
                assert(i < a);
            } else {
                if j == b {
                    lemma_track_ends(b, a);
                    lemma_track_unique(b, a, b, i, a);
                }
                assert(j < b);
            }
            assert(a * (j + 2) == a * (j + 1) + a) by (nonlinear_arith);
            assert(b * (i + 2) == b * (i + 1) + b) by (nonlinear_arith);
            assert(a * (j + 1) == a * j + a) by (nonlinear_arith);
            assert(b * (i + 1) == b * i + b) by (nonlinear_arith);
        }
        let e2 = 2 * err;
        if e2 >= dy {
            err += dy;
            x += sx;
            proof {
                i = i + 1;
            }
        }
        if e2 <= dx {
            err += dx;
            y += sy;
            proof {
                j = j + 1;
            }
        }
        proof {
            if a >= b {
                lemma_track_bounded(a, b, i, j);
            } else {
                lemma_track_bounded(b, a, j, i);
            }
        }
    }
}

impl DrawComponent for LineNode {
    open spec fn painted(&self, x: int, y: int) -> Option<Color> {
        if self.covers(x, y) {
            Some(self.color)
        } else {
            None
        }
    }

    /// Draws the line; see `draw_line`.
    fn draw(&self, texture: &mut Texture) {
        draw_line(texture, self.x1, self.y1, self.x2, self.y2, self.color);
    }
}

impl NodeStrokeColor for LineNode {
    open spec fn stroke_color_spec(&self) -> Color {
        self.color
    }

    open spec fn with_stroke_color(&self, color: Color) -> Self {
        LineNode { color, ..*self }
    }

    fn get_stroke_color(&self) -> (color: &Color) {
        &self.color
    }

    fn set_stroke_color(&mut self, color: Color) {
        self.color = color;
    }
}

} // verus!
