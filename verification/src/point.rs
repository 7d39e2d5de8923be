//! Renderable points, their rendering attributes, and the midpoint rule that
//! drives every step of the chaos game.

use vstd::prelude::*;

verus! {

/// Width of the screen; every randomly placed point has `x` in `[0, SCREEN_WIDTH)`.
pub const SCREEN_WIDTH: u32 = 800;

/// Height of the screen; every randomly placed point has `y` in `[0, SCREEN_HEIGHT)`.
pub const SCREEN_HEIGHT: u32 = 800;

/// Side length of the square drawn for an ordinary tracer point.
pub const TRACER_SIDE: u32 = 1;

/// An RGB color, carried by every point as a rendering attribute.
#[derive(Clone, Copy, Debug, PartialEq, Eq, Structural)]
pub struct Color {
    pub r: u8,
    pub g: u8,
    pub b: u8,
}

/// The color of ordinary tracer points.
pub open spec fn white_spec() -> Color {
    Color { r: 255, g: 255, b: 255 }
}

/// The color of the vertex markers in the default configuration.
pub open spec fn green_spec() -> Color {
    Color { r: 0, g: 255, b: 0 }
}

impl Color {
    /// The color of ordinary tracer points.
    pub fn white() -> (c: Color)
        ensures
            c == white_spec(),
    {
        Color { r: 255, g: 255, b: 255 }
    }

    /// The color of the vertex markers in the default configuration.
    pub fn green() -> (c: Color)
        ensures
            c == green_spec(),
    {
        Color { r: 0, g: 255, b: 0 }
    }
}

/// A 2-D position together with the attributes the renderer needs to draw it:
/// the size of the square to fill and its color. The attributes never change
/// once a point is created.
#[derive(Clone, Copy, Debug, PartialEq, Eq, Structural)]
pub struct Point {
    pub x: u32,
    pub y: u32,
    pub width: u32,
    pub height: u32,
    pub color: Color,
}

/// The point lies inside the screen, `[0, SCREEN_WIDTH) x [0, SCREEN_HEIGHT)`.
pub open spec fn in_screen(p: Point) -> bool {
    p.x < SCREEN_WIDTH && p.y < SCREEN_HEIGHT
}

/// The point lies inside the axis-aligned box `[x_lo, x_hi] x [y_lo, y_hi]`.
pub open spec fn in_box(p: Point, x_lo: int, x_hi: int, y_lo: int, y_hi: int) -> bool {
    x_lo <= p.x <= x_hi && y_lo <= p.y <= y_hi
}

/// The point carries the fixed attributes of an ordinary tracer point.
pub open spec fn tracer_styled(p: Point) -> bool {
    p.width == TRACER_SIDE && p.height == TRACER_SIDE && p.color == white_spec()
}

/// The point carries the given marker attributes.
pub open spec fn marker_styled(p: Point, width: u32, height: u32, color: Color) -> bool {
    p.width == width && p.height == height && p.color == color
}

/// Coordinate-wise midpoint: the arithmetic mean, with the fractional half
/// dropped. Both coordinates are non-negative, so dropping the fraction is
/// the deliberate floor quantization of the recurrence.
pub open spec fn mid_coord(a: u32, b: u32) -> int {
    (a + b) / 2
}

/// The point one step produces from `origin` and the chosen `target`: its
/// coordinates are the midpoint of the two inputs, and its rendering
/// attributes are the fixed tracer attributes, inherited from neither input.
pub open spec fn midpoint_spec(origin: Point, target: Point) -> Point {
    Point {
        x: mid_coord(origin.x, target.x) as u32,
        y: mid_coord(origin.y, target.y) as u32,
        width: TRACER_SIDE,
        height: TRACER_SIDE,
        color: white_spec(),
    }
}

/// The midpoint of two coordinates never leaves an interval containing both.
pub proof fn lemma_mid_coord_between(a: u32, b: u32)
    ensures
        mid_coord(a, b) >= (if a <= b { a as int } else { b as int }),
        mid_coord(a, b) <= (if a <= b { b as int } else { a as int }),
        0 <= mid_coord(a, b) <= u32::MAX,
{
}

/// The midpoint of two equal coordinates is that coordinate exactly, despite
/// the floor quantization.
pub proof fn lemma_mid_coord_of_equal(a: u32)
    ensures
        mid_coord(a, a) == a as int,
{
}

/// When the origin lies at or beyond the target on an axis, one application
/// of the midpoint rule exactly halves (rounding down) the distance to the
/// target on that axis.
pub proof fn lemma_mid_coord_halves_distance(a: u32, b: u32)
    requires
        b <= a,
    ensures
        mid_coord(a, b) - b == (a - b) / 2,
{
    assert((a + b) / 2 - b == (a - b) / 2) by {
        assert((a + b) == 2 * (b as int) + (a - b));
        assert((2 * (b as int) + (a - b)) / 2 == b + (a - b) / 2) by (nonlinear_arith);
    }
}

/// One coordinate of the midpoint rule: the mean of `a` and `b`, floored.
pub fn mid_of(a: u32, b: u32) -> (m: u32)
    ensures
        m as int == mid_coord(a, b),
{
    let sum: u64 = a as u64 + b as u64;
    proof {
        lemma_mid_coord_between(a, b);
    }
    (sum / 2) as u32
}

/// Law (midpoint correctness): the produced point's coordinates are exactly
/// the floored means of the inputs' coordinates, and its rendering
/// attributes are the fixed tracer attributes, independent of both inputs.
pub fn midpoint(origin: &Point, target: &Point) -> (p: Point)
    ensures
        p == midpoint_spec(*origin, *target),
        p.x as int == mid_coord(origin.x, target.x),
        p.y as int == mid_coord(origin.y, target.y),
        tracer_styled(p),
{
    let x = mid_of(origin.x, target.x);
    let y = mid_of(origin.y, target.y);
    proof {
        lemma_mid_coord_between(origin.x, target.x);
        lemma_mid_coord_between(origin.y, target.y);
    }
    Point { x, y, width: TRACER_SIDE, height: TRACER_SIDE, color: Color::white() }
}

/// Law (containment): a produced point lies in every axis-aligned box that
/// contains both the origin and the chosen target. With the box taken as the
/// screen, tracer points stay on screen as long as the origin and all
/// vertices are on screen.
pub proof fn lemma_midpoint_containment(
    origin: Point,
    target: Point,
    x_lo: int,
    x_hi: int,
    y_lo: int,
    y_hi: int,
)
    requires
        x_lo <= origin.x <= x_hi,
        x_lo <= target.x <= x_hi,
        y_lo <= origin.y <= y_hi,
        y_lo <= target.y <= y_hi,
    ensures
        x_lo <= midpoint_spec(origin, target).x <= x_hi,
        y_lo <= midpoint_spec(origin, target).y <= y_hi,
{
    lemma_mid_coord_between(origin.x, target.x);
    lemma_mid_coord_between(origin.y, target.y);
}

/// Law (containment, screen bounds): a produced point is on screen whenever
/// the origin and the chosen target are.
pub proof fn lemma_midpoint_in_screen(origin: Point, target: Point)
    requires
        in_screen(origin),
        in_screen(target),
    ensures
        in_screen(midpoint_spec(origin, target)),
{
    lemma_midpoint_containment(
        origin,
        target,
        0,
        SCREEN_WIDTH - 1,
        0,
        SCREEN_HEIGHT - 1,
    );
}

/// Law (degenerate vertex set): a target is a fixed point of the midpoint
/// rule. Once the tracer sits exactly on the single vertex, every further
/// step keeps it there.
pub proof fn lemma_midpoint_fixed_point(origin: Point, target: Point)
    requires
        origin.x == target.x,
        origin.y == target.y,
    ensures
        midpoint_spec(origin, target).x == target.x,
        midpoint_spec(origin, target).y == target.y,
{
    lemma_mid_coord_of_equal(target.x);
    lemma_mid_coord_of_equal(target.y);
}

/// Law (style independence): a produced point carries the fixed tracer
/// attributes, so its size or color differs from the chosen vertex's
/// whenever that vertex is not itself styled as a tracer point.
pub proof fn lemma_style_independence(origin: Point, target: Point)
    requires
        !tracer_styled(target),
    ensures
        midpoint_spec(origin, target).width != target.width
            || midpoint_spec(origin, target).height != target.height
            || midpoint_spec(origin, target).color != target.color,
{
}

} // verus!
