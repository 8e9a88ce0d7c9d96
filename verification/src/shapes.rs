//! Geometry of the world: points on an integer grid, offsets between them,
//! and the circles that nodes are drawn as.
//!
//! One unit is whatever the embedding application maps a pixel to at zoom 1.
//! Coordinates are `i64`; a sum or difference that leaves that range stops at
//! its edge, so no operation here can overflow.

use vstd::prelude::*;

verus! {

/// A position in the world.
#[derive(Clone, Copy, Debug, PartialEq, Eq, Structural)]
pub struct Point {
    pub x: i64,
    pub y: i64,
}

/// A displacement between two positions.
#[derive(Clone, Copy, Debug, PartialEq, Eq, Structural)]
pub struct Vec2 {
    pub x: i64,
    pub y: i64,
}

/// A circle: the extent of a node, for drawing and for hit testing.
#[derive(Clone, Copy, Debug, PartialEq, Eq, Structural)]
pub struct Circle {
    pub center: Point,
    pub radius: u32,
}

/// The coordinate nearest to `v` that an `i64` can hold.
pub open spec fn clamp_coordinate(v: int) -> int {
    if v < i64::MIN {
        i64::MIN as int
    } else if v > i64::MAX {
        i64::MAX as int
    } else {
        v
    }
}

/// The square of the distance between `p` and `q`.
pub open spec fn distance_squared(p: Point, q: Point) -> int {
    (p.x - q.x) * (p.x - q.x) + (p.y - q.y) * (p.y - q.y)
}

/// `point` lies strictly inside `circle`. A point on the boundary is outside.
pub open spec fn spec_in_circle(point: Point, circle: Circle) -> bool {
    distance_squared(point, circle.center) < circle.radius * circle.radius
}

fn clamp_to_coordinate(v: i128) -> (r: i64)
    ensures
        r == clamp_coordinate(v as int),
{
    if v < i64::MIN as i128 {
        i64::MIN
    } else if v > i64::MAX as i128 {
        i64::MAX
    } else {
        v as i64
    }
}

impl Point {
    pub fn new(x: i64, y: i64) -> (p: Point)
        ensures
            p == (Point { x, y }),
    {
        Point { x, y }
    }

    /// The offset that leads from `origin` to `self`.
    pub open spec fn spec_offset_from(self, origin: Point) -> Vec2 {
        Vec2 {
            x: clamp_coordinate(self.x - origin.x) as i64,
            y: clamp_coordinate(self.y - origin.y) as i64,
        }
    }

    /// The point that `offset` leads to from `self`.
    pub open spec fn spec_translate(self, offset: Vec2) -> Point {
        Point {
            x: clamp_coordinate(self.x + offset.x) as i64,
            y: clamp_coordinate(self.y + offset.y) as i64,
        }
    }

    /// The offset that leads from `origin` to `self`.
    pub fn offset_from(self, origin: Point) -> (offset: Vec2)
        ensures
            offset == self.spec_offset_from(origin),
    {
        Vec2 {
            x: clamp_to_coordinate(self.x as i128 - origin.x as i128),
            y: clamp_to_coordinate(self.y as i128 - origin.y as i128),
        }
    }

    /// The point that `offset` leads to from `self`.
    pub fn translate(self, offset: Vec2) -> (p: Point)
        ensures
            p == self.spec_translate(offset),
    {
        Point {
            x: clamp_to_coordinate(self.x as i128 + offset.x as i128),
            y: clamp_to_coordinate(self.y as i128 + offset.y as i128),
        }
    }
}

impl Vec2 {
    pub fn new(x: i64, y: i64) -> (v: Vec2)
        ensures
            v == (Vec2 { x, y }),
    {
        Vec2 { x, y }
    }
}

impl Circle {
    /// The circle of the given radius, which is positive, around `center`.
    pub fn new(center: Point, radius: u32) -> (c: Circle)
        requires
            radius > 0,
        ensures
            c == (Circle { center, radius }),
            c.wf(),
    {
        Circle { center, radius }
    }

    /// A circle has a positive radius.
    pub open spec fn wf(self) -> bool {
        self.radius > 0
    }
}

proof fn lemma_square_bounds(d: int, r: int)
    requires
        0 <= r,
    ensures
        d * d >= 0,
        (d >= r || d <= -r) ==> d * d >= r * r,
        (-r < d < r) ==> d * d < r * r,
{
    assert(d * d >= 0) by (nonlinear_arith);
    assert((d >= r || d <= -r) ==> d * d >= r * r) by (nonlinear_arith)
        requires
            0 <= r,
    ;
    assert((-r < d < r) ==> d * d < r * r) by (nonlinear_arith)
        requires
            0 <= r,
    ;
}

/// Whether `point` lies strictly inside `circle`.
pub fn in_circle(point: &Point, circle: &Circle) -> (hit: bool)
    ensures
        hit == spec_in_circle(*point, *circle),
{
    let r: i128 = circle.radius as i128;
    let dx: i128 = point.x as i128 - circle.center.x as i128;
    let dy: i128 = point.y as i128 - circle.center.y as i128;
    proof {
        lemma_square_bounds(dx as int, r as int);
        lemma_square_bounds(dy as int, r as int);
        assert(r * r <= 0xffff_ffff * 0xffff_ffff) by (nonlinear_arith)
            requires
                0 <= r <= 0xffff_ffff,
        ;
    }
    if dx >= r || dx <= -r || dy >= r || dy <= -r {
        false
    } else {
        dx * dx + dy * dy < r * r
    }
}

/// The offset from `b` to `a`, added to `b`, leads back to `a` wherever
/// nothing was clamped on the way.
pub proof fn lemma_offset_round_trip(a: Point, b: Point)
    requires
        i64::MIN <= a.x - b.x <= i64::MAX,
        i64::MIN <= a.y - b.y <= i64::MAX,
    ensures
        b.spec_translate(a.spec_offset_from(b)) == a,
{
}

/// A point at distance exactly `radius` from the centre is not inside, and
/// the centre itself is inside whenever the radius is positive.
pub proof fn lemma_boundary_is_outside(point: Point, circle: Circle)
    ensures
        distance_squared(point, circle.center) == circle.radius * circle.radius ==> !spec_in_circle(
            point,
            circle,
        ),
        distance_squared(point, circle.center) < circle.radius * circle.radius ==> spec_in_circle(
            point,
            circle,
        ),
        circle.wf() ==> spec_in_circle(circle.center, circle),
{
    assert(circle.radius > 0 ==> circle.radius * circle.radius > 0) by (nonlinear_arith);
}

} // verus!
