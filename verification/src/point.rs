//! Emitter positions.
//!
//! A `Point` is a three-dimensional position of an emitter in the scene;
//! a `Line` yields evenly spaced points along a segment, the usual way a
//! strip of emitters is laid out.

use vstd::prelude::*;

use crate::fixed::{spec_add, spec_lerp, spec_mul, spec_sub, tdiv, Fixed, SCALE};

verus! {

/// A position in three-dimensional space.
#[derive(Clone, Copy, Debug, PartialEq, Eq, Structural)]
pub struct Point {
    pub x: Fixed,
    pub y: Fixed,
    pub z: Fixed,
}

/// The mathematical value of a point: its three raw coordinate counts.
pub ghost struct PointModel {
    pub x: int,
    pub y: int,
    pub z: int,
}

impl View for Point {
    type V = PointModel;

    open spec fn view(&self) -> PointModel {
        PointModel { x: self.x@, y: self.y@, z: self.z@ }
    }
}

impl Point {
    /// A point from its coordinates.
    pub fn new(x: Fixed, y: Fixed, z: Fixed) -> (p: Point)
        ensures
            p@ == (PointModel { x: x@, y: y@, z: z@ }),
    {
        Point { x, y, z }
    }

    /// Coordinate-wise saturating sum.
    pub fn add(self, rhs: Point) -> (p: Point)
        ensures
            p@ == (PointModel {
                x: spec_add(self@.x, rhs@.x),
                y: spec_add(self@.y, rhs@.y),
                z: spec_add(self@.z, rhs@.z),
            }),
    {
        Point { x: self.x.add(rhs.x), y: self.y.add(rhs.y), z: self.z.add(rhs.z) }
    }

    /// Coordinate-wise saturating difference.
    pub fn sub(self, rhs: Point) -> (p: Point)
        ensures
            p@ == (PointModel {
                x: spec_sub(self@.x, rhs@.x),
                y: spec_sub(self@.y, rhs@.y),
                z: spec_sub(self@.z, rhs@.z),
            }),
    {
        Point { x: self.x.sub(rhs.x), y: self.y.sub(rhs.y), z: self.z.sub(rhs.z) }
    }

    /// Coordinate-wise saturating product.
    pub fn mul(self, rhs: Point) -> (p: Point)
        ensures
            p@ == (PointModel {
                x: spec_mul(self@.x, rhs@.x),
                y: spec_mul(self@.y, rhs@.y),
                z: spec_mul(self@.z, rhs@.z),
            }),
    {
        Point { x: self.x.mul(rhs.x), y: self.y.mul(rhs.y), z: self.z.mul(rhs.z) }
    }

    /// Every coordinate multiplied by one scalar.
    pub fn scale(self, k: Fixed) -> (p: Point)
        ensures
            p@ == (PointModel {
                x: spec_mul(self@.x, k@),
                y: spec_mul(self@.y, k@),
                z: spec_mul(self@.z, k@),
            }),
    {
        Point { x: self.x.mul(k), y: self.y.mul(k), z: self.z.mul(k) }
    }
}

impl Default for Point {
    /// The origin.
    fn default() -> (p: Point)
        ensures
            p@ == (PointModel { x: 0, y: 0, z: 0 }),
    {
        Point { x: Fixed { raw: 0 }, y: Fixed { raw: 0 }, z: Fixed { raw: 0 } }
    }
}

/// Interpolation factor of point `i` out of `n` evenly spaced points:
/// zero for a lone point, else `i / (n - 1)` of a full unit.
pub open spec fn line_factor(i: int, n: int) -> int {
    if n <= 1 {
        0
    } else {
        tdiv(i * SCALE, n - 1)
    }
}

/// The point the given interpolation factor selects on the segment.
pub open spec fn line_point(a: PointModel, b: PointModel, t: int) -> PointModel {
    PointModel {
        x: spec_lerp(a.x, b.x, t),
        y: spec_lerp(a.y, b.y, t),
        z: spec_lerp(a.z, b.z, t),
    }
}

/// Evenly spaced points along the segment from `a` to `b`, yielded one
/// at a time by `next`.
#[derive(Clone, Copy, Debug)]
pub struct Line {
    pub a: Point,
    pub b: Point,
    pub num_points: usize,
    pub current_point: usize,
}

impl Line {
    /// How many points have been yielded so far.
    pub open spec fn taken(&self) -> int {
        self.current_point as int
    }

    /// A line of `num_points` points from `a` to `b`, both endpoints
    /// included when there are at least two.
    pub fn new(a: Point, b: Point, num_points: usize) -> (l: Line)
        ensures
            l.a == a,
            l.b == b,
            l.num_points == num_points,
            l.taken() == 0,
    {
        Line { a, b, num_points, current_point: 0 }
    }

    /// The next point on the line, or nothing when all have been
    /// yielded.
    pub fn next(&mut self) -> (r: Option<Point>)
        ensures
            old(self).num_points == 0 || old(self).taken() >= old(self).num_points ==> r is None
                && *final (self) == *old(self),
            old(self).num_points > 0 && old(self).taken() < old(self).num_points ==> {
                &&& final (self).taken() == old(self).taken() + 1
                &&& final (self).a == old(self).a
                &&& final (self).b == old(self).b
                &&& final (self).num_points == old(self).num_points
                &&& r is Some
                &&& r->0@ == line_point(
                    old(self).a@,
                    old(self).b@,
                    line_factor(old(self).taken(), old(self).num_points as int),
                )
            },
    {
        if self.num_points == 0 {
            return None;
        }
        if self.current_point < self.num_points {
            let t: Fixed = line_factor_exec(self.current_point, self.num_points);
            self.current_point = self.current_point + 1;
            Some(
                Point {
                    x: self.a.x.lerp(self.b.x, t),
                    y: self.a.y.lerp(self.b.y, t),
                    z: self.a.z.lerp(self.b.z, t),
                },
            )
        } else {
            None
        }
    }
}

/// The interpolation factor of point `i` out of `n`.
fn line_factor_exec(i: usize, n: usize) -> (t: Fixed)
    requires
        i < n,
    ensures
        t@ == line_factor(i as int, n as int),
{
    if n <= 1 {
        Fixed { raw: 0 }
    } else {
        proof {
            let ii = i as int;
            let d = (n - 1) as int;
            assert(0 <= ii * (SCALE as int) <= d * (SCALE as int) <= 85070591730234615865843651857942052864)
                by (nonlinear_arith)
                requires
                    0 <= ii <= d <= 0xffff_ffff_ffff_ffff,
            ;
            vstd::arithmetic::div_mod::lemma_div_is_ordered(
                ii * (SCALE as int),
                d * (SCALE as int),
                d,
            );
            vstd::arithmetic::div_mod::lemma_div_multiples_vanish(SCALE as int, d);
            assert(d * (SCALE as int) == (SCALE as int) * d) by (nonlinear_arith);
            vstd::arithmetic::div_mod::lemma_div_pos_is_pos(ii * (SCALE as int), d);
        }
        let q: i128 = crate::fixed::tdiv_i128((i as i128) * (SCALE as i128), (n - 1) as i128);
        Fixed { raw: crate::fixed::clip_i128(q) }
    }
}

/// A line of evenly spaced points from `a` to `b`.
pub fn line(a: Point, b: Point, num_points: usize) -> (l: Line)
    ensures
        l.a == a,
        l.b == b,
        l.num_points == num_points,
        l.taken() == 0,
{
    Line::new(a, b, num_points)
}

} // verus!
