//! Points, vectors and rotations of the plane, and the points and vectors of
//! space that carry them.
use vstd::prelude::*;
use crate::math::{abs, div_trunc, floor_sqrt, isqrt, lemma_div_trunc_within, lemma_floor_sqrt};
use crate::rl::{COORD_LIMIT, MICRO, SCALE_LIMIT, WIDE_LIMIT};

verus! {

/// A displacement or a velocity in the plane.
#[derive(Clone, Copy, PartialEq, Eq, Structural, Debug)]
pub struct Vector2 {
    pub x: i64,
    pub y: i64,
}

/// A place in the plane.
#[derive(Clone, Copy, PartialEq, Eq, Structural, Debug)]
pub struct Point2 {
    pub x: i64,
    pub y: i64,
}

/// A displacement or a velocity in space.
#[derive(Clone, Copy, PartialEq, Eq, Structural, Debug)]
pub struct Vector3 {
    pub x: i64,
    pub y: i64,
    pub z: i64,
}

/// A place in space.
#[derive(Clone, Copy, PartialEq, Eq, Structural, Debug)]
pub struct Point3 {
    pub x: i64,
    pub y: i64,
    pub z: i64,
}

/// `a` is within `limit` of zero.
pub open spec fn within(a: int, limit: int) -> bool {
    -limit <= a <= limit
}

/// The dot product.
pub open spec fn dot(a: Vector2, b: Vector2) -> int {
    a.x * b.x + a.y * b.y
}

/// The perp product: positive where `b` lies counter-clockwise of `a`,
/// negative where it lies clockwise, zero where the two are on one line.
pub open spec fn perp(a: Vector2, b: Vector2) -> int {
    a.x * b.y - a.y * b.x
}

/// The squared length.
pub open spec fn norm_squared(v: Vector2) -> int {
    v.x * v.x + v.y * v.y
}

/// The length, rounded down.
pub open spec fn norm(v: Vector2) -> int {
    floor_sqrt(norm_squared(v))
}

/// A product of two numbers, each within its limit, is within the product of
/// the limits.
pub proof fn lemma_product_within(a: int, b: int, la: int, lb: int)
    by (nonlinear_arith)
    requires
        within(a, la),
        within(b, lb),
    ensures
        within(a * b, la * lb),
{
}

/// No part of a vector is longer than the vector.
pub proof fn lemma_part_within_norm(v: Vector2)
    ensures
        within(v.x as int, norm(v)),
        within(v.y as int, norm(v)),
        norm(v) >= 0,
        norm(v) == 0 <==> (v.x == 0 && v.y == 0),
{
    let n = norm_squared(v);
    assert(n >= 0 && v.x * v.x <= n && v.y * v.y <= n && (n == 0 <==> (v.x == 0 && v.y == 0)))
        by (nonlinear_arith)
        requires
            n == v.x * v.x + v.y * v.y,
    ;
    lemma_floor_sqrt(n);
    let r = norm(v);
    assert(within(v.x as int, r)) by (nonlinear_arith)
        requires
            v.x * v.x <= n,
            n < (r + 1) * (r + 1),
            0 <= r,
    ;
    assert(within(v.y as int, r)) by (nonlinear_arith)
        requires
            v.y * v.y <= n,
            n < (r + 1) * (r + 1),
            0 <= r,
    ;
    assert(r == 0 <==> n == 0) by (nonlinear_arith)
        requires
            0 <= r,
            r * r <= n < (r + 1) * (r + 1),
    ;
}

/// A vector is shorter than `limit` exactly where its squared length is
/// below the square of `limit`.
pub proof fn lemma_norm_below(v: Vector2, limit: int)
    requires
        limit >= 0,
    ensures
        norm(v) < limit <==> norm_squared(v) < limit * limit,
{
    let n = norm_squared(v);
    assert(n >= 0) by (nonlinear_arith)
        requires
            n == v.x * v.x + v.y * v.y,
    ;
    lemma_floor_sqrt(n);
    let r = norm(v);
    assert(r < limit <==> n < limit * limit) by (nonlinear_arith)
        requires
            0 <= r,
            0 <= limit,
            r * r <= n < (r + 1) * (r + 1),
    ;
}

impl Vector2 {
    /// Each part is within `COORD_LIMIT` of zero.
    pub open spec fn bounded(self) -> bool {
        within(self.x as int, COORD_LIMIT as int) && within(self.y as int, COORD_LIMIT as int)
    }

    /// Each part is within `WIDE_LIMIT` of zero: the room that the
    /// arithmetic needs.
    pub open spec fn wide(self) -> bool {
        within(self.x as int, WIDE_LIMIT as int) && within(self.y as int, WIDE_LIMIT as int)
    }

    /// Whether each part is within `COORD_LIMIT` of zero.
    pub fn is_bounded(&self) -> (r: bool)
        ensures
            r == self.bounded(),
    {
        -COORD_LIMIT <= self.x && self.x <= COORD_LIMIT && -COORD_LIMIT <= self.y && self.y
            <= COORD_LIMIT
    }

    /// The vector stretched by `num / den`, each part rounded toward zero.
    pub open spec fn scaled_spec(self, num: int, den: int) -> Vector2 {
        Vector2 {
            x: div_trunc(self.x * num, den) as i64,
            y: div_trunc(self.y * num, den) as i64,
        }
    }

    /// The sum of this vector and `other`.
    pub open spec fn plus_spec(self, other: Vector2) -> Vector2 {
        Vector2 { x: (self.x + other.x) as i64, y: (self.y + other.y) as i64 }
    }

    /// The vector stretched by `num / den`.
    pub fn scaled(&self, num: i64, den: i64) -> (r: Vector2)
        requires
            self.wide(),
            within(num as int, SCALE_LIMIT as int),
            den > 0,
        ensures
            r == self.scaled_spec(num as int, den as int),
            within(r.x as int, WIDE_LIMIT * SCALE_LIMIT),
            within(r.y as int, WIDE_LIMIT * SCALE_LIMIT),
            within(num as int, den as int) ==> within(r.x as int, abs(self.x as int)) && within(
                r.y as int,
                abs(self.y as int),
            ),
    {
        proof {
            lemma_product_within(self.x as int, num as int, WIDE_LIMIT as int, SCALE_LIMIT as int);
            lemma_product_within(self.y as int, num as int, WIDE_LIMIT as int, SCALE_LIMIT as int);
            assert(WIDE_LIMIT * SCALE_LIMIT * den >= WIDE_LIMIT * SCALE_LIMIT) by (nonlinear_arith)
                requires
                    den >= 1,
            ;
            lemma_div_trunc_within(self.x * num, den as int, WIDE_LIMIT * SCALE_LIMIT);
            lemma_div_trunc_within(self.y * num, den as int, WIDE_LIMIT * SCALE_LIMIT);
            if within(num as int, den as int) {
                lemma_product_within(self.x as int, num as int, abs(self.x as int), den as int);
                lemma_product_within(self.y as int, num as int, abs(self.y as int), den as int);
                lemma_div_trunc_within(self.x * num, den as int, abs(self.x as int));
                lemma_div_trunc_within(self.y * num, den as int, abs(self.y as int));
            }
        }
        let x: i128 = self.x as i128 * num as i128 / den as i128;
        let y: i128 = self.y as i128 * num as i128 / den as i128;
        Vector2 { x: x as i64, y: y as i64 }
    }

    /// The sum of this vector and `other`.
    pub fn plus(&self, other: &Vector2) -> (r: Vector2)
        requires
            within(self.x as int, 0x4000_0000_0000_0000 - 1),
            within(self.y as int, 0x4000_0000_0000_0000 - 1),
            within(other.x as int, 0x4000_0000_0000_0000),
            within(other.y as int, 0x4000_0000_0000_0000),
        ensures
            r == self.plus_spec(*other),
            r.x == self.x + other.x,
            r.y == self.y + other.y,
    {
        Vector2 { x: self.x + other.x, y: self.y + other.y }
    }

    /// The dot product with `other`.
    pub fn dot(&self, other: &Vector2) -> (r: i128)
        requires
            self.wide(),
            other.wide(),
        ensures
            r == dot(*self, *other),
            within(r as int, 2 * WIDE_LIMIT * WIDE_LIMIT),
    {
        proof {
            lemma_product_within(self.x as int, other.x as int, WIDE_LIMIT as int, WIDE_LIMIT as int);
            lemma_product_within(self.y as int, other.y as int, WIDE_LIMIT as int, WIDE_LIMIT as int);
        }
        self.x as i128 * other.x as i128 + self.y as i128 * other.y as i128
    }

    /// The perp product with `other`.
    pub fn perp(&self, other: &Vector2) -> (r: i128)
        requires
            self.wide(),
            other.wide(),
        ensures
            r == perp(*self, *other),
            within(r as int, 2 * WIDE_LIMIT * WIDE_LIMIT),
    {
        proof {
            lemma_product_within(self.x as int, other.y as int, WIDE_LIMIT as int, WIDE_LIMIT as int);
            lemma_product_within(self.y as int, other.x as int, WIDE_LIMIT as int, WIDE_LIMIT as int);
        }
        self.x as i128 * other.y as i128 - self.y as i128 * other.x as i128
    }

    /// The squared length.
    pub fn norm_squared(&self) -> (r: u128)
        requires
            self.wide(),
        ensures
            r == norm_squared(*self),
            r <= 2 * WIDE_LIMIT * WIDE_LIMIT,
    {
        proof {
            lemma_product_within(self.x as int, self.x as int, WIDE_LIMIT as int, WIDE_LIMIT as int);
            lemma_product_within(self.y as int, self.y as int, WIDE_LIMIT as int, WIDE_LIMIT as int);
            assert(self.x * self.x >= 0 && self.y * self.y >= 0) by (nonlinear_arith);
        }
        let xx: i128 = self.x as i128 * self.x as i128;
        let yy: i128 = self.y as i128 * self.y as i128;
        (xx + yy) as u128
    }

    /// The length, rounded down.
    pub fn norm(&self) -> (r: i64)
        requires
            self.wide(),
        ensures
            r == norm(*self),
            0 <= r <= 2 * WIDE_LIMIT,
    {
        let n = self.norm_squared();
        let r = isqrt(n);
        assert(r <= 2 * WIDE_LIMIT) by (nonlinear_arith)
            requires
                r * r <= n,
                n <= 2 * WIDE_LIMIT * WIDE_LIMIT,
                r >= 0,
                WIDE_LIMIT == 0x100_0000_0000,
        ;
        r as i64
    }
}

impl Point2 {
    /// Each coordinate is within `COORD_LIMIT` of zero.
    pub open spec fn bounded(self) -> bool {
        within(self.x as int, COORD_LIMIT as int) && within(self.y as int, COORD_LIMIT as int)
    }

    /// The displacement that leads from `from` to this point.
    pub open spec fn minus_spec(self, from: Point2) -> Vector2 {
        Vector2 { x: (self.x - from.x) as i64, y: (self.y - from.y) as i64 }
    }

    /// The point that `v` leads to from this point.
    pub open spec fn plus_spec(self, v: Vector2) -> Point2 {
        Point2 { x: (self.x + v.x) as i64, y: (self.y + v.y) as i64 }
    }

    /// Whether each coordinate is within `COORD_LIMIT` of zero.
    pub fn is_bounded(&self) -> (r: bool)
        ensures
            r == self.bounded(),
    {
        -COORD_LIMIT <= self.x && self.x <= COORD_LIMIT && -COORD_LIMIT <= self.y && self.y
            <= COORD_LIMIT
    }

    /// The displacement that leads from `from` to this point.
    pub fn minus(&self, from: &Point2) -> (v: Vector2)
        requires
            self.bounded(),
            from.bounded(),
        ensures
            v == self.minus_spec(*from),
            v.x == self.x - from.x,
            v.y == self.y - from.y,
            within(v.x as int, 2 * COORD_LIMIT),
            within(v.y as int, 2 * COORD_LIMIT),
            v.wide(),
    {
        Vector2 { x: self.x - from.x, y: self.y - from.y }
    }

    /// The point that `v` leads to from this point.
    pub fn plus(&self, v: &Vector2) -> (p: Point2)
        requires
            within(self.x as int, 0x4000_0000_0000_0000 - 1),
            within(self.y as int, 0x4000_0000_0000_0000 - 1),
            within(v.x as int, 0x4000_0000_0000_0000),
            within(v.y as int, 0x4000_0000_0000_0000),
        ensures
            p == self.plus_spec(*v),
            p.x == self.x + v.x,
            p.y == self.y + v.y,
    {
        Point2 { x: self.x + v.x, y: self.y + v.y }
    }
}

/// The squared length of a vector in space.
pub open spec fn norm_squared_3d(v: Vector3) -> int {
    v.x * v.x + v.y * v.y + v.z * v.z
}

/// The length of a vector in space, rounded down.
pub open spec fn norm_3d(v: Vector3) -> int {
    floor_sqrt(norm_squared_3d(v))
}

impl Vector3 {
    /// Each part is within `COORD_LIMIT` of zero.
    pub open spec fn bounded(self) -> bool {
        &&& within(self.x as int, COORD_LIMIT as int)
        &&& within(self.y as int, COORD_LIMIT as int)
        &&& within(self.z as int, COORD_LIMIT as int)
    }

    /// Whether each part is within `COORD_LIMIT` of zero.
    pub fn is_bounded(&self) -> (r: bool)
        ensures
            r == self.bounded(),
    {
        -COORD_LIMIT <= self.x && self.x <= COORD_LIMIT && -COORD_LIMIT <= self.y && self.y
            <= COORD_LIMIT && -COORD_LIMIT <= self.z && self.z <= COORD_LIMIT
    }

    /// The length, rounded down.
    pub fn norm(&self) -> (r: i64)
        requires
            self.bounded(),
        ensures
            r == norm_3d(*self),
            0 <= r <= 2 * COORD_LIMIT,
    {
        proof {
            lemma_product_within(self.x as int, self.x as int, COORD_LIMIT as int, COORD_LIMIT as int);
            lemma_product_within(self.y as int, self.y as int, COORD_LIMIT as int, COORD_LIMIT as int);
            lemma_product_within(self.z as int, self.z as int, COORD_LIMIT as int, COORD_LIMIT as int);
            assert(self.x * self.x >= 0 && self.y * self.y >= 0 && self.z * self.z >= 0)
                by (nonlinear_arith);
        }
        let xx: i128 = self.x as i128 * self.x as i128;
        let yy: i128 = self.y as i128 * self.y as i128;
        let zz: i128 = self.z as i128 * self.z as i128;
        let n = (xx + yy + zz) as u128;
        let r = isqrt(n);
        assert(r <= 2 * COORD_LIMIT) by (nonlinear_arith)
            requires
                r * r <= n,
                n <= 3 * (COORD_LIMIT * COORD_LIMIT),
                r >= 0,
                COORD_LIMIT == 0x8000_0000,
        ;
        r as i64
    }

    /// The part in the ground plane.
    pub open spec fn to_2d_spec(self) -> Vector2 {
        Vector2 { x: self.x, y: self.y }
    }

    /// The part in the ground plane.
    pub fn to_2d(&self) -> (v: Vector2)
        ensures
            v == self.to_2d_spec(),
    {
        Vector2 { x: self.x, y: self.y }
    }
}

impl Point3 {
    /// The point of the ground plane below or above this point.
    pub open spec fn to_2d_spec(self) -> Point2 {
        Point2 { x: self.x, y: self.y }
    }

    /// The point of the ground plane below or above this point.
    pub fn to_2d(&self) -> (p: Point2)
        ensures
            p == self.to_2d_spec(),
    {
        Point2 { x: self.x, y: self.y }
    }
}

/// A rotation of the plane, held as the cosine and the sine of its angle in
/// millionths: the unit vector that the rotation turns the x axis into.
#[derive(Clone, Copy, PartialEq, Eq, Structural, Debug)]
pub struct Rotation2 {
    pub cos: i64,
    pub sin: i64,
}

/// The part of a rotation that turns `a` toward `b`, given the product
/// `scale` of their lengths: `part` is their dot product for the cosine and
/// their perp product for the sine.
pub open spec fn turn_part(part: int, scale: int) -> int {
    div_trunc(part * MICRO, scale)
}

impl Rotation2 {
    /// Neither part exceeds one.
    pub open spec fn wf(self) -> bool {
        within(self.cos as int, MICRO as int) && within(self.sin as int, MICRO as int)
    }

    /// The rotation that turns nothing.
    pub open spec fn identity_spec() -> Rotation2 {
        Rotation2 { cos: MICRO, sin: 0 }
    }

    /// The rotation that turns the direction of `a` into that of `b`, each
    /// part rounded toward zero and kept within one; the identity where
    /// either vector has no length.
    pub open spec fn between_spec(a: Vector2, b: Vector2) -> Rotation2 {
        let scale = norm(a) * norm(b);
        if scale == 0 {
            Self::identity_spec()
        } else {
            Rotation2 {
                cos: clamp(turn_part(dot(a, b), scale), MICRO as int) as i64,
                sin: clamp(turn_part(perp(a, b), scale), MICRO as int) as i64,
            }
        }
    }

    /// The direction of `v`; the identity where `v` has no length.
    pub open spec fn of_spec(v: Vector2) -> Rotation2 {
        let n = norm(v);
        if n == 0 {
            Self::identity_spec()
        } else {
            Rotation2 {
                cos: div_trunc(v.x * MICRO, n) as i64,
                sin: div_trunc(v.y * MICRO, n) as i64,
            }
        }
    }

    /// The vector `v` turned by this rotation, each part rounded toward zero.
    pub open spec fn apply_spec(self, v: Vector2) -> Vector2 {
        Vector2 {
            x: div_trunc(v.x * self.cos - v.y * self.sin, MICRO as int) as i64,
            y: div_trunc(v.x * self.sin + v.y * self.cos, MICRO as int) as i64,
        }
    }

    /// This rotation followed by `then`, each part rounded toward zero and
    /// kept within one.
    pub open spec fn compose_spec(self, then: Rotation2) -> Rotation2 {
        Rotation2 {
            cos: clamp(div_trunc(self.cos * then.cos - self.sin * then.sin, MICRO as int), MICRO as int) as i64,
            sin: clamp(div_trunc(self.cos * then.sin + self.sin * then.cos, MICRO as int), MICRO as int) as i64,
        }
    }

    /// The unit vector that this rotation turns the x axis into, in
    /// millionths.
    pub open spec fn axis_spec(self) -> Vector2 {
        Vector2 { x: self.cos, y: self.sin }
    }

    /// The rotation that turns nothing.
    pub fn identity() -> (r: Rotation2)
        ensures
            r == Self::identity_spec(),
            r.wf(),
    {
        Rotation2 { cos: MICRO, sin: 0 }
    }

    /// Whether neither part exceeds one.
    pub fn is_wf(&self) -> (r: bool)
        ensures
            r == self.wf(),
    {
        -MICRO <= self.cos && self.cos <= MICRO && -MICRO <= self.sin && self.sin <= MICRO
    }

    /// The rotation that turns the direction of `a` into that of `b`.
    pub fn between(a: &Vector2, b: &Vector2) -> (r: Rotation2)
        requires
            a.wide(),
            b.wide(),
        ensures
            r == Self::between_spec(*a, *b),
            r.wf(),
    {
        let na = a.norm();
        let nb = b.norm();
        proof {
            lemma_product_within(na as int, nb as int, 2 * WIDE_LIMIT, 2 * WIDE_LIMIT);
            assert(na * nb >= 0) by (nonlinear_arith)
                requires
                    na >= 0,
                    nb >= 0,
            ;
        }
        let scale: i128 = na as i128 * nb as i128;
        if scale == 0 {
            return Rotation2 { cos: MICRO, sin: 0 };
        }
        let d = a.dot(b);
        let p = a.perp(b);
        proof {
            lemma_product_within(d as int, MICRO as int, 2 * WIDE_LIMIT * WIDE_LIMIT, MICRO as int);
            lemma_product_within(p as int, MICRO as int, 2 * WIDE_LIMIT * WIDE_LIMIT, MICRO as int);
        }
        let c = clamp_exec(d * MICRO as i128 / scale, MICRO);
        let s = clamp_exec(p * MICRO as i128 / scale, MICRO);
        Rotation2 { cos: c, sin: s }
    }

    /// The direction of `v`.
    pub fn of(v: &Vector2) -> (r: Rotation2)
        requires
            v.wide(),
        ensures
            r == Self::of_spec(*v),
            r.wf(),
    {
        let n = v.norm();
        if n == 0 {
            return Rotation2 { cos: MICRO, sin: 0 };
        }
        proof {
            lemma_part_within_norm(*v);
            lemma_product_within(v.x as int, MICRO as int, WIDE_LIMIT as int, MICRO as int);
            lemma_product_within(v.y as int, MICRO as int, WIDE_LIMIT as int, MICRO as int);
            lemma_scaled_part(v.x as int, n as int);
            lemma_scaled_part(v.y as int, n as int);
        }
        let c = v.x as i128 * MICRO as i128 / n as i128;
        let s = v.y as i128 * MICRO as i128 / n as i128;
        Rotation2 { cos: c as i64, sin: s as i64 }
    }

    /// The vector `v` turned by this rotation.
    pub fn apply(&self, v: &Vector2) -> (r: Vector2)
        requires
            self.wf(),
            v.wide(),
        ensures
            r == self.apply_spec(*v),
            within(r.x as int, abs(v.x as int) + abs(v.y as int)),
            within(r.y as int, abs(v.x as int) + abs(v.y as int)),
    {
        proof {
            lemma_apply_within(*self, *v);
        }
        let x: i128 = (v.x as i128 * self.cos as i128 - v.y as i128 * self.sin as i128) / MICRO as i128;
        let y: i128 = (v.x as i128 * self.sin as i128 + v.y as i128 * self.cos as i128) / MICRO as i128;
        Vector2 { x: x as i64, y: y as i64 }
    }

    /// This rotation followed by `then`.
    pub fn compose(&self, then: &Rotation2) -> (r: Rotation2)
        requires
            self.wf(),
            then.wf(),
        ensures
            r == self.compose_spec(*then),
            r.wf(),
    {
        proof {
            lemma_product_within(self.cos as int, then.cos as int, MICRO as int, MICRO as int);
            lemma_product_within(self.sin as int, then.sin as int, MICRO as int, MICRO as int);
            lemma_product_within(self.cos as int, then.sin as int, MICRO as int, MICRO as int);
            lemma_product_within(self.sin as int, then.cos as int, MICRO as int, MICRO as int);
        }
        let c: i128 = (self.cos as i128 * then.cos as i128 - self.sin as i128 * then.sin as i128)
            / MICRO as i128;
        let s: i128 = (self.cos as i128 * then.sin as i128 + self.sin as i128 * then.cos as i128)
            / MICRO as i128;
        Rotation2 { cos: clamp_exec(c, MICRO), sin: clamp_exec(s, MICRO) }
    }

    /// The unit vector that this rotation turns the x axis into.
    pub fn axis(&self) -> (v: Vector2)
        ensures
            v == self.axis_spec(),
    {
        Vector2 { x: self.cos, y: self.sin }
    }
}

/// The attitude of a car: its heading in the ground plane, and its pitch and
/// roll as angles.
#[derive(Clone, Copy, PartialEq, Eq, Structural, Debug)]
pub struct Rotation3 {
    pub heading: Rotation2,
    pub pitch: i64,
    pub roll: i64,
}

impl Rotation3 {
    /// The attitude of a car that stands level on the ground with the given
    /// heading.
    pub open spec fn level_spec(heading: Rotation2) -> Rotation3 {
        Rotation3 { heading, pitch: 0, roll: 0 }
    }

    /// The heading.
    pub open spec fn to_2d_spec(self) -> Rotation2 {
        self.heading
    }

    /// The attitude of a car that stands level on the ground with the given
    /// heading.
    pub fn level(heading: Rotation2) -> (r: Rotation3)
        ensures
            r == Self::level_spec(heading),
    {
        Rotation3 { heading, pitch: 0, roll: 0 }
    }

    /// The heading.
    pub fn to_2d(&self) -> (r: Rotation2)
        ensures
            r == self.to_2d_spec(),
    {
        self.heading
    }
}

/// `a`, or the nearer of `-limit` and `limit` where `a` is beyond them.
pub open spec fn clamp(a: int, limit: int) -> int {
    if a < -limit {
        -limit
    } else if a > limit {
        limit
    } else {
        a
    }
}

fn clamp_exec(a: i128, limit: i64) -> (r: i64)
    requires
        limit >= 0,
    ensures
        r == clamp(a as int, limit as int),
        within(r as int, limit as int),
{
    if a < -(limit as i128) {
        -limit
    } else if a > limit as i128 {
        limit
    } else {
        a as i64
    }
}

/// The rotation between two vectors is a rotation: neither part exceeds
/// one.
pub proof fn lemma_between_is_wf(a: Vector2, b: Vector2)
    ensures
        Rotation2::between_spec(a, b).wf(),
{
}

/// No part of a turned vector is longer than the parts of the vector taken
/// together.
pub proof fn lemma_apply_within(r: Rotation2, v: Vector2)
    requires
        r.wf(),
        v.wide(),
    ensures
        within(v.x * r.cos, WIDE_LIMIT * MICRO),
        within(v.y * r.sin, WIDE_LIMIT * MICRO),
        within(v.x * r.sin, WIDE_LIMIT * MICRO),
        within(v.y * r.cos, WIDE_LIMIT * MICRO),
        within(r.apply_spec(v).x as int, abs(v.x as int) + abs(v.y as int)),
        within(r.apply_spec(v).y as int, abs(v.x as int) + abs(v.y as int)),
        r.apply_spec(v).x == div_trunc(v.x * r.cos - v.y * r.sin, MICRO as int),
        r.apply_spec(v).y == div_trunc(v.x * r.sin + v.y * r.cos, MICRO as int),
{
    let ax = abs(v.x as int);
    let ay = abs(v.y as int);
    lemma_product_within(v.x as int, r.cos as int, ax, MICRO as int);
    lemma_product_within(v.y as int, r.sin as int, ay, MICRO as int);
    lemma_product_within(v.x as int, r.sin as int, ax, MICRO as int);
    lemma_product_within(v.y as int, r.cos as int, ay, MICRO as int);
    assert(ax * MICRO <= WIDE_LIMIT * MICRO && ay * MICRO <= WIDE_LIMIT * MICRO)
        by (nonlinear_arith)
        requires
            ax <= WIDE_LIMIT,
            ay <= WIDE_LIMIT,
    ;
    assert((ax + ay) * MICRO == ax * MICRO + ay * MICRO) by (nonlinear_arith);
    lemma_div_trunc_within(v.x * r.cos - v.y * r.sin, MICRO as int, ax + ay);
    lemma_div_trunc_within(v.x * r.sin + v.y * r.cos, MICRO as int, ax + ay);
}

/// A part of a vector, scaled to a vector of length one, is within one.
proof fn lemma_scaled_part(a: int, n: int)
    requires
        n > 0,
        within(a, n),
    ensures
        within(div_trunc(a * MICRO, n), MICRO as int),
{
    if a >= 0 {
        assert(a * MICRO >= 0 && a * MICRO <= n * MICRO) by (nonlinear_arith)
            requires
                0 <= a <= n,
        ;
        vstd::arithmetic::div_mod::lemma_div_is_ordered(a * MICRO, n * MICRO, n);
        vstd::arithmetic::div_mod::lemma_div_multiples_vanish(MICRO as int, n);
        assert(n * MICRO == MICRO * n) by (nonlinear_arith);
        vstd::arithmetic::div_mod::lemma_div_pos_is_pos(a * MICRO, n);
    } else {
        assert(-(a * MICRO) >= 0 && -(a * MICRO) <= n * MICRO) by (nonlinear_arith)
            requires
                -n <= a < 0,
        ;
        vstd::arithmetic::div_mod::lemma_div_is_ordered(-(a * MICRO), n * MICRO, n);
        vstd::arithmetic::div_mod::lemma_div_multiples_vanish(MICRO as int, n);
        assert(n * MICRO == MICRO * n) by (nonlinear_arith);
        vstd::arithmetic::div_mod::lemma_div_pos_is_pos(-(a * MICRO), n);
    }
}

} // verus!
