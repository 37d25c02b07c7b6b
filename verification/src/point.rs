//! 3D points and their transformation by a matrix.
//!
//! A point carries an identity number and three fixed-point coordinates.
//! Transforming a point reads only the first three rows of the matrix: the
//! fourth row is never consulted, so a point transform treats every matrix
//! as affine.

use crate::fixed::{dot4, fp_dot4, COEF_LIMIT, ONE};
use crate::matrix::Matrix;
use vstd::prelude::*;

verus! {

/// A 3D point: an identity number and fixed-point X, Y, Z coordinates.
///
/// A transform produces a new point and carries the identity number over
/// unchanged; points are never mutated in place.
#[derive(Clone, Copy, PartialEq, Eq, Structural, Debug)]
pub struct Point {
    pub num: i32,
    pub x: i64,
    pub y: i64,
    pub z: i64,
}

impl Point {
    /// All three coordinates lie within `c` of zero.
    pub open spec fn within(&self, c: int) -> bool {
        &&& -c <= self.x <= c
        &&& -c <= self.y <= c
        &&& -c <= self.z <= c
    }

    /// Runtime check for [`Point::within`] against `COEF_LIMIT`, so an
    /// unverified caller can establish the bound `transform` asks for.
    pub fn fits_coef_limit(&self) -> (b: bool)
        ensures
            b == self.within(COEF_LIMIT as int),
    {
        -COEF_LIMIT <= self.x && self.x <= COEF_LIMIT
            && -COEF_LIMIT <= self.y && self.y <= COEF_LIMIT
            && -COEF_LIMIT <= self.z && self.z <= COEF_LIMIT
    }
}

/// The X coordinate of `p` transformed by the matrix `m`: the fixed-point
/// dot product of row 0 of `m` with the homogeneous column `(x, y, z, ONE)`.
pub open spec fn transformed_x(m: Seq<int>, p: Point) -> int {
    dot4(m[0], m[1], m[2], m[3], p.x as int, p.y as int, p.z as int, ONE as int)
}

/// The Y coordinate of `p` transformed by the matrix `m`.
pub open spec fn transformed_y(m: Seq<int>, p: Point) -> int {
    dot4(m[4], m[5], m[6], m[7], p.x as int, p.y as int, p.z as int, ONE as int)
}

/// The Z coordinate of `p` transformed by the matrix `m`.
pub open spec fn transformed_z(m: Seq<int>, p: Point) -> int {
    dot4(m[8], m[9], m[10], m[11], p.x as int, p.y as int, p.z as int, ONE as int)
}

/// `q` is `p` transformed by the matrix `m`: the identity number carried
/// over, each coordinate the dot product of the matching matrix row with
/// `p`'s homogeneous column.
pub open spec fn is_transformed(m: Seq<int>, p: Point, q: Point) -> bool {
    &&& q.num == p.num
    &&& q.x == transformed_x(m, p)
    &&& q.y == transformed_y(m, p)
    &&& q.z == transformed_z(m, p)
}

/// Transforming a point by a translation matrix adds the offsets to the
/// coordinates, exactly: the fixed-point dot product introduces no
/// rounding here.
pub proof fn lemma_translation_moves_point(mv: Seq<int>, x: int, y: int, z: int, p: Point)
    requires
        mv == crate::matrix::translation_spec(x, y, z),
    ensures
        transformed_x(mv, p) == p.x + x,
        transformed_y(mv, p) == p.y + y,
        transformed_z(mv, p) == p.z + z,
{
    let tv = crate::matrix::translation_spec(x, y, z);
    assert(transformed_x(tv, p) == p.x + x) by {
        vstd::arithmetic::mul::lemma_mul_is_commutative(x, ONE as int);
        vstd::arithmetic::div_mod::lemma_div_multiples_vanish(p.x + x, ONE as int);
    }
    assert(transformed_y(tv, p) == p.y + y) by {
        assert(tv[4] == 0 && tv[5] == ONE as int && tv[6] == 0 && tv[7] == y);
        vstd::arithmetic::mul::lemma_mul_is_commutative(y, ONE as int);
        vstd::arithmetic::div_mod::lemma_div_multiples_vanish(p.y + y, ONE as int);
    }
    assert(transformed_z(tv, p) == p.z + z) by {
        vstd::arithmetic::mul::lemma_mul_is_commutative(z, ONE as int);
        vstd::arithmetic::div_mod::lemma_div_multiples_vanish(p.z + z, ONE as int);
    }
    assert(transformed_x(mv, p) == transformed_x(tv, p));
    assert(transformed_y(mv, p) == transformed_y(tv, p));
    assert(transformed_z(mv, p) == transformed_z(tv, p));
}

/// Transforms the coordinates of a point by a matrix, carrying the
/// identity number over unchanged.
pub fn transform(m: &Matrix, p: Point) -> (r: Point)
    requires
        m.within(COEF_LIMIT as int),
        p.within(COEF_LIMIT as int),
    ensures
        is_transformed(m@, p, r),
{
    proof {
        assert(m@[0] == m.m[0] as int);
        assert(m@[1] == m.m[1] as int);
        assert(m@[2] == m.m[2] as int);
        assert(m@[3] == m.m[3] as int);
        assert(m@[4] == m.m[4] as int);
        assert(m@[5] == m.m[5] as int);
        assert(m@[6] == m.m[6] as int);
        assert(m@[7] == m.m[7] as int);
        assert(m@[8] == m.m[8] as int);
        assert(m@[9] == m.m[9] as int);
        assert(m@[10] == m.m[10] as int);
        assert(m@[11] == m.m[11] as int);
    }
    Point {
        num: p.num,
        x: fp_dot4(m.m[0], m.m[1], m.m[2], m.m[3], p.x, p.y, p.z, ONE),
        y: fp_dot4(m.m[4], m.m[5], m.m[6], m.m[7], p.x, p.y, p.z, ONE),
        z: fp_dot4(m.m[8], m.m[9], m.m[10], m.m[11], p.x, p.y, p.z, ONE),
    }
}

} // verus!
