//! 4x4 homogeneous transform matrices.
//!
//! A matrix is sixteen fixed-point coefficients in row-major order.  Every
//! matrix the engine constructs is affine: its last row is `[0, 0, 0, ONE]`,
//! so translation lives in the last column of the first three rows.
//!
//! The product convention is fixed so that
//! `matrix_mult(&translation, &rotation)` means "rotate, then translate"
//! when the result is later applied to a point: each output coefficient is
//! the dot product of a row of the first factor with a column of the second.

use crate::fixed::{dot4, fp_dot4, lemma_mul_in_range, lemma_sdown_tight, sdown, COEF_LIMIT, ONE};
use vstd::arithmetic::div_mod::lemma_div_multiples_vanish;
use vstd::arithmetic::mul::lemma_mul_is_commutative;
use vstd::prelude::*;

verus! {

/// A 4x4 transform matrix of fixed-point coefficients, row-major.
pub struct Matrix {
    pub m: [i64; 16],
}

impl View for Matrix {
    type V = Seq<int>;

    open spec fn view(&self) -> Seq<int> {
        Seq::new(16, |k: int| self.m[k] as int)
    }
}

/// A sequence is the coefficient list of a 4x4 matrix.
pub open spec fn mat16(v: Seq<int>) -> bool {
    v.len() == 16
}

/// Every coefficient lies within `c` of zero.
pub open spec fn mat_within(v: Seq<int>, c: int) -> bool {
    forall|k: int| 0 <= k < 16 ==> -c <= #[trigger] v[k] <= c
}

/// The matrix is affine: its last row is `[0, 0, 0, ONE]`.
pub open spec fn mat_affine(v: Seq<int>) -> bool {
    mat16(v) && v[12] == 0 && v[13] == 0 && v[14] == 0 && v[15] == ONE
}

/// Coefficient `k` of the product `a * b`: the fixed-point dot product of
/// row `k / 4` of `a` with column `k % 4` of `b`.
pub open spec fn mat_entry(a: Seq<int>, b: Seq<int>, k: int) -> int {
    let i = k / 4;
    let j = k % 4;
    dot4(
        a[4 * i], a[4 * i + 1], a[4 * i + 2], a[4 * i + 3],
        b[j], b[4 + j], b[8 + j], b[12 + j],
    )
}

/// The full fixed-point product `a * b`.
pub open spec fn mat_mul(a: Seq<int>, b: Seq<int>) -> Seq<int> {
    Seq::new(16, |k: int| mat_entry(a, b, k))
}

/// The coefficients of the identity matrix.
pub open spec fn identity_spec() -> Seq<int> {
    seq![
        ONE as int, 0, 0, 0,
        0, ONE as int, 0, 0,
        0, 0, ONE as int, 0,
        0, 0, 0, ONE as int,
    ]
}

/// The rotation matrix about the X axis built from the sine and cosine of
/// the rotation angle.
pub open spec fn rotation_x_spec(s: int, c: int) -> Seq<int> {
    seq![
        ONE as int, 0, 0, 0,
        0, c, -s, 0,
        0, s, c, 0,
        0, 0, 0, ONE as int,
    ]
}

/// The rotation matrix about the Y axis built from the sine and cosine of
/// the rotation angle.
pub open spec fn rotation_y_spec(s: int, c: int) -> Seq<int> {
    seq![
        c, 0, s, 0,
        0, ONE as int, 0, 0,
        -s, 0, c, 0,
        0, 0, 0, ONE as int,
    ]
}

/// The rotation matrix about the Z axis built from the sine and cosine of
/// the rotation angle.
pub open spec fn rotation_z_spec(s: int, c: int) -> Seq<int> {
    seq![
        c, -s, 0, 0,
        s, c, 0, 0,
        0, 0, ONE as int, 0,
        0, 0, 0, ONE as int,
    ]
}

/// The diagonal scale matrix with factors `x`, `y`, `z`.
pub open spec fn scale_spec(x: int, y: int, z: int) -> Seq<int> {
    seq![
        x, 0, 0, 0,
        0, y, 0, 0,
        0, 0, z, 0,
        0, 0, 0, ONE as int,
    ]
}

/// The translation matrix with offsets `x`, `y`, `z` in the last column.
pub open spec fn translation_spec(x: int, y: int, z: int) -> Seq<int> {
    seq![
        ONE as int, 0, 0, x,
        0, ONE as int, 0, y,
        0, 0, ONE as int, z,
        0, 0, 0, ONE as int,
    ]
}

impl Matrix {
    /// Every coefficient lies within `c` of zero.
    pub open spec fn within(&self, c: int) -> bool {
        mat_within(self@, c)
    }

    /// Runtime check for [`Matrix::within`] against `COEF_LIMIT`, so an
    /// unverified caller can establish the bound the product functions ask
    /// for.
    pub fn fits_coef_limit(&self) -> (b: bool)
        ensures
            b == self.within(COEF_LIMIT as int),
    {
        let mut k: usize = 0;
        let mut ok: bool = true;
        while k < 16
            invariant
                k <= 16,
                ok == forall|i: int| 0 <= i < k ==> -COEF_LIMIT <= #[trigger] self@[i] <= COEF_LIMIT,
            decreases 16 - k,
        {
            proof {
                assert(self@[k as int] == self.m[k as int] as int);
            }
            let e = self.m[k];
            ok = ok && -COEF_LIMIT <= e && e <= COEF_LIMIT;
            k = k + 1;
        }
        ok
    }
}

/// The 4x4 identity matrix.
pub fn identity() -> (r: Matrix)
    ensures
        r@ == identity_spec(),
{
    let r = Matrix {
        m: [
            ONE, 0, 0, 0,
            0, ONE, 0, 0,
            0, 0, ONE, 0,
            0, 0, 0, ONE,
        ],
    };
    proof {
        assert(r@ =~= identity_spec());
    }
    r
}

/// Multiplies one matrix by another: coefficient by coefficient, the
/// fixed-point dot product of a row of `a` with a column of `b`.
pub fn matrix_mult(a: &Matrix, b: &Matrix) -> (r: Matrix)
    requires
        a.within(COEF_LIMIT as int),
        b.within(COEF_LIMIT as int),
    ensures
        r@ == mat_mul(a@, b@),
{
    proof {
        assert(a@[0] == a.m[0] as int);
        assert(a@[1] == a.m[1] as int);
        assert(a@[2] == a.m[2] as int);
        assert(a@[3] == a.m[3] as int);
        assert(a@[4] == a.m[4] as int);
        assert(a@[5] == a.m[5] as int);
        assert(a@[6] == a.m[6] as int);
        assert(a@[7] == a.m[7] as int);
        assert(a@[8] == a.m[8] as int);
        assert(a@[9] == a.m[9] as int);
        assert(a@[10] == a.m[10] as int);
        assert(a@[11] == a.m[11] as int);
        assert(a@[12] == a.m[12] as int);
        assert(a@[13] == a.m[13] as int);
        assert(a@[14] == a.m[14] as int);
        assert(a@[15] == a.m[15] as int);
        assert(b@[0] == b.m[0] as int);
        assert(b@[1] == b.m[1] as int);
        assert(b@[2] == b.m[2] as int);
        assert(b@[3] == b.m[3] as int);
        assert(b@[4] == b.m[4] as int);
        assert(b@[5] == b.m[5] as int);
        assert(b@[6] == b.m[6] as int);
        assert(b@[7] == b.m[7] as int);
        assert(b@[8] == b.m[8] as int);
        assert(b@[9] == b.m[9] as int);
        assert(b@[10] == b.m[10] as int);
        assert(b@[11] == b.m[11] as int);
        assert(b@[12] == b.m[12] as int);
        assert(b@[13] == b.m[13] as int);
        assert(b@[14] == b.m[14] as int);
        assert(b@[15] == b.m[15] as int);
    }
    let r = Matrix {
        m: [
            fp_dot4(a.m[0], a.m[1], a.m[2], a.m[3], b.m[0], b.m[4], b.m[8], b.m[12]),
            fp_dot4(a.m[0], a.m[1], a.m[2], a.m[3], b.m[1], b.m[5], b.m[9], b.m[13]),
            fp_dot4(a.m[0], a.m[1], a.m[2], a.m[3], b.m[2], b.m[6], b.m[10], b.m[14]),
            fp_dot4(a.m[0], a.m[1], a.m[2], a.m[3], b.m[3], b.m[7], b.m[11], b.m[15]),
            fp_dot4(a.m[4], a.m[5], a.m[6], a.m[7], b.m[0], b.m[4], b.m[8], b.m[12]),
            fp_dot4(a.m[4], a.m[5], a.m[6], a.m[7], b.m[1], b.m[5], b.m[9], b.m[13]),
            fp_dot4(a.m[4], a.m[5], a.m[6], a.m[7], b.m[2], b.m[6], b.m[10], b.m[14]),
            fp_dot4(a.m[4], a.m[5], a.m[6], a.m[7], b.m[3], b.m[7], b.m[11], b.m[15]),
            fp_dot4(a.m[8], a.m[9], a.m[10], a.m[11], b.m[0], b.m[4], b.m[8], b.m[12]),
            fp_dot4(a.m[8], a.m[9], a.m[10], a.m[11], b.m[1], b.m[5], b.m[9], b.m[13]),
            fp_dot4(a.m[8], a.m[9], a.m[10], a.m[11], b.m[2], b.m[6], b.m[10], b.m[14]),
            fp_dot4(a.m[8], a.m[9], a.m[10], a.m[11], b.m[3], b.m[7], b.m[11], b.m[15]),
            fp_dot4(a.m[12], a.m[13], a.m[14], a.m[15], b.m[0], b.m[4], b.m[8], b.m[12]),
            fp_dot4(a.m[12], a.m[13], a.m[14], a.m[15], b.m[1], b.m[5], b.m[9], b.m[13]),
            fp_dot4(a.m[12], a.m[13], a.m[14], a.m[15], b.m[2], b.m[6], b.m[10], b.m[14]),
            fp_dot4(a.m[12], a.m[13], a.m[14], a.m[15], b.m[3], b.m[7], b.m[11], b.m[15]),
        ],
    };
    proof {
        assert(r@ =~= mat_mul(a@, b@));
    }
    r
}

/// Rotates a transform matrix around the X axis.  `s` and `c` are the sine
/// and cosine of the rotation angle, as fixed-point scalars.
pub fn rotate_around_x(m: &Matrix, s: i64, c: i64) -> (r: Matrix)
    requires
        -ONE <= s <= ONE,
        -ONE <= c <= ONE,
        m.within(COEF_LIMIT as int),
    ensures
        r@ == mat_mul(rotation_x_spec(s as int, c as int), m@),
{
    let rot = Matrix {
        m: [
            ONE, 0, 0, 0,
            0, c, -s, 0,
            0, s, c, 0,
            0, 0, 0, ONE,
        ],
    };
    proof {
        assert(rot@ =~= rotation_x_spec(s as int, c as int));
        assert(mat_within(rot@, COEF_LIMIT as int));
    }
    matrix_mult(&rot, m)
}

/// Rotates a transform matrix around the Y axis.  `s` and `c` are the sine
/// and cosine of the rotation angle, as fixed-point scalars.
pub fn rotate_around_y(m: &Matrix, s: i64, c: i64) -> (r: Matrix)
    requires
        -ONE <= s <= ONE,
        -ONE <= c <= ONE,
        m.within(COEF_LIMIT as int),
    ensures
        r@ == mat_mul(rotation_y_spec(s as int, c as int), m@),
{
    let rot = Matrix {
        m: [
            c, 0, s, 0,
            0, ONE, 0, 0,
            -s, 0, c, 0,
            0, 0, 0, ONE,
        ],
    };
    proof {
        assert(rot@ =~= rotation_y_spec(s as int, c as int));
        assert(mat_within(rot@, COEF_LIMIT as int));
    }
    matrix_mult(&rot, m)
}

/// Rotates a transform matrix around the Z axis.  `s` and `c` are the sine
/// and cosine of the rotation angle, as fixed-point scalars.
pub fn rotate_around_z(m: &Matrix, s: i64, c: i64) -> (r: Matrix)
    requires
        -ONE <= s <= ONE,
        -ONE <= c <= ONE,
        m.within(COEF_LIMIT as int),
    ensures
        r@ == mat_mul(rotation_z_spec(s as int, c as int), m@),
{
    let rot = Matrix {
        m: [
            c, -s, 0, 0,
            s, c, 0, 0,
            0, 0, ONE, 0,
            0, 0, 0, ONE,
        ],
    };
    proof {
        assert(rot@ =~= rotation_z_spec(s as int, c as int));
        assert(mat_within(rot@, COEF_LIMIT as int));
    }
    matrix_mult(&rot, m)
}

/// Scales a transform matrix by the given factors along X, Y and Z.
pub fn scale(m: &Matrix, x: i64, y: i64, z: i64) -> (r: Matrix)
    requires
        -COEF_LIMIT <= x <= COEF_LIMIT,
        -COEF_LIMIT <= y <= COEF_LIMIT,
        -COEF_LIMIT <= z <= COEF_LIMIT,
        m.within(COEF_LIMIT as int),
    ensures
        r@ == mat_mul(scale_spec(x as int, y as int, z as int), m@),
{
    let factors = Matrix {
        m: [
            x, 0, 0, 0,
            0, y, 0, 0,
            0, 0, z, 0,
            0, 0, 0, ONE,
        ],
    };
    proof {
        assert(factors@ =~= scale_spec(x as int, y as int, z as int));
        assert(mat_within(factors@, COEF_LIMIT as int));
    }
    matrix_mult(&factors, m)
}

/// Translates (moves) a transform matrix by the given X, Y and Z offsets.
pub fn translate(m: &Matrix, x: i64, y: i64, z: i64) -> (r: Matrix)
    requires
        -COEF_LIMIT <= x <= COEF_LIMIT,
        -COEF_LIMIT <= y <= COEF_LIMIT,
        -COEF_LIMIT <= z <= COEF_LIMIT,
        m.within(COEF_LIMIT as int),
    ensures
        r@ == mat_mul(translation_spec(x as int, y as int, z as int), m@),
{
    let offsets = Matrix {
        m: [
            ONE, 0, 0, x,
            0, ONE, 0, y,
            0, 0, ONE, z,
            0, 0, 0, ONE,
        ],
    };
    proof {
        assert(offsets@ =~= translation_spec(x as int, y as int, z as int));
        assert(mat_within(offsets@, COEF_LIMIT as int));
    }
    matrix_mult(&offsets, m)
}

/// The fixed-point dot product against a unit row picks one value out,
/// exactly: multiplying by `ONE` and scaling back down cancel.
proof fn lemma_dot4_unit(b0: int, b1: int, b2: int, b3: int)
    ensures
        dot4(ONE as int, 0, 0, 0, b0, b1, b2, b3) == b0,
        dot4(0, ONE as int, 0, 0, b0, b1, b2, b3) == b1,
        dot4(0, 0, ONE as int, 0, b0, b1, b2, b3) == b2,
        dot4(0, 0, 0, ONE as int, b0, b1, b2, b3) == b3,
{
    lemma_div_multiples_vanish(b0, ONE as int);
    lemma_div_multiples_vanish(b1, ONE as int);
    lemma_div_multiples_vanish(b2, ONE as int);
    lemma_div_multiples_vanish(b3, ONE as int);
}

/// The fixed-point dot product against a unit column picks one value out,
/// exactly: multiplying by `ONE` and scaling back down cancel.
proof fn lemma_dot4_unit_col(a0: int, a1: int, a2: int, a3: int)
    ensures
        dot4(a0, a1, a2, a3, ONE as int, 0, 0, 0) == a0,
        dot4(a0, a1, a2, a3, 0, ONE as int, 0, 0) == a1,
        dot4(a0, a1, a2, a3, 0, 0, ONE as int, 0) == a2,
        dot4(a0, a1, a2, a3, 0, 0, 0, ONE as int) == a3,
{
    lemma_mul_is_commutative(a0, ONE as int);
    lemma_mul_is_commutative(a1, ONE as int);
    lemma_mul_is_commutative(a2, ONE as int);
    lemma_mul_is_commutative(a3, ONE as int);
    lemma_div_multiples_vanish(a0, ONE as int);
    lemma_div_multiples_vanish(a1, ONE as int);
    lemma_div_multiples_vanish(a2, ONE as int);
    lemma_div_multiples_vanish(a3, ONE as int);
}

/// Multiplying by the identity on the left returns the other factor
/// unchanged: the fixed-point product is exact here, with no rounding.
pub proof fn lemma_mul_identity_left(v: Seq<int>)
    requires
        mat16(v),
    ensures
        mat_mul(identity_spec(), v) =~= v,
{
    assert(mat_mul(identity_spec(), v)[0] == v[0]) by {
        assert(identity_spec()[0] == ONE as int);
        assert(identity_spec()[1] == 0);
        assert(identity_spec()[2] == 0);
        assert(identity_spec()[3] == 0);
        lemma_dot4_unit(v[0], v[4], v[8], v[12]);
    }
    assert(mat_mul(identity_spec(), v)[1] == v[1]) by {
        assert(identity_spec()[0] == ONE as int);
        assert(identity_spec()[1] == 0);
        assert(identity_spec()[2] == 0);
        assert(identity_spec()[3] == 0);
        lemma_dot4_unit(v[1], v[5], v[9], v[13]);
    }
    assert(mat_mul(identity_spec(), v)[2] == v[2]) by {
        assert(identity_spec()[0] == ONE as int);
        assert(identity_spec()[1] == 0);
        assert(identity_spec()[2] == 0);
        assert(identity_spec()[3] == 0);
        lemma_dot4_unit(v[2], v[6], v[10], v[14]);
    }
    assert(mat_mul(identity_spec(), v)[3] == v[3]) by {
        assert(identity_spec()[0] == ONE as int);
        assert(identity_spec()[1] == 0);
        assert(identity_spec()[2] == 0);
        assert(identity_spec()[3] == 0);
        lemma_dot4_unit(v[3], v[7], v[11], v[15]);
    }
    assert(mat_mul(identity_spec(), v)[4] == v[4]) by {
        assert(identity_spec()[4] == 0);
        assert(identity_spec()[5] == ONE as int);
        assert(identity_spec()[6] == 0);
        assert(identity_spec()[7] == 0);
        lemma_dot4_unit(v[0], v[4], v[8], v[12]);
    }
    assert(mat_mul(identity_spec(), v)[5] == v[5]) by {
        assert(identity_spec()[4] == 0);
        assert(identity_spec()[5] == ONE as int);
        assert(identity_spec()[6] == 0);
        assert(identity_spec()[7] == 0);
        lemma_dot4_unit(v[1], v[5], v[9], v[13]);
    }
    assert(mat_mul(identity_spec(), v)[6] == v[6]) by {
        assert(identity_spec()[4] == 0);
        assert(identity_spec()[5] == ONE as int);
        assert(identity_spec()[6] == 0);
        assert(identity_spec()[7] == 0);
        lemma_dot4_unit(v[2], v[6], v[10], v[14]);
    }
    assert(mat_mul(identity_spec(), v)[7] == v[7]) by {
        assert(identity_spec()[4] == 0);
        assert(identity_spec()[5] == ONE as int);
        assert(identity_spec()[6] == 0);
        assert(identity_spec()[7] == 0);
        lemma_dot4_unit(v[3], v[7], v[11], v[15]);
    }
    assert(mat_mul(identity_spec(), v)[8] == v[8]) by {
        assert(identity_spec()[8] == 0);
        assert(identity_spec()[9] == 0);
        assert(identity_spec()[10] == ONE as int);
        assert(identity_spec()[11] == 0);
        lemma_dot4_unit(v[0], v[4], v[8], v[12]);
    }
    assert(mat_mul(identity_spec(), v)[9] == v[9]) by {
        assert(identity_spec()[8] == 0);
        assert(identity_spec()[9] == 0);
        assert(identity_spec()[10] == ONE as int);
        assert(identity_spec()[11] == 0);
        lemma_dot4_unit(v[1], v[5], v[9], v[13]);
    }
    assert(mat_mul(identity_spec(), v)[10] == v[10]) by {
        assert(identity_spec()[8] == 0);
        assert(identity_spec()[9] == 0);
        assert(identity_spec()[10] == ONE as int);
        assert(identity_spec()[11] == 0);
        lemma_dot4_unit(v[2], v[6], v[10], v[14]);
    }
    assert(mat_mul(identity_spec(), v)[11] == v[11]) by {
        assert(identity_spec()[8] == 0);
        assert(identity_spec()[9] == 0);
        assert(identity_spec()[10] == ONE as int);
        assert(identity_spec()[11] == 0);
        lemma_dot4_unit(v[3], v[7], v[11], v[15]);
    }
    assert(mat_mul(identity_spec(), v)[12] == v[12]) by {
        assert(identity_spec()[12] == 0);
        assert(identity_spec()[13] == 0);
        assert(identity_spec()[14] == 0);
        assert(identity_spec()[15] == ONE as int);
        lemma_dot4_unit(v[0], v[4], v[8], v[12]);
    }
    assert(mat_mul(identity_spec(), v)[13] == v[13]) by {
        assert(identity_spec()[12] == 0);
        assert(identity_spec()[13] == 0);
        assert(identity_spec()[14] == 0);
        assert(identity_spec()[15] == ONE as int);
        lemma_dot4_unit(v[1], v[5], v[9], v[13]);
    }
    assert(mat_mul(identity_spec(), v)[14] == v[14]) by {
        assert(identity_spec()[12] == 0);
        assert(identity_spec()[13] == 0);
        assert(identity_spec()[14] == 0);
        assert(identity_spec()[15] == ONE as int);
        lemma_dot4_unit(v[2], v[6], v[10], v[14]);
    }
    assert(mat_mul(identity_spec(), v)[15] == v[15]) by {
        assert(identity_spec()[12] == 0);
        assert(identity_spec()[13] == 0);
        assert(identity_spec()[14] == 0);
        assert(identity_spec()[15] == ONE as int);
        lemma_dot4_unit(v[3], v[7], v[11], v[15]);
    }
    assert(mat_mul(identity_spec(), v) =~= v);
}

/// Multiplying by the identity on the right returns the other factor
/// unchanged: the fixed-point product is exact here, with no rounding.
pub proof fn lemma_mul_identity_right(v: Seq<int>)
    requires
        mat16(v),
    ensures
        mat_mul(v, identity_spec()) =~= v,
{
    assert(mat_mul(v, identity_spec())[0] == v[0]) by {
        assert(identity_spec()[0] == ONE as int);
        assert(identity_spec()[4] == 0);
        assert(identity_spec()[8] == 0);
        assert(identity_spec()[12] == 0);
        lemma_dot4_unit_col(v[0], v[1], v[2], v[3]);
    }
    assert(mat_mul(v, identity_spec())[1] == v[1]) by {
        assert(identity_spec()[1] == 0);
        assert(identity_spec()[5] == ONE as int);
        assert(identity_spec()[9] == 0);
        assert(identity_spec()[13] == 0);
        lemma_dot4_unit_col(v[0], v[1], v[2], v[3]);
    }
    assert(mat_mul(v, identity_spec())[2] == v[2]) by {
        assert(identity_spec()[2] == 0);
        assert(identity_spec()[6] == 0);
        assert(identity_spec()[10] == ONE as int);
        assert(identity_spec()[14] == 0);
        lemma_dot4_unit_col(v[0], v[1], v[2], v[3]);
    }
    assert(mat_mul(v, identity_spec())[3] == v[3]) by {
        assert(identity_spec()[3] == 0);
        assert(identity_spec()[7] == 0);
        assert(identity_spec()[11] == 0);
        assert(identity_spec()[15] == ONE as int);
        lemma_dot4_unit_col(v[0], v[1], v[2], v[3]);
    }
    assert(mat_mul(v, identity_spec())[4] == v[4]) by {
        assert(identity_spec()[0] == ONE as int);
        assert(identity_spec()[4] == 0);
        assert(identity_spec()[8] == 0);
        assert(identity_spec()[12] == 0);
        lemma_dot4_unit_col(v[4], v[5], v[6], v[7]);
    }
    assert(mat_mul(v, identity_spec())[5] == v[5]) by {
        assert(identity_spec()[1] == 0);
        assert(identity_spec()[5] == ONE as int);
        assert(identity_spec()[9] == 0);
        assert(identity_spec()[13] == 0);
        lemma_dot4_unit_col(v[4], v[5], v[6], v[7]);
    }
    assert(mat_mul(v, identity_spec())[6] == v[6]) by {
        assert(identity_spec()[2] == 0);
        assert(identity_spec()[6] == 0);
        assert(identity_spec()[10] == ONE as int);
        assert(identity_spec()[14] == 0);
        lemma_dot4_unit_col(v[4], v[5], v[6], v[7]);
    }
    assert(mat_mul(v, identity_spec())[7] == v[7]) by {
        assert(identity_spec()[3] == 0);
        assert(identity_spec()[7] == 0);
        assert(identity_spec()[11] == 0);
        assert(identity_spec()[15] == ONE as int);
        lemma_dot4_unit_col(v[4], v[5], v[6], v[7]);
    }
    assert(mat_mul(v, identity_spec())[8] == v[8]) by {
        assert(identity_spec()[0] == ONE as int);
        assert(identity_spec()[4] == 0);
        assert(identity_spec()[8] == 0);
        assert(identity_spec()[12] == 0);
        lemma_dot4_unit_col(v[8], v[9], v[10], v[11]);
    }
    assert(mat_mul(v, identity_spec())[9] == v[9]) by {
        assert(identity_spec()[1] == 0);
        assert(identity_spec()[5] == ONE as int);
        assert(identity_spec()[9] == 0);
        assert(identity_spec()[13] == 0);
        lemma_dot4_unit_col(v[8], v[9], v[10], v[11]);
    }
    assert(mat_mul(v, identity_spec())[10] == v[10]) by {
        assert(identity_spec()[2] == 0);
        assert(identity_spec()[6] == 0);
        assert(identity_spec()[10] == ONE as int);
        assert(identity_spec()[14] == 0);
        lemma_dot4_unit_col(v[8], v[9], v[10], v[11]);
    }
    assert(mat_mul(v, identity_spec())[11] == v[11]) by {
        assert(identity_spec()[3] == 0);
        assert(identity_spec()[7] == 0);
        assert(identity_spec()[11] == 0);
        assert(identity_spec()[15] == ONE as int);
        lemma_dot4_unit_col(v[8], v[9], v[10], v[11]);
    }
    assert(mat_mul(v, identity_spec())[12] == v[12]) by {
        assert(identity_spec()[0] == ONE as int);
        assert(identity_spec()[4] == 0);
        assert(identity_spec()[8] == 0);
        assert(identity_spec()[12] == 0);
        lemma_dot4_unit_col(v[12], v[13], v[14], v[15]);
    }
    assert(mat_mul(v, identity_spec())[13] == v[13]) by {
        assert(identity_spec()[1] == 0);
        assert(identity_spec()[5] == ONE as int);
        assert(identity_spec()[9] == 0);
        assert(identity_spec()[13] == 0);
        lemma_dot4_unit_col(v[12], v[13], v[14], v[15]);
    }
    assert(mat_mul(v, identity_spec())[14] == v[14]) by {
        assert(identity_spec()[2] == 0);
        assert(identity_spec()[6] == 0);
        assert(identity_spec()[10] == ONE as int);
        assert(identity_spec()[14] == 0);
        lemma_dot4_unit_col(v[12], v[13], v[14], v[15]);
    }
    assert(mat_mul(v, identity_spec())[15] == v[15]) by {
        assert(identity_spec()[3] == 0);
        assert(identity_spec()[7] == 0);
        assert(identity_spec()[11] == 0);
        assert(identity_spec()[15] == ONE as int);
        lemma_dot4_unit_col(v[12], v[13], v[14], v[15]);
    }
    assert(mat_mul(v, identity_spec()) =~= v);
}

/// A rotation about X through the zero angle (sine 0, cosine `ONE`) is the
/// identity.
pub proof fn lemma_rotation_x_zero()
    ensures
        rotation_x_spec(0, ONE as int) =~= identity_spec(),
{
}

/// A rotation about Y through the zero angle (sine 0, cosine `ONE`) is the
/// identity.
pub proof fn lemma_rotation_y_zero()
    ensures
        rotation_y_spec(0, ONE as int) =~= identity_spec(),
{
}

/// A rotation about Z through the zero angle (sine 0, cosine `ONE`) is the
/// identity.
pub proof fn lemma_rotation_z_zero()
    ensures
        rotation_z_spec(0, ONE as int) =~= identity_spec(),
{
}

/// Scaling by a factor of one on every axis is the identity.
pub proof fn lemma_scale_one()
    ensures
        scale_spec(ONE as int, ONE as int, ONE as int) =~= identity_spec(),
{
}

/// Translating by a zero offset on every axis is the identity.
pub proof fn lemma_translation_zero()
    ensures
        translation_spec(0, 0, 0) =~= identity_spec(),
{
}

/// Coefficient bounds propagate through a product: coefficients within `p`
/// times coefficients within `q` give a product whose coefficients lie
/// within `4 * p * q / ONE + 1` of zero.
pub proof fn lemma_mat_mul_within(a: Seq<int>, b: Seq<int>, p: int, q: int)
    requires
        mat16(a),
        mat16(b),
        0 <= p,
        0 <= q,
        mat_within(a, p),
        mat_within(b, q),
    ensures
        mat_within(mat_mul(a, b), 4 * p * q / (ONE as int) + 1),
{
    assert forall|k: int| 0 <= k < 16 implies
        -(4 * p * q / (ONE as int) + 1) <= #[trigger] mat_mul(a, b)[k]
            <= 4 * p * q / (ONE as int) + 1 by {
        let i = k / 4;
        let j = k % 4;
        lemma_mul_in_range(a[4 * i], b[j], p, q);
        lemma_mul_in_range(a[4 * i + 1], b[4 + j], p, q);
        lemma_mul_in_range(a[4 * i + 2], b[8 + j], p, q);
        lemma_mul_in_range(a[4 * i + 3], b[12 + j], p, q);
        vstd::arithmetic::mul::lemma_mul_nonnegative(p, q);
        vstd::arithmetic::mul::lemma_mul_is_associative(4, p, q);
        lemma_sdown_tight(
            a[4 * i] * b[j] + a[4 * i + 1] * b[4 + j] + a[4 * i + 2] * b[8 + j]
                + a[4 * i + 3] * b[12 + j],
            4 * p * q,
        );
    }
}

/// The product of two affine matrices is affine: the bottom row stays
/// `[0, 0, 0, ONE]`.
pub proof fn lemma_mat_mul_affine(a: Seq<int>, b: Seq<int>)
    requires
        mat_affine(a),
        mat_affine(b),
    ensures
        mat_affine(mat_mul(a, b)),
{
    lemma_div_multiples_vanish(b[12], ONE as int);
    lemma_div_multiples_vanish(b[13], ONE as int);
    lemma_div_multiples_vanish(b[14], ONE as int);
    lemma_div_multiples_vanish(b[15], ONE as int);
    assert(mat_mul(a, b)[12] == 0);
    assert(mat_mul(a, b)[13] == 0);
    assert(mat_mul(a, b)[14] == 0);
    assert(mat_mul(a, b)[15] == ONE);
}

} // verus!
