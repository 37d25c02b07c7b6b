//! Fixed-point scalars.
//!
//! Every coordinate, matrix coefficient, angle (in degrees) and scale factor
//! in this crate is an `i64` counting multiples of `1/ONE` of a unit.  A
//! product of two such scalars is computed in 128 bits and scaled back down
//! by `ONE` with floor division, which matches the mathematical `/` of the
//! specifications exactly.

use vstd::arithmetic::div_mod::{
    lemma_div_is_ordered, lemma_div_nonincreasing, lemma_div_pos_is_pos,
    lemma_fundamental_div_mod, lemma_fundamental_div_mod_converse_div, lemma_mod_bound,
};
use vstd::arithmetic::mul::lemma_mul_inequality;
use vstd::prelude::*;

verus! {

/// One whole unit: the denominator of the fixed-point encoding.
pub const ONE: i64 = 1_000_000;

/// Magnitude bound on the scalars fed to a four-term dot product, chosen so
/// that the 128-bit intermediate sum and the scaled-down `i64` result cannot
/// overflow.
pub const COEF_LIMIT: i64 = 0x100_0000_0000;

/// Magnitude bound on the totals a caller hands to the operation
/// controller and the importer.  Far below `COEF_LIMIT`, so the step
/// values and translated coordinates derived from such totals stay within
/// every bound the matrix and point functions ask for.
pub const OP_LIMIT: i64 = 0x8000_0000;

/// Scale a doubled-precision value back down to single precision:
/// floor division by `ONE`.
pub open spec fn sdown(x: int) -> int {
    x / (ONE as int)
}

/// The fixed-point dot product of two vectors of four scalars: the exact
/// integer sum of products, scaled back down by `ONE`.
pub open spec fn dot4(
    a0: int, a1: int, a2: int, a3: int,
    b0: int, b1: int, b2: int, b3: int,
) -> int {
    sdown(a0 * b0 + a1 * b1 + a2 * b2 + a3 * b3)
}

/// Floor division by a divisor of at least one keeps a value between any
/// symmetric bounds around zero that held before.
pub proof fn lemma_div_stays_in_range(a: int, d: int)
    requires
        1 <= d,
    ensures
        a >= 0 ==> 0 <= a / d <= a,
        a < 0 ==> a <= a / d <= 0,
{
    if a >= 0 {
        lemma_div_pos_is_pos(a, d);
        lemma_div_nonincreasing(a, d);
    } else {
        let q = a / d;
        let r = a % d;
        lemma_fundamental_div_mod(a, d);
        lemma_mod_bound(a, d);
        if q > 0 {
            lemma_mul_inequality(1, q, d);
            assert(false);
        }
        if q < a {
            lemma_mul_inequality(q, a - 1, d);
            lemma_mul_inequality(a - 1, -1, d - 1);
            assert((a - 1) * d == a * d - d) by (nonlinear_arith);
            assert(a * d <= a) by (nonlinear_arith)
                requires
                    a < 0,
                    d >= 1,
            ;
            assert(false);
        }
    }
}

/// Negating a nonnegative dividend moves its floor quotient down by at most
/// one: `(-a) / d >= -(a / d) - 1`.
pub proof fn lemma_neg_div_bound(a: int, d: int)
    requires
        0 <= a,
        0 < d,
    ensures
        (-a) / d >= -(a / d) - 1,
{
    lemma_fundamental_div_mod(a, d);
    lemma_mod_bound(a, d);
    let q = a / d;
    let r = a % d;
    if r == 0 {
        assert(-a == (-q) * d + 0) by (nonlinear_arith)
            requires
                a == d * q + r,
                r == 0,
        ;
        lemma_fundamental_div_mod_converse_div(-a, d, -q, 0);
    } else {
        assert(-a == (-q - 1) * d + (d - r)) by (nonlinear_arith)
            requires
                a == d * q + r,
        ;
        lemma_fundamental_div_mod_converse_div(-a, d, -q - 1, d - r);
    }
}

/// Scaling down a value within `b` of zero gives a result between
/// `-(b / ONE) - 1` and `b / ONE`.
pub proof fn lemma_sdown_tight(x: int, b: int)
    requires
        -b <= x <= b,
        0 <= b,
    ensures
        -(b / (ONE as int)) - 1 <= sdown(x) <= b / (ONE as int),
{
    lemma_div_is_ordered(x, b, ONE as int);
    lemma_div_is_ordered(-b, x, ONE as int);
    lemma_neg_div_bound(b, ONE as int);
}

/// The magnitude of a product is bounded by the product of the bounds.
pub proof fn lemma_mul_in_range(a: int, b: int, p: int, q: int)
    by (nonlinear_arith)
    requires
        -p <= a <= p,
        -q <= b <= q,
    ensures
        -(p * q) <= a * b <= p * q,
{
}

/// Floor-divides by a positive divisor.  Unlike the `/` of Rust, which
/// truncates toward zero, this matches the `/` of the specifications.
pub fn div_floor(a: i64, d: i64) -> (r: i64)
    requires
        1 <= d,
    ensures
        r == a as int / d as int,
{
    proof {
        lemma_div_stays_in_range(a as int, d as int);
    }
    a.checked_div_euclid(d).unwrap()
}

/// The fixed-point dot product of two vectors of four scalars, computed
/// without overflow through 128-bit intermediates.
pub fn fp_dot4(
    a0: i64, a1: i64, a2: i64, a3: i64,
    b0: i64, b1: i64, b2: i64, b3: i64,
) -> (r: i64)
    requires
        -COEF_LIMIT <= a0 <= COEF_LIMIT,
        -COEF_LIMIT <= a1 <= COEF_LIMIT,
        -COEF_LIMIT <= a2 <= COEF_LIMIT,
        -COEF_LIMIT <= a3 <= COEF_LIMIT,
        -COEF_LIMIT <= b0 <= COEF_LIMIT,
        -COEF_LIMIT <= b1 <= COEF_LIMIT,
        -COEF_LIMIT <= b2 <= COEF_LIMIT,
        -COEF_LIMIT <= b3 <= COEF_LIMIT,
    ensures
        r == dot4(
            a0 as int, a1 as int, a2 as int, a3 as int,
            b0 as int, b1 as int, b2 as int, b3 as int,
        ),
{
    proof {
        let c = COEF_LIMIT as int;
        lemma_mul_in_range(a0 as int, b0 as int, c, c);
        lemma_mul_in_range(a1 as int, b1 as int, c, c);
        lemma_mul_in_range(a2 as int, b2 as int, c, c);
        lemma_mul_in_range(a3 as int, b3 as int, c, c);
    }
    let p0: i128 = (a0 as i128) * (b0 as i128);
    let p1: i128 = (a1 as i128) * (b1 as i128);
    let p2: i128 = (a2 as i128) * (b2 as i128);
    let p3: i128 = (a3 as i128) * (b3 as i128);
    let s: i128 = p0 + p1 + p2 + p3;
    proof {
        let c = COEF_LIMIT as int;
        lemma_div_stays_in_range(s as int, ONE as int);
        lemma_div_is_ordered(s as int, 4 * c * c, ONE as int);
        lemma_div_is_ordered(-(4 * c * c), s as int, ONE as int);
    }
    let q: i128 = s.checked_div_euclid(ONE as i128).unwrap();
    q as i64
}

} // verus!
