//! The operation controller's vocabulary: operation kinds, step formulas,
//! and the rotation-step inputs the host supplies.
//!
//! An operation spreads a total desired change across a number of frames.
//! The per-frame step values are computed here; for rotations, the host
//! evaluates the sine and cosine of the per-frame angle (the library does
//! no trigonometry) and hands the pair in as plain fixed-point scalars.

use crate::fixed::{div_floor, lemma_div_stays_in_range, ONE, OP_LIMIT};
use crate::matrix::{
    identity_spec, mat_mul, rotation_x_spec, rotation_y_spec, rotation_z_spec,
};
use vstd::prelude::*;

verus! {

/// The kind of the currently active operation.
#[derive(Clone, Copy, PartialEq, Eq, Structural, Debug)]
pub enum OperationType {
    Nothing,
    Rotate,
    Scale,
    Translate,
}

/// Why a request to the engine was rejected.
#[derive(Clone, Copy, PartialEq, Eq, Structural, Debug)]
pub enum EngineError {
    /// A frame count of zero would divide the total change by zero.
    InvalidFrameCount,
    /// An object with no points has no centroid.
    EmptyObject,
}

/// The sine and cosine of one angle, as fixed-point scalars in
/// `[-ONE, ONE]`.
#[derive(Clone, Copy, PartialEq, Eq, Structural, Debug)]
pub struct SinCos {
    pub sin: i64,
    pub cos: i64,
}

impl SinCos {
    /// Both components lie in the range a sine or cosine can take.
    pub open spec fn wf(&self) -> bool {
        &&& -ONE <= self.sin <= ONE
        &&& -ONE <= self.cos <= ONE
    }

    /// The sine and cosine of the zero angle.
    pub fn zero_angle() -> (r: SinCos)
        ensures
            r == (SinCos { sin: 0, cos: ONE }),
    {
        SinCos { sin: 0, cos: ONE }
    }
}

/// The host-evaluated sine/cosine pairs of the per-frame rotation angles
/// about each axis.
#[derive(Clone, Copy, PartialEq, Eq, Structural, Debug)]
pub struct RotationSteps {
    pub x: SinCos,
    pub y: SinCos,
    pub z: SinCos,
}

impl RotationSteps {
    /// Every pair lies in the range a sine and cosine can take.
    pub open spec fn wf(&self) -> bool {
        self.x.wf() && self.y.wf() && self.z.wf()
    }

    /// The steps of a request that rotates nothing: three zero angles.
    pub fn zero_angles() -> (r: RotationSteps)
        ensures
            r == (RotationSteps {
                x: SinCos { sin: 0, cos: ONE },
                y: SinCos { sin: 0, cos: ONE },
                z: SinCos { sin: 0, cos: ONE },
            }),
    {
        RotationSteps {
            x: SinCos::zero_angle(),
            y: SinCos::zero_angle(),
            z: SinCos::zero_angle(),
        }
    }
}

/// The human-readable description of the current operation, recorded for
/// an external presentation layer: the kind and the three requested
/// totals (not the per-step values).
#[derive(Clone, Copy, PartialEq, Eq, Structural, Debug)]
pub enum OpText {
    /// No operation has been requested yet.
    Empty,
    Rotation { x: i64, y: i64, z: i64 },
    Scale { x: i64, y: i64, z: i64 },
    Translate { x: i64, y: i64, z: i64 },
    /// The active operation has finished applying.
    Complete,
}

/// The per-frame amount of a total spread across `f` frames: the total
/// divided by the frame count, rounded toward minus infinity.
pub open spec fn frame_fraction_spec(total: int, f: int) -> int {
    total / f
}

/// The per-frame amount of a total spread across `f` frames.  For a
/// rotation this is the per-frame angle in fixed-point degrees, whose sine
/// and cosine the host evaluates into a [`SinCos`].
pub fn frame_fraction(total: i64, f: u32) -> (r: i64)
    requires
        1 <= f,
    ensures
        r == frame_fraction_spec(total as int, f as int),
        -OP_LIMIT <= total <= OP_LIMIT ==> -OP_LIMIT <= r <= OP_LIMIT,
{
    proof {
        lemma_div_stays_in_range(total as int, f as int);
    }
    div_floor(total, f as i64)
}

/// The per-frame scale factor toward a total factor over `f` frames:
/// `(total - 1) / f + 1` in fixed point, with an axis whose total is
/// exactly one left alone.  This is a deliberate linear approximation:
/// compounding it `f` times comes close to, but does not exactly reach,
/// the total factor.
pub open spec fn scale_step_spec(total: int, f: int) -> int {
    if total == ONE {
        ONE as int
    } else {
        (total - ONE) / f + ONE
    }
}

/// The per-frame scale factor toward `total` over `f` frames.
pub fn scale_step(total: i64, f: u32) -> (r: i64)
    requires
        1 <= f,
        -OP_LIMIT <= total <= OP_LIMIT,
    ensures
        r == scale_step_spec(total as int, f as int),
        -OP_LIMIT - 2 * ONE <= r <= OP_LIMIT + 2 * ONE,
{
    if total == ONE {
        ONE
    } else {
        proof {
            lemma_div_stays_in_range(total - ONE, f as int);
        }
        div_floor(total - ONE, f as i64) + ONE
    }
}

/// The fixed-point value a unit coordinate reaches after `n` ticks of a
/// scale step `s`: each tick multiplies by `s` and scales back down, as
/// one tick of the engine does to a coordinate.
pub open spec fn compound_scale(s: int, n: nat) -> int
    decreases n,
{
    if n == 0 {
        ONE as int
    } else {
        crate::fixed::sdown(compound_scale(s, (n - 1) as nat) * s)
    }
}

/// The scale step-compounding drift, pinned: compounding the per-tick
/// factor toward a total of two over twelve frames for twelve ticks does
/// not reach the total.  The per-tick factor is a linear approximation —
/// `(total - 1) / f + 1`, not an f-th root — so twelve compounded steps
/// land at about 2.613 where the requested total was 2; the exact value
/// reached is the regression baseline for this deliberate behavior.
pub proof fn lemma_scale_step_compounding_drifts()
    ensures
        scale_step_spec(2 * ONE, 12) == 1_083_333,
        compound_scale(1_083_333, 12) == 2_613_017,
        compound_scale(scale_step_spec(2 * ONE, 12), 12) != 2 * ONE,
{
    assert(compound_scale(1_083_333, 0) == 1_000_000);
    assert(compound_scale(1_083_333, 1) == 1_083_333);
    assert(compound_scale(1_083_333, 2) == 1_173_610);
    assert(compound_scale(1_083_333, 3) == 1_271_410);
    assert(compound_scale(1_083_333, 4) == 1_377_360);
    assert(compound_scale(1_083_333, 5) == 1_492_139);
    assert(compound_scale(1_083_333, 6) == 1_616_483);
    assert(compound_scale(1_083_333, 7) == 1_751_189);
    assert(compound_scale(1_083_333, 8) == 1_897_120);
    assert(compound_scale(1_083_333, 9) == 2_055_212);
    assert(compound_scale(1_083_333, 10) == 2_226_478);
    assert(compound_scale(1_083_333, 11) == 2_412_017);
    assert(compound_scale(1_083_333, 12) == 2_613_017);
}

/// The step matrix of a rotate operation: rotations about X, then Y, then
/// Z composed onto a fresh identity, each axis skipped when its total is
/// zero.  `x`, `y`, `z` are the requested totals; `steps` holds the
/// sine/cosine pairs of the per-frame angles.
pub open spec fn rotate_step_matrix(x: int, y: int, z: int, steps: RotationSteps) -> Seq<int> {
    let after_x = if x != 0 {
        mat_mul(rotation_x_spec(steps.x.sin as int, steps.x.cos as int), identity_spec())
    } else {
        identity_spec()
    };
    let after_y = if y != 0 {
        mat_mul(rotation_y_spec(steps.y.sin as int, steps.y.cos as int), after_x)
    } else {
        after_x
    };
    if z != 0 {
        mat_mul(rotation_z_spec(steps.z.sin as int, steps.z.cos as int), after_y)
    } else {
        after_y
    }
}

/// A rotate operation's step matrix is affine: each factor has the affine
/// bottom row, and the product keeps it.
pub proof fn lemma_rotate_step_matrix_affine(x: int, y: int, z: int, steps: RotationSteps)
    ensures
        crate::matrix::mat_affine(rotate_step_matrix(x, y, z, steps)),
{
    let after_x = if x != 0 {
        mat_mul(rotation_x_spec(steps.x.sin as int, steps.x.cos as int), identity_spec())
    } else {
        identity_spec()
    };
    let after_y = if y != 0 {
        mat_mul(rotation_y_spec(steps.y.sin as int, steps.y.cos as int), after_x)
    } else {
        after_x
    };
    assert(crate::matrix::mat_affine(identity_spec()));
    if x != 0 {
        assert(crate::matrix::mat_affine(
            rotation_x_spec(steps.x.sin as int, steps.x.cos as int),
        ));
        crate::matrix::lemma_mat_mul_affine(
            rotation_x_spec(steps.x.sin as int, steps.x.cos as int),
            identity_spec(),
        );
    }
    if y != 0 {
        assert(crate::matrix::mat_affine(
            rotation_y_spec(steps.y.sin as int, steps.y.cos as int),
        ));
        crate::matrix::lemma_mat_mul_affine(
            rotation_y_spec(steps.y.sin as int, steps.y.cos as int),
            after_x,
        );
    }
    if z != 0 {
        assert(crate::matrix::mat_affine(
            rotation_z_spec(steps.z.sin as int, steps.z.cos as int),
        ));
        crate::matrix::lemma_mat_mul_affine(
            rotation_z_spec(steps.z.sin as int, steps.z.cos as int),
            after_y,
        );
    }
}

} // verus!
