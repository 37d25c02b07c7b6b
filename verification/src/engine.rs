//! The engine: the aggregate that owns the world space, the active
//! operation and the global point-identity counter.
//!
//! The host drives it with discrete intents: set up an operation, apply
//! one tick of it, import an object, query the paint order.  Every entry
//! point sees the whole engine, so state that belongs together (the step
//! matrix and the remaining-frame counter, or the object map mid-replace)
//! is updated in one step.

use crate::fixed::{COEF_LIMIT, ONE, OP_LIMIT};
use crate::matrix::{
    identity, identity_spec, lemma_mat_mul_affine, lemma_mat_mul_within, mat_affine, mat_mul,
    mat_within, rotate_around_x,
    rotate_around_y, rotate_around_z, rotation_x_spec, rotation_y_spec, rotation_z_spec, scale,
    scale_spec, translate, translation_spec, Matrix,
};
use crate::object::{
    centroid, copy_indices, is_transformed_object, transform_object, Edge, Object, Surface,
};
use crate::operation::{
    frame_fraction, frame_fraction_spec, lemma_rotate_step_matrix_affine, rotate_step_matrix,
    scale_step, scale_step_spec, EngineError, OpText, OperationType, RotationSteps,
};
use crate::point::{lemma_translation_moves_point, transform, Point};
use crate::world::{NamedObject, WorldSpace};
use vstd::prelude::*;

verus! {

/// The whole engine state: the object map, the active operation's step
/// matrix, kind and remaining-frame counter, the recorded operation
/// description, and the global point-identity counter.
pub struct Engine {
    pub world_space: WorldSpace,
    pub transform_matrix: Matrix,
    pub queue_op: OperationType,
    pub queue_parts: i64,
    pub op_text: OpText,
    pub point_counter: i32,
}

/// `r` is `template` placed into world space at offset `(x, y, z)` with
/// fresh point identities drawn from a counter that stood at `c0`: every
/// coordinate translated exactly, identities numbered consecutively from
/// `c0` in point order, color, edges and surfaces carried over unchanged,
/// and the centroid recomputed from the translated points.
pub open spec fn is_imported(template: Object, x: int, y: int, z: int, c0: int, r: Object) -> bool {
    &&& r.colour@ == template.colour@
    &&& r.points.len() == template.points.len()
    &&& forall|i: int| 0 <= i < template.points.len() ==> {
        let p = #[trigger] r.points[i];
        &&& p.num == c0 + i
        &&& p.x == template.points[i].x + x
        &&& p.y == template.points[i].y + y
        &&& p.z == template.points[i].z + z
    }
    &&& r.edges.len() == template.edges.len()
    &&& forall|e: int| 0 <= e < template.edges.len() ==> (#[trigger] r.edges[e])@ == template.edges[e]@
    &&& r.surfaces.len() == template.surfaces.len()
    &&& forall|s: int| 0 <= s < template.surfaces.len() ==>
        (#[trigger] r.surfaces[s])@ == template.surfaces[s]@
    &&& r.centroid_wf()
}

impl Engine {
    /// The engine's own invariant: object names are unique and the point
    /// counter never runs backward past zero.
    pub open spec fn wf(&self) -> bool {
        &&& self.world_space.names_unique()
        &&& self.point_counter >= 0
    }

    /// Every stored object's coordinates lie within `c` of zero.
    pub open spec fn world_within(&self, c: int) -> bool {
        forall|i: int| 0 <= i < self.world_space.entries.len() ==>
            (#[trigger] self.world_space.entries[i]).object.coords_within(c)
    }

    /// A tick finds nothing to apply: no operation is active, or a scale
    /// operation has used up its frame budget.  (Only the scale kind halts
    /// on an exhausted counter; a rotate or translate keeps reapplying
    /// until it is explicitly replaced or canceled.  This asymmetry is a
    /// deliberate, pinned behavior of the engine.)
    pub open spec fn tick_idle(&self) -> bool {
        ||| self.queue_op is Nothing
        ||| (self.queue_op is Scale && self.queue_parts < 1)
    }

    /// A fresh engine: an empty world, the identity step matrix, no active
    /// operation, a frame budget of one and the point counter at zero.
    pub fn new() -> (r: Engine)
        ensures
            r.world_space.entries@ == Seq::<NamedObject>::empty(),
            r.transform_matrix@ == identity_spec(),
            mat_affine(r.transform_matrix@),
            r.queue_op is Nothing,
            r.queue_parts == 1,
            r.op_text is Empty,
            r.point_counter == 0,
            r.wf(),
    {
        Engine {
            world_space: WorldSpace::new(),
            transform_matrix: identity(),
            queue_op: OperationType::Nothing,
            queue_parts: 1,
            op_text: OpText::Empty,
            point_counter: 0,
        }
    }

    /// Cancels the active operation: from the next tick on, nothing is
    /// applied.  An in-flight tick is never interrupted.
    pub fn cancel_operation(&mut self)
        ensures
            final(self).queue_op is Nothing,
            final(self).world_space == old(self).world_space,
            final(self).transform_matrix == old(self).transform_matrix,
            final(self).queue_parts == old(self).queue_parts,
            final(self).op_text == old(self).op_text,
            final(self).point_counter == old(self).point_counter,
    {
        self.queue_op = OperationType::Nothing;
    }

    /// Runtime check that the step matrix and every stored object fit the
    /// coordinate bound that [`Engine::apply_transformation`] asks for.
    pub fn fits_coef_limit(&self) -> (b: bool)
        ensures
            b == (self.transform_matrix.within(COEF_LIMIT as int)
                && self.world_within(COEF_LIMIT as int)),
    {
        if !self.transform_matrix.fits_coef_limit() {
            return false;
        }
        let mut i: usize = 0;
        while i < self.world_space.entries.len()
            invariant
                i <= self.world_space.entries.len(),
                forall|j: int| 0 <= j < i ==>
                    (#[trigger] self.world_space.entries[j]).object.coords_within(
                        COEF_LIMIT as int,
                    ),
            decreases self.world_space.entries.len() - i,
        {
            if !self.world_space.entries[i].object.fits_coef_limit() {
                return false;
            }
            i = i + 1;
        }
        true
    }

    /// Installs a new operation: the total desired change `(x, y, z)` —
    /// degrees for a rotate, target factors for a scale, offsets for a
    /// translate — spread across `f` frames.  The step matrix replaces
    /// any previous one (a still-running operation is abandoned), the
    /// frame counter restarts at `f`, and the request is recorded for
    /// display.  For a rotate, `steps` must hold the host-evaluated sine
    /// and cosine of each per-frame angle `frame_fraction(total, f)`; the
    /// other kinds ignore `steps`.
    ///
    /// A frame count of zero is rejected: it would divide the totals by
    /// zero.
    pub fn set_up_operation(
        &mut self,
        op: OperationType,
        f: u32,
        x: i64,
        y: i64,
        z: i64,
        steps: RotationSteps,
    ) -> (r: Result<(), EngineError>)
        requires
            -OP_LIMIT <= x <= OP_LIMIT,
            -OP_LIMIT <= y <= OP_LIMIT,
            -OP_LIMIT <= z <= OP_LIMIT,
            steps.wf(),
        ensures
            r is Err <==> f == 0,
            f == 0 ==> *final(self) == *old(self) && r == Err::<(), EngineError>(
                EngineError::InvalidFrameCount,
            ),
            f >= 1 ==> {
                &&& final(self).queue_parts == f as int
                &&& final(self).queue_op == op
                &&& final(self).world_space == old(self).world_space
                &&& final(self).point_counter == old(self).point_counter
                &&& final(self).transform_matrix@ == (match op {
                    OperationType::Nothing => identity_spec(),
                    OperationType::Rotate => rotate_step_matrix(
                        x as int,
                        y as int,
                        z as int,
                        steps,
                    ),
                    OperationType::Scale => mat_mul(
                        scale_spec(
                            scale_step_spec(x as int, f as int),
                            scale_step_spec(y as int, f as int),
                            scale_step_spec(z as int, f as int),
                        ),
                        identity_spec(),
                    ),
                    OperationType::Translate => mat_mul(
                        translation_spec(
                            frame_fraction_spec(x as int, f as int),
                            frame_fraction_spec(y as int, f as int),
                            frame_fraction_spec(z as int, f as int),
                        ),
                        identity_spec(),
                    ),
                })
                &&& final(self).op_text == (match op {
                    OperationType::Nothing => old(self).op_text,
                    OperationType::Rotate => OpText::Rotation { x, y, z },
                    OperationType::Scale => OpText::Scale { x, y, z },
                    OperationType::Translate => OpText::Translate { x, y, z },
                })
                &&& mat_affine(final(self).transform_matrix@)
            },
    {
        if f == 0 {
            return Err(EngineError::InvalidFrameCount);
        }

        // Number of parts to break the transformation into.
        self.queue_parts = f as i64;

        // Reset the transform base: a new operation never composes with
        // what an earlier one left behind.
        self.transform_matrix = identity();
        proof {
            assert(mat_within(identity_spec(), COEF_LIMIT as int));
        }

        match op {
            // Rotate the objects in world space, one per-frame angle at a
            // time about each requested axis.
            OperationType::Rotate => {
                if x != 0 {
                    proof {
                        assert(mat_within(
                            rotation_x_spec(steps.x.sin as int, steps.x.cos as int),
                            ONE as int,
                        ));
                        assert(mat_within(identity_spec(), ONE as int));
                        lemma_mat_mul_within(
                            rotation_x_spec(steps.x.sin as int, steps.x.cos as int),
                            identity_spec(),
                            ONE as int,
                            ONE as int,
                        );
                    }
                    self.transform_matrix = rotate_around_x(
                        &self.transform_matrix,
                        steps.x.sin,
                        steps.x.cos,
                    );
                }
                proof {
                    assert(self.transform_matrix.within(4_000_001));
                }
                if y != 0 {
                    proof {
                        assert(mat_within(
                            rotation_y_spec(steps.y.sin as int, steps.y.cos as int),
                            ONE as int,
                        ));
                        lemma_mat_mul_within(
                            rotation_y_spec(steps.y.sin as int, steps.y.cos as int),
                            self.transform_matrix@,
                            ONE as int,
                            4_000_001,
                        );
                    }
                    self.transform_matrix = rotate_around_y(
                        &self.transform_matrix,
                        steps.y.sin,
                        steps.y.cos,
                    );
                }
                proof {
                    assert(self.transform_matrix.within(16_000_005));
                }
                if z != 0 {
                    proof {
                        assert(mat_within(
                            rotation_z_spec(steps.z.sin as int, steps.z.cos as int),
                            ONE as int,
                        ));
                        lemma_mat_mul_within(
                            rotation_z_spec(steps.z.sin as int, steps.z.cos as int),
                            self.transform_matrix@,
                            ONE as int,
                            16_000_005,
                        );
                    }
                    self.transform_matrix = rotate_around_z(
                        &self.transform_matrix,
                        steps.z.sin,
                        steps.z.cos,
                    );
                }
                proof {
                    assert(self.transform_matrix@ == rotate_step_matrix(
                        x as int,
                        y as int,
                        z as int,
                        steps,
                    ));
                    lemma_rotate_step_matrix_affine(x as int, y as int, z as int, steps);
                }
                self.op_text = OpText::Rotation { x, y, z };
            }

            // Scale the objects in world space by the per-frame factor
            // toward each axis's target.
            OperationType::Scale => {
                let x_part = scale_step(x, f);
                let y_part = scale_step(y, f);
                let z_part = scale_step(z, f);
                self.transform_matrix = scale(&self.transform_matrix, x_part, y_part, z_part);
                proof {
                    assert(mat_affine(scale_spec(x_part as int, y_part as int, z_part as int)));
                    lemma_mat_mul_affine(
                        scale_spec(x_part as int, y_part as int, z_part as int),
                        identity_spec(),
                    );
                }
                self.op_text = OpText::Scale { x, y, z };
            }

            // Translate (move) the objects in world space by the
            // per-frame fraction of each offset.
            OperationType::Translate => {
                let x_off = frame_fraction(x, f);
                let y_off = frame_fraction(y, f);
                let z_off = frame_fraction(z, f);
                self.transform_matrix = translate(&self.transform_matrix, x_off, y_off, z_off);
                proof {
                    assert(mat_affine(translation_spec(x_off as int, y_off as int, z_off as int)));
                    lemma_mat_mul_affine(
                        translation_spec(x_off as int, y_off as int, z_off as int),
                        identity_spec(),
                    );
                }
                self.op_text = OpText::Translate { x, y, z };
            }

            // Nothing to do: the base was still reset and the frame
            // counter restarted, as for every request.
            OperationType::Nothing => {
                proof {
                    assert(mat_affine(identity_spec()));
                }
            }
        }

        self.queue_op = op;
        Ok(())
    }

    /// Applies one tick of the active operation: replaces every object
    /// with its transform under the step matrix (identity numbers, point
    /// counts, colors, edges and surfaces unchanged) and decrements the
    /// remaining-frame counter.  An idle tick — no active operation, or a
    /// scale whose frames are used up — changes nothing but the recorded
    /// description, which becomes `Complete`.
    pub fn apply_transformation(&mut self)
        requires
            old(self).transform_matrix.within(COEF_LIMIT as int),
            old(self).world_within(COEF_LIMIT as int),
            old(self).queue_parts > i64::MIN,
        ensures
            old(self).tick_idle() ==> {
                &&& final(self).op_text is Complete
                &&& final(self).world_space == old(self).world_space
                &&& final(self).transform_matrix == old(self).transform_matrix
                &&& final(self).queue_op == old(self).queue_op
                &&& final(self).queue_parts == old(self).queue_parts
                &&& final(self).point_counter == old(self).point_counter
            },
            !old(self).tick_idle() ==> {
                &&& final(self).world_space.entries.len() == old(self).world_space.entries.len()
                &&& forall|i: int| 0 <= i < old(self).world_space.entries.len() ==>
                    (#[trigger] final(self).world_space.entries[i]).name
                        == old(self).world_space.entries[i].name
                &&& forall|i: int| 0 <= i < old(self).world_space.entries.len() ==>
                    is_transformed_object(
                        old(self).transform_matrix@,
                        old(self).world_space.entries[i].object,
                        (#[trigger] final(self).world_space.entries[i]).object,
                    )
                &&& final(self).queue_parts == old(self).queue_parts - 1
                &&& final(self).transform_matrix == old(self).transform_matrix
                &&& final(self).queue_op == old(self).queue_op
                &&& final(self).op_text == old(self).op_text
                &&& final(self).point_counter == old(self).point_counter
            },
            old(self).wf() ==> final(self).wf(),
    {
        if (self.queue_parts < 1 && self.queue_op == OperationType::Scale)
            || self.queue_op == OperationType::Nothing {
            self.op_text = OpText::Complete;
            return ;
        }

        // Transform each object in the world space, using the step matrix.
        let mut new_entries: Vec<NamedObject> = Vec::new();
        let mut i: usize = 0;
        while i < self.world_space.entries.len()
            invariant
                *self == *old(self),
                old(self).transform_matrix.within(COEF_LIMIT as int),
                old(self).world_within(COEF_LIMIT as int),
                i <= self.world_space.entries.len(),
                new_entries.len() == i,
                forall|j: int| 0 <= j < i ==>
                    (#[trigger] new_entries[j]).name == old(self).world_space.entries[j].name,
                forall|j: int| 0 <= j < i ==>
                    is_transformed_object(
                        old(self).transform_matrix@,
                        old(self).world_space.entries[j].object,
                        (#[trigger] new_entries[j]).object,
                    ),
            decreases self.world_space.entries.len() - i,
        {
            proof {
                assert(self.world_space.entries[i as int].object.coords_within(COEF_LIMIT as int));
            }
            let name = self.world_space.entries[i].name.clone();
            let new_object = transform_object(
                &self.transform_matrix,
                &self.world_space.entries[i].object,
            );
            new_entries.push(NamedObject { name, object: new_object });
            i = i + 1;
        }

        // Replace the original world space with the updated world space.
        self.world_space.entries = new_entries;

        self.queue_parts = self.queue_parts - 1;

        proof {
            if old(self).wf() {
                assert forall|a: int, b: int|
                    0 <= a < b < self.world_space.entries.len() implies
                    (#[trigger] self.world_space.entries[a]).name@
                        != (#[trigger] self.world_space.entries[b]).name@ by {
                    assert(old(self).world_space.entries[a].name@
                        != old(self).world_space.entries[b].name@);
                }
            }
        }
    }

    /// Places a template object into world space at offset `(x, y, z)`:
    /// every point translated and given a fresh identity from the global
    /// counter, the centroid recomputed from the translated points, and
    /// color, edges and surfaces carried over unchanged (they reference
    /// point positions, which do not move).
    ///
    /// A template with no points is rejected: it has no centroid.
    pub fn import_object(&mut self, ob: &Object, x: i64, y: i64, z: i64) -> (r: Result<
        Object,
        EngineError,
    >)
        requires
            forall|i: int| 0 <= i < ob.points.len() ==>
                (#[trigger] ob.points[i]).within(OP_LIMIT as int),
            -OP_LIMIT <= x <= OP_LIMIT,
            -OP_LIMIT <= y <= OP_LIMIT,
            -OP_LIMIT <= z <= OP_LIMIT,
            old(self).point_counter >= 0,
            old(self).point_counter + ob.points.len() <= i32::MAX,
        ensures
            r is Err <==> ob.points.len() == 0,
            ob.points.len() == 0 ==> *final(self) == *old(self) && r == Err::<
                Object,
                EngineError,
            >(EngineError::EmptyObject),
            ob.points.len() > 0 ==> {
                &&& r matches Ok(res) && is_imported(
                    *ob,
                    x as int,
                    y as int,
                    z as int,
                    old(self).point_counter as int,
                    res,
                )
                &&& final(self).point_counter == old(self).point_counter + ob.points.len()
                &&& final(self).world_space == old(self).world_space
                &&& final(self).transform_matrix == old(self).transform_matrix
                &&& final(self).queue_op == old(self).queue_op
                &&& final(self).queue_parts == old(self).queue_parts
                &&& final(self).op_text == old(self).op_text
            },
    {
        if ob.points.len() == 0 {
            return Err(EngineError::EmptyObject);
        }

        // The translation matrix that places the template at the given
        // world-space coordinates.
        let m = Matrix {
            m: [
                ONE, 0, 0, x,
                0, ONE, 0, y,
                0, 0, ONE, z,
                0, 0, 0, ONE,
            ],
        };
        proof {
            assert(m@ =~= translation_spec(x as int, y as int, z as int));
            assert(m.within(COEF_LIMIT as int));
        }

        // Translate the points, assigning each a fresh identity number.
        let mut new_points: Vec<Point> = Vec::new();
        let mut i: usize = 0;
        while i < ob.points.len()
            invariant
                forall|j: int| 0 <= j < ob.points.len() ==>
                    (#[trigger] ob.points[j]).within(OP_LIMIT as int),
                -OP_LIMIT <= x <= OP_LIMIT,
                -OP_LIMIT <= y <= OP_LIMIT,
                -OP_LIMIT <= z <= OP_LIMIT,
                *self == *old(self),
                old(self).point_counter >= 0,
                old(self).point_counter + ob.points.len() <= i32::MAX,
                m@ == translation_spec(x as int, y as int, z as int),
                m.within(COEF_LIMIT as int),
                i <= ob.points.len(),
                new_points.len() == i,
                forall|j: int| 0 <= j < i ==> {
                    let p = #[trigger] new_points[j];
                    &&& p.num == old(self).point_counter + j
                    &&& p.x == ob.points[j].x + x
                    &&& p.y == ob.points[j].y + y
                    &&& p.z == ob.points[j].z + z
                },
            decreases ob.points.len() - i,
        {
            let p = ob.points[i];
            proof {
                assert(ob.points[i as int].within(OP_LIMIT as int));
            }
            let t = transform(&m, p);
            proof {
                lemma_translation_moves_point(m@, x as int, y as int, z as int, p);
            }
            new_points.push(Point { num: self.point_counter + i as i32, x: t.x, y: t.y, z: t.z });
            i = i + 1;
        }

        // Determine the mid point for the translated object.
        proof {
            assert forall|j: int| 0 <= j < new_points.len() implies
                (#[trigger] new_points[j]).within(COEF_LIMIT as int) by {
                assert(ob.points[j].within(OP_LIMIT as int));
            }
        }
        let mid = centroid(&new_points);

        // Copy the colour, edge, and surface definitions across.
        let mut new_edges: Vec<Edge> = Vec::new();
        let mut e: usize = 0;
        while e < ob.edges.len()
            invariant
                e <= ob.edges.len(),
                new_edges.len() == e,
                forall|j: int| 0 <= j < e ==> (#[trigger] new_edges[j])@ == ob.edges[j]@,
            decreases ob.edges.len() - e,
        {
            new_edges.push(copy_indices(&ob.edges[e]));
            e = e + 1;
        }
        let mut new_surfaces: Vec<Surface> = Vec::new();
        let mut s: usize = 0;
        while s < ob.surfaces.len()
            invariant
                s <= ob.surfaces.len(),
                new_surfaces.len() == s,
                forall|j: int| 0 <= j < s ==> (#[trigger] new_surfaces[j])@ == ob.surfaces[j]@,
            decreases ob.surfaces.len() - s,
        {
            new_surfaces.push(copy_indices(&ob.surfaces[s]));
            s = s + 1;
        }

        let translated_object = Object {
            colour: ob.colour.clone(),
            points: new_points,
            edges: new_edges,
            surfaces: new_surfaces,
            mid_point: mid,
        };

        self.point_counter = self.point_counter + ob.points.len() as i32;

        Ok(translated_object)
    }
}

/// Importing the same template twice in a row at any two offsets yields
/// objects whose point identities form disjoint ranges, while both keep
/// the template's edge and surface lists exactly.
pub proof fn lemma_import_twice_disjoint(
    t: Object,
    x1: int, y1: int, z1: int,
    x2: int, y2: int, z2: int,
    c0: int,
    r1: Object,
    r2: Object,
)
    requires
        is_imported(t, x1, y1, z1, c0, r1),
        is_imported(t, x2, y2, z2, c0 + t.points.len(), r2),
    ensures
        forall|i: int, j: int|
            0 <= i < r1.points.len() && 0 <= j < r2.points.len() ==>
                (#[trigger] r1.points[i]).num != (#[trigger] r2.points[j]).num,
        forall|e: int| 0 <= e < t.edges.len() ==> (#[trigger] r1.edges[e])@ == t.edges[e]@
            && (#[trigger] r2.edges[e])@ == t.edges[e]@,
        forall|s: int| 0 <= s < t.surfaces.len() ==> (#[trigger] r1.surfaces[s])@ == t.surfaces[s]@
            && (#[trigger] r2.surfaces[s])@ == t.surfaces[s]@,
{
    assert forall|i: int, j: int|
        0 <= i < r1.points.len() && 0 <= j < r2.points.len() implies
        (#[trigger] r1.points[i]).num != (#[trigger] r2.points[j]).num by {
        assert(r1.points[i].num == c0 + i);
        assert(r2.points[j].num == c0 + t.points.len() + j);
        assert(i < t.points.len());
    }
}

} // verus!
