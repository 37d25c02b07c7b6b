//! Engine scenarios: importing, operations across frames, the tick, and
//! the paint order.

use affine3d::engine::Engine;
use affine3d::fixed::ONE;
use affine3d::object::{centroid, Object};
use affine3d::operation::{
    frame_fraction, scale_step, EngineError, OpText, OperationType, RotationSteps, SinCos,
};
use affine3d::point::Point;

/// Converts a number of units to the fixed-point encoding.
fn fx(v: f64) -> i64 {
    (v * ONE as f64).round() as i64
}

/// The host's side of a rotation request: the sine and cosine of an angle
/// given in fixed-point degrees.
fn sin_cos_of(deg: i64) -> SinCos {
    let rad = (deg as f64 / ONE as f64).to_radians();
    SinCos { sin: fx(rad.sin()), cos: fx(rad.cos()) }
}

fn no_rotation() -> RotationSteps {
    RotationSteps {
        x: SinCos { sin: 0, cos: ONE },
        y: SinCos { sin: 0, cos: ONE },
        z: SinCos { sin: 0, cos: ONE },
    }
}

/// A triangle at the origin with one point off every axis, so scale and
/// translate effects show on each coordinate.
fn triangle_template() -> Object {
    let points = vec![
        Point { num: 0, x: ONE, y: ONE, z: ONE },
        Point { num: 1, x: ONE, y: -ONE, z: 0 },
        Point { num: 2, x: -ONE, y: 0, z: -ONE },
    ];
    let mid = centroid(&points);
    Object {
        colour: String::from("lightblue"),
        points,
        edges: vec![vec![0, 1], vec![1, 2], vec![2, 0]],
        surfaces: vec![vec![0, 1, 2]],
        mid_point: mid,
    }
}

/// A one-point object whose centroid sits at the given Z depth.
fn marker(z: f64) -> Object {
    let points = vec![Point { num: 0, x: 0, y: 0, z: fx(z) }];
    let mid = centroid(&points);
    Object {
        colour: String::from("black"),
        points,
        edges: vec![],
        surfaces: vec![],
        mid_point: mid,
    }
}

#[test]
fn zero_frame_count_is_rejected() {
    let mut engine = Engine::new();
    let r = engine.set_up_operation(OperationType::Translate, 0, ONE, 0, 0, no_rotation());
    assert_eq!(r, Err(EngineError::InvalidFrameCount));
    assert_eq!(engine.queue_parts, 1);
    assert!(matches!(engine.op_text, OpText::Empty));
}

#[test]
fn empty_template_is_rejected() {
    let mut engine = Engine::new();
    let empty = Object::new();
    let r = engine.import_object(&empty, 0, 0, 0);
    assert!(matches!(r, Err(EngineError::EmptyObject)));
    assert_eq!(engine.point_counter, 0);
}

#[test]
fn importing_twice_gives_disjoint_identity_ranges() {
    let mut engine = Engine::new();
    let template = triangle_template();
    let first = engine.import_object(&template, fx(5.0), fx(3.0), 0).unwrap();
    let second = engine.import_object(&template, fx(-1.0), fx(3.0), 0).unwrap();

    let first_ids: Vec<i32> = first.points.iter().map(|p| p.num).collect();
    let second_ids: Vec<i32> = second.points.iter().map(|p| p.num).collect();
    assert_eq!(first_ids, vec![0, 1, 2]);
    assert_eq!(second_ids, vec![3, 4, 5]);
    assert_eq!(engine.point_counter, 6);

    // The local edge and surface index lists stay the template's.
    assert_eq!(first.edges, template.edges);
    assert_eq!(second.edges, template.edges);
    assert_eq!(first.surfaces, template.surfaces);
    assert_eq!(second.surfaces, template.surfaces);

    // Coordinates are translated exactly.
    assert_eq!(first.points[0].x, ONE + fx(5.0));
    assert_eq!(first.points[0].y, ONE + fx(3.0));
    assert_eq!(second.points[2].x, -ONE + fx(-1.0));
}

#[test]
fn import_recomputes_the_centroid_from_translated_points() {
    let mut engine = Engine::new();
    let template = triangle_template();
    let placed = engine.import_object(&template, fx(9.0), 0, 0).unwrap();
    // X coordinates: 10, 10, 8 units; mean 28/3 units, floored in micro-units.
    assert_eq!(placed.mid_point.x, 28 * ONE / 3);
    assert_eq!(placed.mid_point.y, 0);
    assert_eq!(placed.mid_point.z, 0);
}

#[test]
fn centroid_floors_the_mean() {
    let points = vec![
        Point { num: 0, x: ONE, y: 0, z: -ONE },
        Point { num: 1, x: ONE, y: 0, z: 0 },
        Point { num: 2, x: 0, y: 0, z: 0 },
    ];
    let mid = centroid(&points);
    assert_eq!(mid.x, 666_666);
    assert_eq!(mid.z, -333_334);
}

#[test]
fn depth_order_sorts_by_descending_centroid_z() {
    let mut engine = Engine::new();
    for (name, z) in [("low", -1.0), ("mid", 0.0), ("high", 2.5)] {
        let ob = engine.import_object(&marker(z), 0, 0, 0).unwrap();
        engine.world_space.insert(String::from(name), ob);
    }
    let order = engine.paint_order();
    let names: Vec<&str> = order.iter().map(|p| p.name.as_str()).collect();
    assert_eq!(names, vec!["high", "mid", "low"]);
    let depths: Vec<i64> = order.iter().map(|p| p.mid_z).collect();
    assert_eq!(depths, vec![fx(2.5), 0, fx(-1.0)]);
}

#[test]
fn depth_order_keeps_every_object_when_depths_tie() {
    let mut engine = Engine::new();
    for name in ["one", "two", "three"] {
        let ob = engine.import_object(&marker(1.5), 0, 0, 0).unwrap();
        engine.world_space.insert(String::from(name), ob);
    }
    let order = engine.paint_order();
    let mut names: Vec<&str> = order.iter().map(|p| p.name.as_str()).collect();
    names.sort();
    assert_eq!(names, vec!["one", "three", "two"]);
    assert!(order.iter().all(|p| p.mid_z == fx(1.5)));
}

#[test]
fn translate_spread_across_twelve_frames_adds_up_exactly() {
    let mut engine = Engine::new();
    let placed = engine.import_object(&triangle_template(), 0, 0, 0).unwrap();
    let before: Vec<i64> = placed.points.iter().map(|p| p.x).collect();
    engine.world_space.insert(String::from("tri"), placed);

    engine
        .set_up_operation(OperationType::Translate, 12, fx(12.0), 0, 0, no_rotation())
        .unwrap();
    assert!(matches!(engine.op_text, OpText::Translate { .. }));
    for _ in 0..12 {
        assert!(engine.fits_coef_limit());
        engine.apply_transformation();
    }
    assert_eq!(engine.queue_parts, 0);

    let after = engine.world_space.get(&String::from("tri")).unwrap();
    for (i, p) in after.points.iter().enumerate() {
        assert_eq!(p.x, before[i] + fx(12.0));
    }
    assert_eq!(after.mid_point.x, fx(12.0) + ONE / 3);

    // The frame budget is spent; canceling makes the next tick report the
    // operation complete and change nothing else.
    engine.cancel_operation();
    engine.apply_transformation();
    assert!(matches!(engine.op_text, OpText::Complete));
    let settled = engine.world_space.get(&String::from("tri")).unwrap();
    assert_eq!(settled.points[0].x, before[0] + fx(12.0));
}

#[test]
fn scale_toward_factor_two_lands_at_the_documented_drift() {
    let mut engine = Engine::new();
    let placed = engine.import_object(&triangle_template(), 0, 0, 0).unwrap();
    engine.world_space.insert(String::from("tri"), placed);

    engine
        .set_up_operation(OperationType::Scale, 12, fx(2.0), fx(2.0), fx(2.0), no_rotation())
        .unwrap();
    for _ in 0..12 {
        engine.apply_transformation();
    }
    assert_eq!(engine.queue_parts, 0);

    // A coordinate that started at exactly 1.0 compounds to 2.613017, not
    // to the requested 2.0: the per-tick factor is a linear approximation,
    // and this exact landing value is the regression baseline.
    let after = engine.world_space.get(&String::from("tri")).unwrap();
    assert_eq!(after.points[0].x, 2_613_017);
    assert_ne!(after.points[0].x, fx(2.0));

    // A scale with its frames used up halts: the next tick only marks the
    // operation complete.
    let frozen = after.points[0].x;
    engine.apply_transformation();
    assert!(matches!(engine.op_text, OpText::Complete));
    assert_eq!(engine.queue_parts, 0);
    let still = engine.world_space.get(&String::from("tri")).unwrap();
    assert_eq!(still.points[0].x, frozen);
}

#[test]
fn rotate_keeps_applying_after_its_frames_run_out() {
    // Unlike a scale, a rotate is not halted by an exhausted frame
    // counter: it reapplies until replaced or canceled.
    let mut engine = Engine::new();
    let placed = engine.import_object(&marker(0.0), ONE, 0, 0).unwrap();
    engine.world_space.insert(String::from("dot"), placed);

    let step = sin_cos_of(frame_fraction(fx(90.0), 1));
    let steps = RotationSteps { x: SinCos { sin: 0, cos: ONE }, y: SinCos { sin: 0, cos: ONE }, z: step };
    engine.set_up_operation(OperationType::Rotate, 1, 0, 0, fx(90.0), steps).unwrap();

    engine.apply_transformation();
    assert_eq!(engine.queue_parts, 0);
    let once = engine.world_space.get(&String::from("dot")).unwrap().points[0];
    assert_eq!((once.x, once.y), (0, ONE));

    // One more tick: the quarter turn applies again.
    engine.apply_transformation();
    assert_eq!(engine.queue_parts, -1);
    let twice = engine.world_space.get(&String::from("dot")).unwrap().points[0];
    assert_eq!((twice.x, twice.y), (-ONE, 0));
}

#[test]
fn rotate_steps_compound_to_the_total_rotation() {
    // Spreading a quarter turn about Z across f frames and ticking f
    // times lands within rounding distance of the single total rotation.
    for f in [1u32, 4, 12] {
        let mut engine = Engine::new();
        let placed = engine.import_object(&marker(0.0), ONE, 0, 0).unwrap();
        engine.world_space.insert(String::from("dot"), placed);

        let step = sin_cos_of(frame_fraction(fx(90.0), f));
        let steps = RotationSteps {
            x: SinCos { sin: 0, cos: ONE },
            y: SinCos { sin: 0, cos: ONE },
            z: step,
        };
        engine.set_up_operation(OperationType::Rotate, f, 0, 0, fx(90.0), steps).unwrap();
        for _ in 0..f {
            engine.apply_transformation();
        }
        let p = engine.world_space.get(&String::from("dot")).unwrap().points[0];
        // The exact quarter turn sends (1, 0, 0) to (0, 1, 0).
        let tolerance = 50;
        assert!((p.x - 0).abs() <= tolerance, "f={}: x={}", f, p.x);
        assert!((p.y - ONE).abs() <= tolerance, "f={}: y={}", f, p.y);
        assert_eq!(p.z, 0);
    }
}

#[test]
fn a_new_operation_abandons_the_previous_frames() {
    let mut engine = Engine::new();
    engine
        .set_up_operation(OperationType::Translate, 12, fx(12.0), 0, 0, no_rotation())
        .unwrap();
    assert_eq!(engine.queue_parts, 12);
    engine.apply_transformation();
    assert_eq!(engine.queue_parts, 11);
    engine
        .set_up_operation(OperationType::Translate, 5, fx(1.0), 0, 0, no_rotation())
        .unwrap();
    assert_eq!(engine.queue_parts, 5);
}

#[test]
fn step_formulas_have_their_exact_values() {
    // Scale: (2.0 - 1) / 12 + 1 in fixed point, floored.
    assert_eq!(scale_step(2 * ONE, 12), 1_083_333);
    // An axis whose total factor is exactly one is left alone.
    assert_eq!(scale_step(ONE, 12), ONE);
    // Translate and rotate fractions floor toward minus infinity.
    assert_eq!(frame_fraction(fx(-25.0), 12), -2_083_334);
    assert_eq!(frame_fraction(fx(25.0), 12), 2_083_333);
}

#[test]
fn lookup_of_an_unknown_name_reports_not_found() {
    let mut engine = Engine::new();
    let ob = engine.import_object(&marker(1.0), 0, 0, 0).unwrap();
    engine.world_space.insert(String::from("known"), ob);
    assert!(engine.world_space.get(&String::from("known")).is_some());
    assert!(engine.world_space.get(&String::from("unknown")).is_none());
}

#[test]
fn inserting_an_existing_name_overwrites_that_object() {
    let mut engine = Engine::new();
    let first = engine.import_object(&marker(1.0), 0, 0, 0).unwrap();
    let second = engine.import_object(&marker(2.0), 0, 0, 0).unwrap();
    engine.world_space.insert(String::from("only"), first);
    engine.world_space.insert(String::from("only"), second);
    assert_eq!(engine.world_space.len(), 1);
    let stored = engine.world_space.get(&String::from("only")).unwrap();
    assert_eq!(stored.mid_point.z, fx(2.0));
}

#[test]
fn ticking_transforms_the_centroid_with_the_points() {
    let mut engine = Engine::new();
    let placed = engine.import_object(&triangle_template(), 0, 0, 0).unwrap();
    engine.world_space.insert(String::from("tri"), placed);
    engine
        .set_up_operation(OperationType::Translate, 1, fx(3.0), fx(-2.0), 0, no_rotation())
        .unwrap();
    engine.apply_transformation();
    let after = engine.world_space.get(&String::from("tri")).unwrap();
    assert_eq!(after.mid_point.x, ONE / 3 + fx(3.0));
    assert_eq!(after.mid_point.y, fx(-2.0));
    assert_eq!(after.mid_point.z, 0);
    // The color and topology ride along unchanged.
    assert_eq!(after.colour, "lightblue");
    assert_eq!(after.edges.len(), 3);
    assert_eq!(after.surfaces.len(), 1);
    assert_eq!(after.points[1].num, 1);
}
