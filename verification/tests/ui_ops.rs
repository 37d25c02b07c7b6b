//! Input-event decisions and geometry validation.

use affine3d::fixed::ONE;
use affine3d::object::Object;
use affine3d::operation::OperationType;
use affine3d::point::Point;
use affine3d::ui::{
    key_press_decision, source_link_hit, wheel_scale_factor, KeyAction, KEY_END, KEY_MINUS,
    KEY_MOVE_LEFT, KEY_MOVE_RIGHT, KEY_NONE, KEY_PAGE_UP, KEY_ROTATE_UP,
};

#[test]
fn a_repeated_key_stops_the_running_operation() {
    let r = key_press_decision(KEY_PAGE_UP, KEY_PAGE_UP, 15 * ONE, true);
    assert_eq!(r.action, KeyAction::Stop);
    assert_eq!(r.prev_key, KEY_PAGE_UP);
    assert_eq!(r.step_size, 15 * ONE);
}

#[test]
fn a_repeated_key_without_an_operation_reissues_it() {
    let r = key_press_decision(KEY_MOVE_LEFT, KEY_MOVE_LEFT, 15 * ONE, false);
    assert_eq!(
        r.action,
        KeyAction::Request {
            op: OperationType::Translate,
            frames: 12,
            x: 15 * ONE / 2,
            y: 0,
            z: 0,
        }
    );
}

#[test]
fn move_keys_translate_by_half_a_step() {
    let r = key_press_decision(KEY_MOVE_RIGHT, KEY_NONE, 15 * ONE, false);
    assert_eq!(
        r.action,
        KeyAction::Request {
            op: OperationType::Translate,
            frames: 12,
            x: -(15 * ONE / 2),
            y: 0,
            z: 0,
        }
    );
    assert_eq!(r.prev_key, KEY_MOVE_RIGHT);
}

#[test]
fn rotate_keys_rotate_by_a_full_step() {
    let r = key_press_decision(KEY_ROTATE_UP, KEY_NONE, 10 * ONE, false);
    assert_eq!(
        r.action,
        KeyAction::Request { op: OperationType::Rotate, frames: 12, x: -10 * ONE, y: 0, z: 0 }
    );
    let r2 = key_press_decision(KEY_END, KEY_NONE, 10 * ONE, false);
    assert_eq!(
        r2.action,
        KeyAction::Request {
            op: OperationType::Rotate,
            frames: 12,
            x: 10 * ONE,
            y: -10 * ONE,
            z: 0,
        }
    );
}

#[test]
fn minus_adjusts_the_step_size_and_reissues_the_previous_key() {
    let r = key_press_decision(KEY_MINUS, KEY_PAGE_UP, 15 * ONE, false);
    assert_eq!(r.step_size, 10 * ONE);
    assert_eq!(r.prev_key, KEY_PAGE_UP);
    assert_eq!(
        r.action,
        KeyAction::Request {
            op: OperationType::Rotate,
            frames: 12,
            x: -10 * ONE,
            y: 10 * ONE,
            z: 0,
        }
    );
}

#[test]
fn an_unmapped_key_does_nothing_but_is_remembered() {
    let r = key_press_decision(99, KEY_NONE, 15 * ONE, false);
    assert_eq!(r.action, KeyAction::Idle);
    assert_eq!(r.prev_key, 99);
}

#[test]
fn wheel_delta_turns_into_a_scale_factor() {
    // 1.0 + delta / 5, in fixed point.
    assert_eq!(wheel_scale_factor(2), 1_400_000);
    assert_eq!(wheel_scale_factor(-3), 400_000);
    assert_eq!(wheel_scale_factor(0), ONE);
}

#[test]
fn source_link_hit_requires_both_coordinates_past_the_corner() {
    assert!(source_link_hit(801, 561, 800, 600));
    assert!(!source_link_hit(800, 561, 800, 600));
    assert!(!source_link_hit(801, 560, 800, 600));
}

#[test]
fn geometry_validation_rejects_out_of_range_positions() {
    let good = Object {
        colour: String::new(),
        points: vec![
            Point { num: 0, x: 0, y: 0, z: 0 },
            Point { num: 1, x: ONE, y: 0, z: 0 },
            Point { num: 2, x: 0, y: ONE, z: 0 },
        ],
        edges: vec![vec![0, 1], vec![1, 2]],
        surfaces: vec![vec![0, 1, 2]],
        mid_point: Point { num: 0, x: 0, y: 0, z: 0 },
    };
    assert!(good.geometry_valid());

    let bad_edge = Object { edges: vec![vec![0, 5]], ..good };
    assert!(!bad_edge.geometry_valid());

    let bad_surface = Object {
        colour: String::new(),
        points: vec![Point { num: 0, x: 0, y: 0, z: 0 }],
        edges: vec![],
        surfaces: vec![vec![0, 0]],
        mid_point: Point { num: 0, x: 0, y: 0, z: 0 },
    };
    assert!(!bad_surface.geometry_valid());
}
