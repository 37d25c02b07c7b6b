//! Rendering of the recorded operation description.

use affine3d::fixed::ONE;
use affine3d::operation::OpText;
use affine3d::text::{fixed_point_string, render_op_text};

#[test]
fn whole_units_print_without_a_fraction() {
    assert_eq!(fixed_point_string(25 * ONE), "25");
    assert_eq!(fixed_point_string(-25 * ONE), "-25");
    assert_eq!(fixed_point_string(0), "0");
}

#[test]
fn fractions_drop_their_trailing_zeros() {
    assert_eq!(fixed_point_string(7 * ONE + ONE / 2), "7.5");
    assert_eq!(fixed_point_string(ONE + 250_000), "1.25");
    assert_eq!(fixed_point_string(1), "0.000001");
    assert_eq!(fixed_point_string(-(ONE / 10)), "-0.1");
    assert_eq!(fixed_point_string(1_083_333), "1.083333");
}

#[test]
fn operation_lines_name_the_kind_and_the_totals() {
    assert_eq!(render_op_text(&OpText::Empty), "");
    assert_eq!(render_op_text(&OpText::Complete), "Complete.");
    assert_eq!(
        render_op_text(&OpText::Rotation { x: -25 * ONE, y: 25 * ONE, z: 0 }),
        "Rotation. X: -25 Y: 25 Z: 0"
    );
    assert_eq!(
        render_op_text(&OpText::Scale { x: 14 * ONE / 10, y: 2 * ONE, z: ONE }),
        "Scale. X: 1.4 Y: 2 Z: 1"
    );
    assert_eq!(
        render_op_text(&OpText::Translate { x: 15 * ONE / 2, y: 0, z: -ONE }),
        "Translate. X: 7.5 Y: 0 Z: -1"
    );
}
