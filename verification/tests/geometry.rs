use nalgebra::{UnitQuaternion, Vector3};
use rotation_controller::offset::frame_offset;
use rotation_controller::rot3::{rot_x_quarters, rot_y_quarters};
use rotation_controller::{Mat3, Orientation};

fn offset_value(num: i64, den: u64) -> f64 {
    num as f64 / den as f64
}

#[test]
fn frame_offset_examples() {
    let wide = frame_offset(300, 600);
    assert_eq!(offset_value(wide.num, wide.den), -0.25);
    let narrow = frame_offset(150, 600);
    assert_eq!(offset_value(narrow.num, narrow.den), -0.125);
}

#[test]
fn frame_offset_zero_height_degenerates_to_zero() {
    let o = frame_offset(300, 0);
    assert_eq!(o.num, 0);
    assert_eq!(o.den, 1);
    let v = offset_value(o.num, o.den);
    assert_eq!(v, 0.0);
    assert!(v.is_finite());
}

#[test]
fn frame_offset_halving_height_doubles_magnitude() {
    let o = frame_offset(300, 600);
    let halved = frame_offset(300, 300);
    assert_eq!(offset_value(halved.num, halved.den), 2.0 * offset_value(o.num, o.den));
}

#[test]
fn zero_angles_give_identity_rotation() {
    let o = Orientation { x_mdeg: 0, y_mdeg: 0, z_mdeg: 0 };
    let m = o.exact_matrix().unwrap();
    assert_eq!(m, Mat3::identity());
    assert_eq!(m.transform_point(7, -3, 12), (7, -3, 12));
    assert_eq!(m.transform_point(0, 0, 0), (0, 0, 0));
}

#[test]
fn axis_order_is_not_commutative() {
    let x_then_y = rot_x_quarters(1).multiply(&rot_y_quarters(1));
    let y_then_x = rot_y_quarters(1).multiply(&rot_x_quarters(1));
    assert_ne!(x_then_y, y_then_x);
}

#[test]
fn quarter_turn_about_x_has_exact_matrix() {
    let o = Orientation { x_mdeg: 90_000, y_mdeg: 0, z_mdeg: 0 };
    let m = o.exact_matrix().unwrap();
    let expected = Mat3 { m00: 1, m01: 0, m02: 0, m10: 0, m11: 0, m12: -1, m20: 0, m21: 1, m22: 0 };
    assert_eq!(m, expected);
    assert_eq!(m.transform_point(1, 2, 3), (1, -3, 2));
}

#[test]
fn half_turn_boundaries_have_exact_matrix() {
    let o = Orientation { x_mdeg: 180_000, y_mdeg: -180_000, z_mdeg: 0 };
    let m = o.exact_matrix().unwrap();
    let expected = Mat3 { m00: -1, m01: 0, m02: 0, m10: 0, m11: -1, m12: 0, m20: 0, m21: 0, m22: 1 };
    assert_eq!(m, expected);
}

#[test]
fn exact_matrix_rejects_unaligned_angles() {
    let o = Orientation { x_mdeg: 45_000, y_mdeg: 0, z_mdeg: 0 };
    assert!(o.exact_matrix().is_none());
    let o = Orientation { x_mdeg: 0, y_mdeg: -90_000, z_mdeg: 1 };
    assert!(o.exact_matrix().is_none());
}

#[test]
fn exact_matrix_matches_float_quaternion_composition() {
    let o = Orientation { x_mdeg: 90_000, y_mdeg: 90_000, z_mdeg: -90_000 };
    let m = o.exact_matrix().unwrap();

    let half_pi = std::f32::consts::PI / 2.0;
    let q = UnitQuaternion::from_axis_angle(&Vector3::x_axis(), half_pi)
        * UnitQuaternion::from_axis_angle(&Vector3::y_axis(), half_pi)
        * UnitQuaternion::from_axis_angle(&Vector3::z_axis(), -half_pi);
    let r = q.to_rotation_matrix();

    let exact = [
        [m.m00, m.m01, m.m02],
        [m.m10, m.m11, m.m12],
        [m.m20, m.m21, m.m22],
    ];
    for (i, row) in exact.iter().enumerate() {
        for (j, &entry) in row.iter().enumerate() {
            assert!((r[(i, j)] - entry as f32).abs() < 1e-5);
        }
    }
}
