use rotation_controller::{Axis, RotationController, SliderEdit};

#[test]
fn new_controller_starts_at_zero() {
    let c = RotationController::new();
    assert_eq!(c.angle(Axis::X), 0);
    assert_eq!(c.angle(Axis::Y), 0);
    assert_eq!(c.angle(Axis::Z), 0);
}

#[test]
fn composed_orientation_deterministic() {
    let mut c = RotationController::new();
    c.set_axis(Axis::X, 37_500);
    c.set_axis(Axis::Y, -112_000);
    c.set_axis(Axis::Z, 180_000);
    let first = c.composed_orientation();
    let second = c.composed_orientation();
    assert_eq!(first, second);
}

#[test]
fn set_axis_overwrites_only_its_axis() {
    let mut c = RotationController::new();
    c.set_axis(Axis::X, 10_000);
    c.set_axis(Axis::Y, -20_000);
    assert_eq!(c.angle(Axis::X), 10_000);
    assert_eq!(c.angle(Axis::Y), -20_000);
    assert_eq!(c.angle(Axis::Z), 0);
}

#[test]
fn set_axis_idempotent_scenario() {
    let mut c = RotationController::new();
    c.set_axis(Axis::Y, 45_000);
    let state_once = c;
    let orientation_once = c.composed_orientation();
    c.set_axis(Axis::Y, 45_000);
    assert_eq!(c, state_once);
    assert_eq!(c.composed_orientation(), orientation_once);
}

#[test]
fn apply_edits_last_value_wins() {
    let mut c = RotationController::new();
    let edits = vec![
        SliderEdit { axis: Axis::X, value_mdeg: 10_000 },
        SliderEdit { axis: Axis::Z, value_mdeg: 5_000 },
        SliderEdit { axis: Axis::X, value_mdeg: -20_000 },
    ];
    c.apply_edits(&edits);
    assert_eq!(c.angle(Axis::X), -20_000);
    assert_eq!(c.angle(Axis::Y), 0);
    assert_eq!(c.angle(Axis::Z), 5_000);
}

#[test]
fn apply_edits_with_no_edits_changes_nothing() {
    let mut c = RotationController::new();
    c.set_axis(Axis::Z, -90_000);
    let before = c;
    c.apply_edits(&Vec::new());
    assert_eq!(c, before);
}

#[test]
fn one_frame_latency_scenario() {
    let mut c = RotationController::new();
    let frame_n = c.frame_transform(150, 600);
    assert_eq!(frame_n.orientation.x_mdeg, 0);

    let edits = vec![SliderEdit { axis: Axis::X, value_mdeg: 30_000 }];
    c.apply_edits(&edits);

    let frame_n_plus_1 = c.frame_transform(150, 600);
    assert_eq!(frame_n_plus_1.orientation.x_mdeg, 30_000);
    assert_eq!(frame_n_plus_1.orientation.y_mdeg, 0);
    assert_eq!(frame_n_plus_1.orientation.z_mdeg, 0);
}

#[test]
fn frame_transform_carries_offset_and_orientation() {
    let mut c = RotationController::new();
    c.set_axis(Axis::Z, 90_000);
    let t = c.frame_transform(300, 600);
    assert_eq!(t.offset.num, -300);
    assert_eq!(t.offset.den, 1200);
    assert_eq!(t.orientation.z_mdeg, 90_000);
}
