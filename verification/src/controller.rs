use vstd::prelude::*;

use crate::offset::{frame_offset, offset_den, offset_num, FrameOffset};
use crate::rot3::{composed_quarters, composed_rotation, Mat3};

verus! {

/// Half a turn in millidegrees: the angle sliders run over [-180°, 180°].
pub const HALF_TURN_MDEG: i32 = 180000;

/// A quarter turn in millidegrees.
pub const QUARTER_TURN_MDEG: i32 = 90000;

/// One of the three coordinate axes an angle slider is bound to.
#[derive(Clone, Copy, Debug, PartialEq, Eq, Structural)]
pub enum Axis {
    X,
    Y,
    Z,
}

/// A new value reported by the slider bound to one axis during a frame's
/// UI pass. The value is in millidegrees, within the slider's range.
#[derive(Clone, Copy, Debug, PartialEq, Eq, Structural)]
pub struct SliderEdit {
    pub axis: Axis,
    pub value_mdeg: i32,
}

impl SliderEdit {
    /// The slider only reports values within its range.
    pub open spec fn wf(self) -> bool {
        -HALF_TURN_MDEG <= self.value_mdeg <= HALF_TURN_MDEG
    }
}

/// The single rotation equivalent to applying, in this fixed order, a
/// rotation of `x_mdeg` about the X axis, then `y_mdeg` about the Y axis,
/// then `z_mdeg` about the Z axis (all in millidegrees). The order is part
/// of the meaning: axis rotations do not commute, so no other order
/// denotes the same attitude for generic angles.
#[derive(Clone, Copy, Debug, PartialEq, Eq, Structural)]
pub struct Orientation {
    pub x_mdeg: i32,
    pub y_mdeg: i32,
    pub z_mdeg: i32,
}

/// True of the angles the sliders can produce.
pub open spec fn angle_in_range(mdeg: int) -> bool {
    -HALF_TURN_MDEG <= mdeg <= HALF_TURN_MDEG
}

/// Within the slider range, exactly these five angles are whole multiples
/// of a quarter turn.
pub open spec fn quarter_aligned(mdeg: int) -> bool {
    mdeg == -180000 || mdeg == -90000 || mdeg == 0 || mdeg == 90000 || mdeg == 180000
}

/// How many quarter turns a quarter-aligned angle spans.
pub open spec fn quarters(mdeg: int) -> int {
    mdeg / (QUARTER_TURN_MDEG as int)
}

/// The number of quarter turns in a quarter-aligned slider angle, or
/// `None` for any other angle.
fn quarters_of(mdeg: i32) -> (r: Option<i32>)
    requires
        angle_in_range(mdeg as int),
    ensures
        r is Some <==> quarter_aligned(mdeg as int),
        r matches Some(k) ==> -2 <= k <= 2 && k == quarters(mdeg as int),
{
    if mdeg == -HALF_TURN_MDEG {
        Some(-2)
    } else if mdeg == -QUARTER_TURN_MDEG {
        Some(-1)
    } else if mdeg == 0 {
        Some(0)
    } else if mdeg == QUARTER_TURN_MDEG {
        Some(1)
    } else if mdeg == HALF_TURN_MDEG {
        Some(2)
    } else {
        None
    }
}

impl Orientation {
    /// All three angles lie in the slider range.
    pub open spec fn wf(self) -> bool {
        &&& angle_in_range(self.x_mdeg as int)
        &&& angle_in_range(self.y_mdeg as int)
        &&& angle_in_range(self.z_mdeg as int)
    }

    /// The angle this orientation applies about the given axis.
    pub open spec fn angle_about(self, axis: Axis) -> int {
        match axis {
            Axis::X => self.x_mdeg as int,
            Axis::Y => self.y_mdeg as int,
            Axis::Z => self.z_mdeg as int,
        }
    }

    /// When every angle is a whole multiple of a quarter turn, the
    /// composed rotation `Rx * Ry * Rz` has an exact integer matrix;
    /// return it, or `None` if some angle is not quarter-aligned.
    pub fn exact_matrix(&self) -> (r: Option<Mat3>)
        requires
            self.wf(),
        ensures
            r is Some <==> (quarter_aligned(self.x_mdeg as int) && quarter_aligned(self.y_mdeg as int)
                && quarter_aligned(self.z_mdeg as int)),
            r matches Some(m) ==> m@ == composed_rotation(
                quarters(self.x_mdeg as int),
                quarters(self.y_mdeg as int),
                quarters(self.z_mdeg as int),
            ),
    {
        let kx = quarters_of(self.x_mdeg);
        let ky = quarters_of(self.y_mdeg);
        let kz = quarters_of(self.z_mdeg);
        match (kx, ky, kz) {
            (Some(a), Some(b), Some(c)) => Some(composed_quarters(a, b, c)),
            _ => None,
        }
    }
}

/// Everything the rendering host needs from this library for one frame:
/// the horizontal offset that re-centers the object beside the UI panel,
/// and the composed orientation to apply as the object's local rotation.
#[derive(Clone, Copy, Debug, PartialEq, Eq, Structural)]
pub struct FrameTransform {
    pub offset: FrameOffset,
    pub orientation: Orientation,
}

/// Owner of the three user-settable slider angles. Angles are kept in
/// exact integer millidegrees; the UI's degree values map onto them
/// without losing the one-decimal precision the sliders display.
#[derive(Clone, Copy, Debug, PartialEq, Eq, Structural)]
pub struct RotationController {
    pub x_angle: i32,
    pub y_angle: i32,
    pub z_angle: i32,
}

impl RotationController {
    /// All three stored angles lie in the slider range.
    pub open spec fn wf(self) -> bool {
        &&& angle_in_range(self.x_angle as int)
        &&& angle_in_range(self.y_angle as int)
        &&& angle_in_range(self.z_angle as int)
    }

    /// The stored angle for the given axis.
    pub open spec fn angle_spec(self, axis: Axis) -> int {
        match axis {
            Axis::X => self.x_angle as int,
            Axis::Y => self.y_angle as int,
            Axis::Z => self.z_angle as int,
        }
    }

    /// The state after the given axis is overwritten with a new value.
    pub open spec fn set_axis_spec(self, axis: Axis, value_mdeg: i32) -> RotationController {
        match axis {
            Axis::X => RotationController { x_angle: value_mdeg, ..self },
            Axis::Y => RotationController { y_angle: value_mdeg, ..self },
            Axis::Z => RotationController { z_angle: value_mdeg, ..self },
        }
    }

    /// The composed orientation the current state denotes: the three
    /// stored angles applied in the fixed order X, then Y, then Z.
    pub open spec fn orientation_spec(self) -> Orientation {
        Orientation { x_mdeg: self.x_angle, y_mdeg: self.y_angle, z_mdeg: self.z_angle }
    }

    /// A fresh controller starts with every angle at zero, which denotes
    /// the identity rotation.
    pub fn new() -> (r: RotationController)
        ensures
            r == (RotationController { x_angle: 0, y_angle: 0, z_angle: 0 }),
            r.wf(),
    {
        RotationController { x_angle: 0, y_angle: 0, z_angle: 0 }
    }

    /// Read the stored angle for one axis, in millidegrees.
    pub fn angle(&self, axis: Axis) -> (r: i32)
        ensures
            r == self.angle_spec(axis),
    {
        match axis {
            Axis::X => self.x_angle,
            Axis::Y => self.y_angle,
            Axis::Z => self.z_angle,
        }
    }

    /// Overwrite the stored angle for one axis. Nothing else changes, and
    /// the operation cannot fail; the caller (the slider control) keeps
    /// the value within the slider range.
    pub fn set_axis(&mut self, axis: Axis, value_mdeg: i32)
        requires
            old(self).wf(),
            -HALF_TURN_MDEG <= value_mdeg <= HALF_TURN_MDEG,
        ensures
            *final(self) == old(self).set_axis_spec(axis, value_mdeg),
            final(self).wf(),
    {
        match axis {
            Axis::X => self.x_angle = value_mdeg,
            Axis::Y => self.y_angle = value_mdeg,
            Axis::Z => self.z_angle = value_mdeg,
        }
    }

    /// The composed orientation for the current state: a pure read, so
    /// two calls with no intervening `set_axis` return identical values.
    pub fn composed_orientation(&self) -> (r: Orientation)
        ensures
            r == self.orientation_spec(),
            self.wf() ==> r.wf(),
    {
        Orientation { x_mdeg: self.x_angle, y_mdeg: self.y_angle, z_mdeg: self.z_angle }
    }

    /// Apply a frame's slider edits in the order the UI pass reported
    /// them; a later edit to an axis overrides an earlier one.
    pub fn apply_edits(&mut self, edits: &Vec<SliderEdit>)
        requires
            old(self).wf(),
            forall|i: int| 0 <= i < edits@.len() ==> (#[trigger] edits@[i]).wf(),
        ensures
            *final(self) == apply_edits_spec(*old(self), edits@),
            final(self).wf(),
    {
        let ghost s0 = *self;
        let n: usize = edits.len();
        let mut i: usize = 0;
        while i < n
            invariant
                n == edits@.len(),
                i <= n,
                self.wf(),
                *self == apply_edits_spec(s0, edits@.take(i as int)),
                forall|j: int| 0 <= j < edits@.len() ==> (#[trigger] edits@[j]).wf(),
            decreases n - i,
        {
            proof {
                assert(edits@.take(i as int + 1).drop_last() =~= edits@.take(i as int));
            }
            let e = edits[i];
            self.set_axis(e.axis, e.value_mdeg);
            i = i + 1;
        }
        proof {
            assert(edits@.take(n as int) =~= edits@);
        }
    }

    /// Everything the renderer needs for the frame that is about to be
    /// drawn, read from the current state: the re-centering offset for
    /// the given panel width and window height, and the composed
    /// orientation of the current angles.
    pub fn frame_transform(&self, panel_width_px: u32, window_height_px: u32) -> (r:
        FrameTransform)
        ensures
            r.orientation == self.orientation_spec(),
            r.offset.num == offset_num(panel_width_px as int, window_height_px as int),
            r.offset.den == offset_den(panel_width_px as int, window_height_px as int),
            r.offset.wf(),
    {
        FrameTransform {
            offset: frame_offset(panel_width_px, window_height_px),
            orientation: self.composed_orientation(),
        }
    }
}

/// The state after a sequence of slider edits is applied in order.
pub open spec fn apply_edits_spec(s: RotationController, edits: Seq<SliderEdit>)
    -> RotationController
    decreases edits.len(),
{
    if edits.len() == 0 {
        s
    } else {
        apply_edits_spec(s, edits.drop_last()).set_axis_spec(
            edits.last().axis,
            edits.last().value_mdeg,
        )
    }
}

/// One frame of the per-frame protocol: the orientation handed to the
/// renderer is derived from the state at the start of the frame, and the
/// frame's slider edits are applied afterwards, yielding the state the
/// next frame starts from.
pub open spec fn frame_step_spec(s: RotationController, edits: Seq<SliderEdit>) -> (
    Orientation,
    RotationController,
) {
    (s.orientation_spec(), apply_edits_spec(s, edits))
}

/// Setting an axis changes what is read back on that axis and nothing on
/// the others.
pub proof fn lemma_set_axis_angle(c: RotationController, axis: Axis, value_mdeg: i32, other: Axis)
    ensures
        c.set_axis_spec(axis, value_mdeg).angle_spec(axis) == value_mdeg,
        other != axis ==> c.set_axis_spec(axis, value_mdeg).angle_spec(other) == c.angle_spec(
            other,
        ),
{
}

/// Law: `composed_orientation` is deterministic — its contract pins the
/// result to a function of the three stored angles alone, so repeated
/// reads of an unchanged state yield the identical orientation.
pub proof fn lemma_composed_orientation_deterministic(
    c: RotationController,
    first: Orientation,
    second: Orientation,
)
    requires
        first == c.orientation_spec(),
        second == c.orientation_spec(),
    ensures
        first == second,
{
}

/// Law: `set_axis` is idempotent — setting an axis twice to one value is
/// the same as setting it once, and setting an axis to the value it
/// already holds leaves the state, and with it the composed orientation,
/// unchanged.
pub proof fn lemma_set_axis_idempotent(c: RotationController, axis: Axis, value_mdeg: i32)
    ensures
        c.set_axis_spec(axis, value_mdeg).set_axis_spec(axis, value_mdeg) == c.set_axis_spec(
            axis,
            value_mdeg,
        ),
        c.angle_spec(axis) == value_mdeg ==> c.set_axis_spec(axis, value_mdeg) == c,
{
}

/// Law: one-frame input latency. The orientation a frame hands to the
/// renderer is computed before that frame's UI pass, so it is the same
/// whatever edits the pass reports; the frame after it starts from the
/// edited state, and reads on the edited axis the last value that axis
/// was given.
pub proof fn lemma_one_frame_latency(
    s: RotationController,
    edits: Seq<SliderEdit>,
    later_edits: Seq<SliderEdit>,
)
    requires
        edits.len() > 0,
    ensures
        frame_step_spec(s, edits).0 == frame_step_spec(s, later_edits).0,
        frame_step_spec(frame_step_spec(s, edits).1, later_edits).0.angle_about(edits.last().axis)
            == edits.last().value_mdeg,
{
    let s1 = apply_edits_spec(s, edits.drop_last());
    assert(apply_edits_spec(s, edits) == s1.set_axis_spec(
        edits.last().axis,
        edits.last().value_mdeg,
    ));
    lemma_set_axis_angle(s1, edits.last().axis, edits.last().value_mdeg, edits.last().axis);
}

} // verus!
