use vstd::prelude::*;

verus! {

/// A horizontal shift in the renderer's normalized coordinate space, kept
/// as the exact fraction `num / den` so that no precision is lost before
/// the rendering host converts it to its own number format.
#[derive(Clone, Copy, Debug, PartialEq, Eq, Structural)]
pub struct FrameOffset {
    /// Numerator; zero or negative, since the panel shifts the object left.
    pub num: i64,
    /// Denominator; always positive.
    pub den: u64,
}

impl FrameOffset {
    /// A usable offset has a positive denominator.
    pub open spec fn wf(self) -> bool {
        self.den > 0
    }
}

/// Numerator of the offset that re-centers the object beside a UI panel.
pub open spec fn offset_num(panel_width_px: int, window_height_px: int) -> int {
    if window_height_px == 0 {
        0
    } else {
        -panel_width_px
    }
}

/// Denominator of the offset that re-centers the object beside a UI panel.
pub open spec fn offset_den(panel_width_px: int, window_height_px: int) -> int {
    if window_height_px == 0 {
        1
    } else {
        2 * window_height_px
    }
}

/// Normalized horizontal shift that keeps the rendered object centered in
/// the part of the window not covered by a UI panel of width
/// `panel_width_px`: exactly `-(panel_width_px / window_height_px) / 2`,
/// with the window height as the normalization unit. A zero window height
/// (possible transiently during startup or a resize) degenerates to a
/// zero offset instead of a division by zero.
pub fn frame_offset(panel_width_px: u32, window_height_px: u32) -> (r: FrameOffset)
    ensures
        r.num == offset_num(panel_width_px as int, window_height_px as int),
        r.den == offset_den(panel_width_px as int, window_height_px as int),
        r.wf(),
        window_height_px == 0 ==> r.num == 0,
{
    if window_height_px == 0 {
        FrameOffset { num: 0, den: 1 }
    } else {
        FrameOffset { num: -(panel_width_px as i64), den: 2 * (window_height_px as u64) }
    }
}

/// Law: for a fixed panel width the offset is linear in the reciprocal of
/// the window height — doubling the height halves the offset's magnitude
/// (equivalently, halving the height doubles it), for any positive height.
pub proof fn lemma_offset_inverse_linear(panel_width_px: int, window_height_px: int)
    requires
        window_height_px > 0,
    ensures
        offset_num(panel_width_px, window_height_px) * offset_den(panel_width_px, 2 * window_height_px)
            == 2 * offset_num(panel_width_px, 2 * window_height_px)
                * offset_den(panel_width_px, window_height_px),
{
    assert(-panel_width_px * (2 * (2 * window_height_px)) == 2 * -panel_width_px * (2
        * window_height_px)) by (nonlinear_arith);
}

} // verus!
