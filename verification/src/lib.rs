//! Interactive rotation-and-framing model for a single-object 3D viewer.
//!
//! The library owns the state behind three per-axis angle sliders, the
//! fixed-order composition of the three axis rotations into one object
//! orientation, and the per-frame normalized horizontal offset that keeps
//! the object centered once a fixed-width UI panel is overlaid on the
//! window. Angles are kept in exact integer millidegrees and the offset as
//! an exact fraction, so every contract here is precise; the rendering
//! host converts these values to its own floating-point types.

pub mod controller;
pub mod offset;
pub mod rot3;

pub use controller::Axis;
pub use controller::FrameTransform;
pub use controller::Orientation;
pub use controller::RotationController;
pub use controller::SliderEdit;
pub use offset::FrameOffset;
pub use rot3::Mat3;
