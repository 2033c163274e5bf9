//! Free-fly camera movement for a small voxel sandbox.
//!
//! The library holds the semantic input vocabulary (control axes and
//! actions) and the per-frame update that integrates the control axes into
//! the translation of every free-fly camera entity.
//!
//! Quantities are exact fixed-point integers so that the movement laws hold
//! without rounding:
//! - axis values are in thousandths (`1000` is a full push of the axis);
//! - speeds are in thousandths of a world unit per second;
//! - elapsed frame time is in microseconds;
//! - translations are in trillionths of a world unit, the product of the
//!   three scales above, so a displacement is exactly
//!   `axis * speed * elapsed`.

pub mod cam;
pub mod input;
pub mod voxel;
