//! The geometric core: curve evaluation by repeated linear interpolation,
//! and surfaces built as a curve of curves.

pub mod curve;
pub mod surface;
