//! Parametric Bezier curves and bilinearly-blended Bezier surfaces, with a
//! deterministic triangulation of surfaces into vertex/index meshes.
//!
//! The evaluators are generic over the control-point type: anything that can
//! linearly interpolate towards another value of its own type (the
//! [`bezier::curve::Lerp`] trait) can serve as a control point, and the
//! surface layer asks for a few more vector-space capabilities. The crate
//! ships one exact arithmetic instantiation of those traits; callers bring
//! their own floating-point vectors by implementing the same traits.

pub mod bezier;
pub mod exact;
pub mod light;
pub mod mesh;
