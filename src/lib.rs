//! Conversions between a physics pose (rotation and translation in physics
//! units) and a visual transform (translation, rotation and scale in render
//! units), in two and three dimensions.
//!
//! The scalar type is left to the caller, together with the one operation
//! that each direction performs on a translation component: multiplication by
//! the physics scale on the way to the visual side, division on the way back.
//! Everything else is moved, never recomputed: the rotation is carried over as
//! it stands, and visual-only fields come from a neutral transform.
mod geometry;
pub mod dim2;
pub mod dim3;

pub use geometry::{Quaternion, Vector2, Vector3};
