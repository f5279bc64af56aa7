//! Camera, input mapping and image preparation for an interactive
//! equirectangular panorama viewer.
//!
//! Angles are held as whole micro-degrees (`i64`), so that every clamp and
//! every rate conversion is exact integer arithmetic.

pub mod input;
pub mod mesh;
pub mod panorama;
pub mod projection;
pub mod source_image;
pub mod uniform;
