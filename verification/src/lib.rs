//! Scene description and camera logic of a path tracer.
//!
//! All lengths, angles, colours and other real-valued scene parameters are
//! held as fixed-point integers: one unit is `geometry::UNIT` (one million)
//! steps. The float arithmetic of the renderer itself lives outside this
//! library, which decides what is rendered and how.

pub mod geometry;
pub mod material;
pub mod camera;
pub mod scene;
pub mod scenes;
pub mod scene_laws;
mod random;

use vstd::prelude::*;

verus! {

} // verus!
