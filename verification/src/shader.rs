//! The handle of a linked shader program.
//!
//! Compiling and linking the GLSL sources, and binding the uniform blocks,
//! happens in the GPU layer around this library; the scene only needs the
//! program's id to tag its draw commands with, and the agreed uniform-block
//! binding points.

use vstd::prelude::*;

verus! {

/// Uniform-block binding point of the camera block (position, view and
/// projection matrices).
pub const CAMERA_UBO_BINDING_POINT: u32 = 0;

/// Uniform-block binding point of the light table.
pub const LIGHTS_UBO_BINDING_POINT: u32 = 1;

/// Uniform-block binding point of the material table.
pub const MATERIALS_UBO_BINDING_POINT: u32 = 2;

/// A linked shader program, known to the scene only by its id.
#[derive(Clone, Copy, Debug, PartialEq, Eq, Structural)]
pub struct Shader {
    pub id: u32,
}

impl Shader {
    pub fn new(id: u32) -> (s: Shader)
        ensures
            s.id == id,
    {
        Shader { id }
    }
}

} // verus!
