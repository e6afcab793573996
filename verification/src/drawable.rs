//! Draw commands and the trait of self-contained drawable objects.
//!
//! A scene element never touches the GPU itself: advancing its state and
//! describing what to draw are separated from issuing the GL calls.  Each
//! frame an element emits [`DrawCmd`] records; the render loop around the
//! library turns each record into one element-array draw call.

use crate::shader::Shader;
use vstd::prelude::*;

verus! {

/// One draw call to issue: bind `shader_id`, draw `index_count` indices,
/// and, when `instanced`, draw `instance_count` instances reading the
/// per-instance stream.
#[derive(Clone, Copy, Debug, PartialEq, Eq, Structural)]
pub struct DrawCmd {
    pub shader_id: u32,
    pub index_count: usize,
    pub instanced: bool,
    pub instance_count: usize,
}

/// A drawable object: it changes from one frame to the next and describes
/// its draw calls.
pub trait Drawable {
    /// Changes the object from one frame to another.
    fn tick(&mut self);

    /// Describes the draw calls for the current frame, using the given
    /// shader program.
    fn draw(&mut self, shader: &Shader) -> Vec<DrawCmd>;
}

} // verus!
