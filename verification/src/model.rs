//! Per-instance records and the trait of scene models.

use crate::drawable::DrawCmd;
use crate::linear::Mat4;
use crate::material::MaterialId;
use crate::shader::Shader;
use vstd::prelude::*;

verus! {

/// One placement of a mesh: its model transform and the material it is
/// shaded with.  Many placements share one mesh and one draw call; only
/// this record varies per instance.
#[derive(Clone, Copy, Debug, PartialEq, Eq)]
pub struct Instance {
    pub model: Mat4,
    pub material_id: MaterialId,
}

impl Instance {
    /// Bytes one instance occupies in the GPU-side stream: a 4x4 matrix of
    /// 32-bit floats followed by the material id slot.
    pub fn size() -> (r: usize)
        ensures
            r == 68,
    {
        68
    }

    /// The seventeen 32-bit slots of one instance record, in upload order:
    /// the sixteen matrix entries column by column, then the material id.
    pub open spec fn words(self) -> Seq<i64> {
        Seq::new(16, |i: int| self.model.e@[i]).push(self.material_id as i64)
    }
}

/// A model of the scene: it advances itself each frame and describes its
/// draw calls.
pub trait Model {
    /// Does all necessary things to advance the model to the next frame.
    fn next_frame(&mut self);

    /// Describes the model's draw calls using the given shader.
    fn draw(&mut self, shader: &Shader) -> Vec<DrawCmd>;
}

} // verus!
