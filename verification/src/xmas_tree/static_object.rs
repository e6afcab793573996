//! A static, non-instanced object: raw interleaved vertex data (position
//! and normal, six 32-bit slots per vertex), an index array, and one
//! material, drawn unchanged every frame.

use crate::drawable::{DrawCmd, Drawable};
use crate::material::Material;
use crate::shader::Shader;
use vstd::prelude::*;

verus! {

/// A fixed piece of scenery with its own material.
pub struct StaticObject {
    pub shader: Shader,
    pub vao: u32,
    pub vertices: Vec<i64>,
    pub indices: Vec<u32>,
    pub material: Material,
}

impl StaticObject {
    /// Every index addresses one of the six-slot vertices.
    pub open spec fn wf(self) -> bool {
        forall|k: int|
            0 <= k < self.indices@.len() ==> 6 * (self.indices@[k] as int) + 6
                <= self.vertices@.len()
    }

    /// Wraps the given geometry and material; every index must address a
    /// vertex of the six-slot stream.
    pub fn new(vertices: Vec<i64>, indices: Vec<u32>, material: Material) -> (s: StaticObject)
        requires
            forall|k: int|
                0 <= k < indices@.len() ==> 6 * (indices@[k] as int) + 6 <= vertices@.len(),
        ensures
            s.vertices@ =~= vertices@,
            s.indices@ =~= indices@,
            s.material == material,
            s.wf(),
    {
        StaticObject { shader: Shader { id: 0 }, vao: 0, vertices, indices, material }
    }
}

impl Drawable for StaticObject {
    /// Nothing changes between frames.
    fn tick(&mut self)
        ensures
            *final(self) == *old(self),
    {
    }

    /// One non-instanced draw of the whole index array.
    fn draw(&mut self, shader: &Shader) -> (r: Vec<DrawCmd>)
        ensures
            *final(self) == *old(self),
            r@.len() == 1,
            r@[0].shader_id == shader.id,
            r@[0].index_count == old(self).indices@.len(),
            !r@[0].instanced,
            r@[0].instance_count == 1,
    {
        let cmd = DrawCmd {
            shader_id: shader.id,
            index_count: self.indices.len(),
            instanced: false,
            instance_count: 1,
        };
        let mut cmds: Vec<DrawCmd> = Vec::new();
        cmds.push(cmd);
        cmds
    }
}

} // verus!
