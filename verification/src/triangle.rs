//! The first drawable ever rendered: two coloured triangles sharing an
//! edge, kept as the smallest end-to-end example of the vertex-stream
//! layout (three position words, then three colour words per vertex).

use crate::drawable::DrawCmd;
use crate::shader::Shader;
use vstd::prelude::*;

verus! {

/// The four corner vertices, six 32-bit slots each: position, then
/// colour.
pub open spec fn triangle_words() -> Seq<i64> {
    seq![
        -800_000i64, 0, 0, 1_000_000, 0, 0,
        0, 700_000, 0, 0, 1_000_000, 0,
        0, -700_000i64, 0, 0, 0, 1_000_000,
        800_000, 0, 0, 1_000_000, 0, 0,
    ]
}

/// The two triangles over the four corners.
pub open spec fn triangle_indices() -> Seq<u32> {
    seq![0u32, 1u32, 2u32, 3u32, 1u32, 2u32]
}

/// The two-triangle demo drawable.
pub struct Triangle {
    pub shader: Shader,
    pub vao: u32,
    pub vertices: Vec<i64>,
    pub indices: Vec<u32>,
}

impl Triangle {
    /// Builds the demo geometry: four vertices, two triangles, every
    /// index addressing one of the four vertices.
    pub fn setup() -> (t: Triangle)
        ensures
            t.vertices@ =~= triangle_words(),
            t.indices@ =~= triangle_indices(),
            forall|k: int| 0 <= k < t.indices@.len() ==> (t.indices@[k] as int) < 4,
    {
        let mut vertices: Vec<i64> = Vec::new();
        vertices.push(-800_000);
        vertices.push(0);
        vertices.push(0);
        vertices.push(1_000_000);
        vertices.push(0);
        vertices.push(0);
        vertices.push(0);
        vertices.push(700_000);
        vertices.push(0);
        vertices.push(0);
        vertices.push(1_000_000);
        vertices.push(0);
        vertices.push(0);
        vertices.push(-700_000);
        vertices.push(0);
        vertices.push(0);
        vertices.push(0);
        vertices.push(1_000_000);
        vertices.push(800_000);
        vertices.push(0);
        vertices.push(0);
        vertices.push(1_000_000);
        vertices.push(0);
        vertices.push(0);
        let mut indices: Vec<u32> = Vec::new();
        indices.push(0);
        indices.push(1);
        indices.push(2);
        indices.push(3);
        indices.push(1);
        indices.push(2);
        proof {
            assert(vertices@ =~= triangle_words());
            assert(indices@ =~= triangle_indices());
        }
        Triangle { shader: Shader { id: 0 }, vao: 0, vertices, indices }
    }

    /// One non-instanced draw of both triangles.
    pub fn draw(&self) -> (cmd: DrawCmd)
        ensures
            cmd.shader_id == self.shader.id,
            cmd.index_count == self.indices@.len(),
            !cmd.instanced,
            cmd.instance_count == 1,
    {
        DrawCmd {
            shader_id: self.shader.id,
            index_count: self.indices.len(),
            instanced: false,
            instance_count: 1,
        }
    }
}

} // verus!
