//! Indexed triangle meshes and their per-instance streams.
//!
//! A mesh owns one static vertex array and one index array, plus a
//! fixed-capacity instance buffer sized at construction: rewriting the
//! buffer never grows it, and every index always addresses a real vertex.

use crate::drawable::DrawCmd;
use crate::linear::Vec3;
use crate::model::Instance;
use crate::fixed::{lemma_mul_abs_bound, FX_LIM};
use crate::shader::Shader;
use vstd::prelude::*;

verus! {

/// One vertex of the static geometry stream: a position and the normal
/// used for lighting.
#[derive(Clone, Copy, Debug, PartialEq, Eq, Structural)]
pub struct Vertex {
    pub position: Vec3,
    pub normal: Vec3,
}

impl Vertex {
    pub open spec fn wf(self) -> bool {
        self.position.wf() && self.normal.wf()
    }

    /// Bytes one vertex occupies in the GPU-side stream: six tightly
    /// packed 32-bit floats, no padding.
    pub fn size() -> (r: usize)
        ensures
            r == 24,
    {
        24
    }

    /// The six 32-bit slots of one vertex, in upload order: position, then
    /// normal.
    pub open spec fn words(self) -> Seq<i64> {
        seq![
            self.position.x,
            self.position.y,
            self.position.z,
            self.normal.x,
            self.normal.y,
            self.normal.z,
        ]
    }
}

/// Every index addresses one of the first `vertex_count` vertices.
pub open spec fn indices_valid(indices: Seq<u32>, vertex_count: int) -> bool {
    forall|k: int| 0 <= k < indices.len() ==> (indices[k] as int) < vertex_count
}

/// Every vertex keeps its coordinates within the fixed-point range.
pub open spec fn vertices_wf(vs: Seq<Vertex>) -> bool {
    forall|k: int| 0 <= k < vs.len() ==> vs[k].wf()
}

/// The dot product of two integer vectors.
pub open spec fn dot3(ax: int, ay: int, az: int, bx: int, by: int, bz: int) -> int {
    ax * bx + ay * by + az * bz
}

/// Triangle `t` of the mesh faces away from `c`: the sum of its three
/// vertex normals makes a strictly positive dot product with the vector
/// from `c` to the triangle's centroid (both scaled by three to stay in
/// integers).
pub open spec fn triangle_outward(vs: Seq<Vertex>, indices: Seq<u32>, c: Vec3, t: int) -> bool {
    let v0 = vs[indices[3 * t] as int];
    let v1 = vs[indices[3 * t + 1] as int];
    let v2 = vs[indices[3 * t + 2] as int];
    dot3(
        v0.normal.x + v1.normal.x + v2.normal.x,
        v0.normal.y + v1.normal.y + v2.normal.y,
        v0.normal.z + v1.normal.z + v2.normal.z,
        v0.position.x + v1.position.x + v2.position.x - 3 * c.x,
        v0.position.y + v1.position.y + v2.position.y - 3 * c.y,
        v0.position.z + v1.position.z + v2.position.z - 3 * c.z,
    ) > 0
}

/// Every triangle of the index array faces away from `c`.
pub open spec fn all_triangles_outward(vs: Seq<Vertex>, indices: Seq<u32>, c: Vec3) -> bool {
    forall|t: int| 0 <= t < indices.len() / 3 ==> triangle_outward(vs, indices, c, t)
}

/// Law: the instance buffer round-trips.  Any word stream packed as
/// `packed_instances` guarantees — seventeen slots per record, each
/// record's slots equal to that record's `words` — reads back every
/// matrix entry and every material id exactly as it was written.
pub proof fn lemma_instance_stream_roundtrip(words: Seq<i64>, s: Seq<Instance>)
    requires
        words.len() == 17 * s.len(),
        forall|k: int| 0 <= k < s.len() ==> words.subrange(17 * k, 17 * k + 17) =~= s[k].words(),
    ensures
        forall|k: int, j: int|
            0 <= k < s.len() && 0 <= j < 16 ==> #[trigger] words[17 * k + j]
                == s[k].model.e@[j],
        forall|k: int| 0 <= k < s.len() ==> words[17 * k + 16] == s[k].material_id as i64,
{
    assert forall|k: int, j: int|
        0 <= k < s.len() && 0 <= j < 16 implies #[trigger] words[17 * k + j]
        == s[k].model.e@[j] by {
        assert(words.subrange(17 * k, 17 * k + 17) =~= s[k].words());
        assert(words.subrange(17 * k, 17 * k + 17)[j] == words[17 * k + j]);
        assert(s[k].words()[j] == s[k].model.e@[j]);
    }
    assert forall|k: int| 0 <= k < s.len() implies words[17 * k + 16] == s[k].material_id
        as i64 by {
        assert(words.subrange(17 * k, 17 * k + 17) =~= s[k].words());
        assert(words.subrange(17 * k, 17 * k + 17)[16] == words[17 * k + 16]);
        assert(s[k].words()[16] == s[k].material_id as i64);
    }
}

/// Every record of a mesh's instance buffer wears a material that is
/// already registered: its id is below the table's count.
pub open spec fn instances_material_valid(m: Mesh, count: int) -> bool {
    forall|k: int|
        0 <= k < m.instances@.len() ==> ((#[trigger] m.instances@[k]).material_id as int) < count
}

/// An indexed triangle mesh with a fixed-capacity instance buffer.
pub struct Mesh {
    pub vertices: Vec<Vertex>,
    pub indices: Vec<u32>,
    pub max_instances: usize,
    pub instances: Vec<Instance>,
}

impl Mesh {
    /// The mesh invariant: indices address real vertices, coordinates are
    /// in range, and the instance buffer never outgrows its capacity.
    pub open spec fn wf(self) -> bool {
        &&& indices_valid(self.indices@, self.vertices@.len() as int)
        &&& vertices_wf(self.vertices@)
        &&& self.instances@.len() <= self.max_instances as int
    }

    /// Builds a mesh from generated geometry; the instance buffer starts
    /// empty with room for `max_instances` records.
    pub fn new(vertices: Vec<Vertex>, indices: Vec<u32>, max_instances: usize) -> (m: Mesh)
        requires
            indices_valid(indices@, vertices@.len() as int),
            vertices_wf(vertices@),
        ensures
            m.vertices@ =~= vertices@,
            m.indices@ =~= indices@,
            m.max_instances == max_instances,
            m.instances@.len() == 0,
            m.wf(),
    {
        Mesh { vertices, indices, max_instances, instances: Vec::new() }
    }

    /// Rewrites the occupied region of the instance buffer with the given
    /// records; geometry and capacity are untouched.
    pub fn fill_instances_vbo(&mut self, instances: &Vec<Instance>)
        requires
            instances@.len() <= old(self).max_instances as int,
        ensures
            final(self).instances@ =~= instances@,
            final(self).vertices@ =~= old(self).vertices@,
            final(self).indices@ =~= old(self).indices@,
            final(self).max_instances == old(self).max_instances,
            old(self).wf() ==> final(self).wf(),
    {
        let mut copied: Vec<Instance> = Vec::new();
        let n = instances.len();
        let mut i: usize = 0;
        while i < n
            invariant
                n == instances@.len(),
                0 <= i <= n,
                copied@ =~= instances@.subrange(0, i as int),
            decreases n - i,
        {
            copied.push(instances[i]);
            i = i + 1;
        }
        proof {
            assert(copied@ =~= instances@);
        }
        self.instances = copied;
    }

    /// The packed occupied region of the instance buffer: seventeen 32-bit
    /// slots per record, in order.
    pub fn packed_instances(&self) -> (r: Vec<i64>)
        ensures
            r@.len() == 17 * self.instances@.len(),
            forall|k: int|
                0 <= k < self.instances@.len() ==> r@.subrange(17 * k, 17 * k + 17)
                    =~= self.instances@[k].words(),
    {
        let mut r: Vec<i64> = Vec::new();
        let n = self.instances.len();
        let mut i: usize = 0;
        while i < n
            invariant
                n == self.instances@.len(),
                0 <= i <= n,
                r@.len() == 17 * i,
                forall|k: int|
                    0 <= k < i ==> r@.subrange(17 * k, 17 * k + 17) =~= self.instances@[k].words(),
            decreases n - i,
        {
            let inst = &self.instances[i];
            let mut j: usize = 0;
            while j < 16
                invariant
                    0 <= j <= 16,
                    inst == self.instances@[i as int],
                    r@.len() == 17 * i + j,
                    forall|k: int|
                        0 <= k < i ==> r@.subrange(17 * k, 17 * k + 17)
                            =~= self.instances@[k].words(),
                    forall|q: int| 0 <= q < j ==> r@[17 * (i as int) + q] == inst.model.e@[q],
                decreases 16 - j,
            {
                r.push(inst.model.e[j]);
                j = j + 1;
            }
            r.push(inst.material_id as i64);
            proof {
                assert(r@.subrange(17 * (i as int), 17 * (i as int) + 17)
                    =~= self.instances@[i as int].words());
            }
            i = i + 1;
        }
        r
    }

    /// The packed vertex stream: six 32-bit slots per vertex, in order.
    pub fn packed_vertices(&self) -> (r: Vec<i64>)
        ensures
            r@.len() == 6 * self.vertices@.len(),
            forall|k: int|
                0 <= k < self.vertices@.len() ==> r@.subrange(6 * k, 6 * k + 6)
                    =~= self.vertices@[k].words(),
    {
        let mut r: Vec<i64> = Vec::new();
        let n = self.vertices.len();
        let mut i: usize = 0;
        while i < n
            invariant
                n == self.vertices@.len(),
                0 <= i <= n,
                r@.len() == 6 * i,
                forall|k: int|
                    0 <= k < i ==> r@.subrange(6 * k, 6 * k + 6) =~= self.vertices@[k].words(),
            decreases n - i,
        {
            let v = self.vertices[i];
            r.push(v.position.x);
            r.push(v.position.y);
            r.push(v.position.z);
            r.push(v.normal.x);
            r.push(v.normal.y);
            r.push(v.normal.z);
            i = i + 1;
        }
        r
    }

    /// One non-instanced draw of the whole index array.
    pub fn draw_single(&self, shader: &Shader) -> (cmd: DrawCmd)
        ensures
            cmd.shader_id == shader.id,
            cmd.index_count == self.indices@.len(),
            !cmd.instanced,
            cmd.instance_count == 1,
    {
        DrawCmd {
            shader_id: shader.id,
            index_count: self.indices.len(),
            instanced: false,
            instance_count: 1,
        }
    }

    /// One instanced draw of the whole index array, rasterized `num`
    /// times; `num` stays within the buffer's capacity.
    pub fn draw_instances(&mut self, shader: &Shader, num: usize) -> (cmd: DrawCmd)
        requires
            num <= old(self).max_instances,
        ensures
            *final(self) == *old(self),
            cmd.shader_id == shader.id,
            cmd.index_count == final(self).indices@.len(),
            cmd.instanced,
            cmd.instance_count == num,
    {
        DrawCmd {
            shader_id: shader.id,
            index_count: self.indices.len(),
            instanced: true,
            instance_count: num,
        }
    }

    /// Checks that every triangle faces away from `c`; the verified check
    /// behind the generators' winding convention.
    pub fn triangles_point_outward(&self, c: Vec3) -> (r: bool)
        requires
            self.wf(),
            c.wf(),
        ensures
            r == all_triangles_outward(self.vertices@, self.indices@, c),
    {
        let ilen = self.indices.len();
        let count = ilen / 3;
        proof {
            vstd::arithmetic::div_mod::lemma_fundamental_div_mod(ilen as int, 3);
        }
        let mut t: usize = 0;
        while t < count
            invariant
                self.wf(),
                c.wf(),
                ilen == self.indices@.len(),
                count == self.indices@.len() / 3,
                3 * count <= ilen,
                0 <= t <= count,
                forall|k: int|
                    0 <= k < t ==> triangle_outward(self.vertices@, self.indices@, c, k),
            decreases count - t,
        {
            let i0 = self.indices[3 * t] as usize;
            let i1 = self.indices[3 * t + 1] as usize;
            let i2 = self.indices[3 * t + 2] as usize;
            let v0 = self.vertices[i0];
            let v1 = self.vertices[i1];
            let v2 = self.vertices[i2];
            let nx: i64 = v0.normal.x + v1.normal.x + v2.normal.x;
            let ny: i64 = v0.normal.y + v1.normal.y + v2.normal.y;
            let nz: i64 = v0.normal.z + v1.normal.z + v2.normal.z;
            let dx: i64 = v0.position.x + v1.position.x + v2.position.x - 3 * c.x;
            let dy: i64 = v0.position.y + v1.position.y + v2.position.y - 3 * c.y;
            let dz: i64 = v0.position.z + v1.position.z + v2.position.z - 3 * c.z;
            proof {
                lemma_mul_abs_bound(nx as int, dx as int, 3 * FX_LIM as int, 12 * FX_LIM as int);
                lemma_mul_abs_bound(ny as int, dy as int, 3 * FX_LIM as int, 12 * FX_LIM as int);
                lemma_mul_abs_bound(nz as int, dz as int, 3 * FX_LIM as int, 12 * FX_LIM as int);
            }
            let dot: i128 = (nx as i128) * (dx as i128) + (ny as i128) * (dy as i128) + (nz
                as i128) * (dz as i128);
            if dot <= 0 {
                proof {
                    assert(!triangle_outward(self.vertices@, self.indices@, c, t as int));
                }
                return false;
            }
            t = t + 1;
        }
        true
    }
}

} // verus!
