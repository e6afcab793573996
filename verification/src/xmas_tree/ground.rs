//! The ground: one flat quad below the tree with an upward normal.
//!
//! Front faces wind counter-clockwise as seen from the side the normal
//! points to, so both triangles of the quad face upward.

use crate::drawable::DrawCmd;
use crate::linear::{mat4_model_spec, Mat4, Vec3};
use crate::material::{Material, Materials, MAX_MATERIALS};
use crate::model::{Instance, Model};
use crate::shader::Shader;
use crate::xmas_tree::mesh::{Mesh, Vertex};
use vstd::pervasive::unreached;
use vstd::prelude::*;

verus! {

/// The quad's four corners, ten units out at five units below the origin,
/// all with the upward normal.
pub open spec fn ground_vertices() -> Seq<Vertex> {
    seq![
        Vertex {
            position: Vec3 { x: -10_000_000i64, y: -5_000_000i64, z: -10_000_000i64 },
            normal: Vec3 { x: 0, y: 1_000_000, z: 0 },
        },
        Vertex {
            position: Vec3 { x: -10_000_000i64, y: -5_000_000i64, z: 10_000_000 },
            normal: Vec3 { x: 0, y: 1_000_000, z: 0 },
        },
        Vertex {
            position: Vec3 { x: 10_000_000, y: -5_000_000i64, z: -10_000_000i64 },
            normal: Vec3 { x: 0, y: 1_000_000, z: 0 },
        },
        Vertex {
            position: Vec3 { x: 10_000_000, y: -5_000_000i64, z: 10_000_000 },
            normal: Vec3 { x: 0, y: 1_000_000, z: 0 },
        },
    ]
}

/// The quad's two triangles, wound counter-clockwise seen from above.
pub open spec fn ground_indices() -> Seq<u32> {
    seq![0u32, 1u32, 2u32, 1u32, 3u32, 2u32]
}

/// Law: the ground's winding is consistent.  Both triangles of the quad
/// face away from every point strictly below the plane, so their front
/// faces — counter-clockwise seen from above — all point up.
pub proof fn lemma_ground_faces_up(c: Vec3)
    requires
        c.y < -5_000_000,
        c.wf(),
    ensures
        crate::xmas_tree::mesh::all_triangles_outward(ground_vertices(), ground_indices(), c),
{
    assert forall|t: int|
        0 <= t < ground_indices().len() / 3 implies crate::xmas_tree::mesh::triangle_outward(
        ground_vertices(),
        ground_indices(),
        c,
        t,
    ) by {
        assert(ground_indices().len() / 3 == 2);
        let vs = ground_vertices();
        let indices = ground_indices();
        assert(t == 0 || t == 1);
        let v0 = vs[indices[3 * t] as int];
        let v1 = vs[indices[3 * t + 1] as int];
        let v2 = vs[indices[3 * t + 2] as int];
        assert(v0.normal.y == 1_000_000 && v1.normal.y == 1_000_000 && v2.normal.y
            == 1_000_000);
        assert(v0.normal.x == 0 && v1.normal.x == 0 && v2.normal.x == 0);
        assert(v0.normal.z == 0 && v1.normal.z == 0 && v2.normal.z == 0);
        assert(v0.position.y == -5_000_000 && v1.position.y == -5_000_000 && v2.position.y
            == -5_000_000);
        let ny = v0.normal.y + v1.normal.y + v2.normal.y;
        let dy = v0.position.y + v1.position.y + v2.position.y - 3 * c.y;
        assert(ny == 3_000_000);
        assert(dy > 0);
        let dx = v0.position.x + v1.position.x + v2.position.x - 3 * c.x;
        let dz = v0.position.z + v1.position.z + v2.position.z - 3 * c.z;
        assert(crate::xmas_tree::mesh::dot3(0, ny, 0, dx, dy, dz) == 0 * dx + ny * dy + 0
            * dz);
        assert(0 * dx == 0 && 0 * dz == 0) by (nonlinear_arith);
        assert(ny * dy > 0) by (nonlinear_arith)
            requires
                ny == 3_000_000,
                dy > 0,
        ;
    }
}

/// The snow-covered ground material.
pub open spec fn ground_material() -> Material {
    Material {
        ambient: Vec3 { x: 1_000_000, y: 1_000_000, z: 1_000_000 },
        diffuse: Vec3 { x: 623_960, y: 686_685, z: 693_872 },
        specular: Vec3 { x: 500_000, y: 500_000, z: 500_000 },
        shininess: 225_000_000,
    }
}

/// The ground plane: one quad drawn once with the identity transform.
pub struct Ground {
    pub mesh: Mesh,
}

impl Ground {
    /// Everything construction guarantees, with `base` the number of
    /// materials registered before the ground: the exact quad, drawn as
    /// one identity-transform instance of the ground material.
    pub open spec fn built(self, base: int) -> bool {
        &&& self.mesh.wf()
        &&& self.mesh.vertices@ =~= ground_vertices()
        &&& self.mesh.indices@ =~= ground_indices()
        &&& self.mesh.max_instances == 1
        &&& self.mesh.instances@.len() == 1
        &&& self.mesh.instances@[0].material_id as int == base
        &&& forall|i: int|
            0 <= i < 16 ==> self.mesh.instances@[0].model.e@[i] as int == mat4_model_spec(
                0,
                0,
                0,
                0,
                0,
                0,
            )[i]
    }

    /// Builds the ground quad, registers its material and places the one
    /// identity-transform instance.
    pub fn new(materials: &mut Materials) -> (g: Ground)
        requires
            old(materials).materials@.len() < MAX_MATERIALS as int,
        ensures
            g.built(old(materials).materials@.len() as int),
            g.mesh.wf(),
            final(materials).materials@ =~= old(materials).materials@.push(ground_material()),
    {
        let up = Vec3::new(0, 1_000_000, 0);
        let mut vertices: Vec<Vertex> = Vec::new();
        vertices.push(Vertex { position: Vec3::new(-10_000_000, -5_000_000, -10_000_000), normal: up });
        vertices.push(Vertex { position: Vec3::new(-10_000_000, -5_000_000, 10_000_000), normal: up });
        vertices.push(Vertex { position: Vec3::new(10_000_000, -5_000_000, -10_000_000), normal: up });
        vertices.push(Vertex { position: Vec3::new(10_000_000, -5_000_000, 10_000_000), normal: up });
        let mut indices: Vec<u32> = Vec::new();
        indices.push(0);
        indices.push(1);
        indices.push(2);
        indices.push(1);
        indices.push(3);
        indices.push(2);
        proof {
            assert(vertices@ =~= ground_vertices());
            assert(indices@ =~= ground_indices());
        }
        let material = Material {
            ambient: Vec3::new(1_000_000, 1_000_000, 1_000_000),
            diffuse: Vec3::new(623_960, 686_685, 693_872),
            specular: Vec3::new(500_000, 500_000, 500_000),
            shininess: 225_000_000,
        };
        proof {
            assert(material == ground_material());
        }
        let material_id = match materials.add(material) {
            Ok(id) => id,
            Err(_) => unreached(),
        };
        let mut mesh = Mesh::new(vertices, indices, 1);
        let mut instances: Vec<Instance> = Vec::new();
        instances.push(Instance { model: Mat4::identity(), material_id });
        mesh.fill_instances_vbo(&instances);
        Ground { mesh }
    }
}

impl Model for Ground {
    /// Nothing changes between frames.
    fn next_frame(&mut self)
        ensures
            *final(self) == *old(self),
    {
    }

    /// One non-instanced draw of the quad.
    fn draw(&mut self, shader: &Shader) -> (r: Vec<DrawCmd>)
        ensures
            *final(self) == *old(self),
            r@.len() == 1,
            r@[0].shader_id == shader.id,
            r@[0].index_count == old(self).mesh.indices@.len(),
            !r@[0].instanced,
            r@[0].instance_count == 1,
    {
        let cmd = self.mesh.draw_single(shader);
        let mut cmds: Vec<DrawCmd> = Vec::new();
        cmds.push(cmd);
        cmds
    }
}

} // verus!
