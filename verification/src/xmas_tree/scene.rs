//! Scene composition: the camera, the lights, the material table and the
//! four models, with the per-frame advance and draw sequence.
//!
//! The set of models is closed, so the scene holds them directly and the
//! draw loop dispatches statically: ground, tree, baubles, snow, in that
//! order, every frame.

use crate::camera::Camera;
use crate::coords::SphericalPoint3;
use crate::drawable::DrawCmd;
use crate::lights::{Light, Lights};
use crate::linear::Vec3;
use crate::material::{Material, Materials};
use crate::model::Model;
use crate::shader::Shader;
use crate::xmas_tree::baubles::{bauble_materials, Baubles};
use crate::xmas_tree::ground::{ground_material, Ground};
use crate::xmas_tree::mesh::instances_material_valid;
use crate::xmas_tree::snow::{flake_stepped, snow_material, Snow, MAX_FLAKES};
use crate::xmas_tree::tree::{tree_material, Tree};
use vstd::prelude::*;

verus! {

/// The camera's starting distance from the origin.
pub const CAMERA_START_R: i64 = 18_000_000;

/// The camera's starting polar angle, in half-turns (about 1.7 radians).
pub const CAMERA_START_THETA: i64 = 541_127;

/// The camera's starting azimuth, in half-turns (about 0.9 radians).
pub const CAMERA_START_PHI: i64 = 286_479;

/// The scene's two lights: a dim one far above and a bright one close to
/// the tree.
pub open spec fn scene_lights() -> Seq<Light> {
    seq![
        Light {
            position: Vec3 { x: 10_000_000, y: 100_000_000, z: 10_000_000 },
            ambient: Vec3 { x: 300_000, y: 300_000, z: 300_000 },
            diffuse: Vec3 { x: 200_000, y: 200_000, z: 200_000 },
            specular: Vec3 { x: 0, y: 0, z: 0 },
        },
        Light {
            position: Vec3 { x: 5_000_000, y: 6_000_000, z: 2_000_000 },
            ambient: Vec3 { x: 200_000, y: 200_000, z: 200_000 },
            diffuse: Vec3 { x: 2_000_000, y: 2_000_000, z: 2_000_000 },
            specular: Vec3 { x: 500_000, y: 500_000, z: 500_000 },
        },
    ]
}

/// The scene's material table, in registration order: ground, tree, the
/// five bauble colours, snow.
pub open spec fn scene_materials() -> Seq<Material> {
    seq![ground_material(), tree_material()] + bauble_materials() + seq![snow_material()]
}

/// The whole scene.
pub struct Scene {
    pub camera: Camera,
    pub lights: Lights,
    pub materials: Materials,
    pub shader: Shader,
    pub ground: Ground,
    pub tree: Tree,
    pub baubles: Baubles,
    pub snow: Snow,
}

impl Scene {
    /// The scene's invariant: every model keeps its own invariant and the
    /// camera stays wrapped.
    pub open spec fn wf(self) -> bool {
        &&& self.camera.wf()
        &&& self.ground.mesh.wf()
        &&& self.tree.wf()
        &&& self.tree.meshes@.len() == 1
        &&& self.baubles.wf()
        &&& self.snow.wf()
        &&& instances_material_valid(self.ground.mesh, self.materials.materials@.len() as int)
        &&& instances_material_valid(
            self.tree.meshes@[0],
            self.materials.materials@.len() as int,
        )
        &&& instances_material_valid(self.baubles.mesh, self.materials.materials@.len() as int)
        &&& instances_material_valid(self.snow.mesh, self.materials.materials@.len() as int)
        &&& (self.snow.material_id as int) < self.materials.materials@.len()
    }

    /// Builds the whole scene for a window of the given size: camera and
    /// lights first, then the four models, which register eight materials
    /// between them.
    pub fn setup(window_width: u32, window_height: u32) -> (s: Scene)
        ensures
            s.wf(),
            s.lights.lights@ =~= scene_lights(),
            s.lights.lights@.len() == 2,
            s.materials.materials@ =~= scene_materials(),
            s.materials.materials@.len() == 8,
            s.ground.built(0),
            s.tree.built(1),
            s.baubles.built(2),
            s.snow.built(7),
            s.baubles.baubles@.len() == 16,
            s.baubles.mesh.max_instances == 16,
            s.snow.flakes@.len() == MAX_FLAKES as int,
    {
        let camera = Camera::new(
            SphericalPoint3::new(CAMERA_START_R, CAMERA_START_THETA, CAMERA_START_PHI),
            Vec3::new(0, -1_000_000, 0),
            window_width,
            window_height,
        );
        let mut lights = Lights::setup();
        lights.add(
            Vec3::new(10_000_000, 100_000_000, 10_000_000),
            Vec3::new(300_000, 300_000, 300_000),
            Vec3::new(200_000, 200_000, 200_000),
            Vec3::new(0, 0, 0),
        );
        lights.add(
            Vec3::new(5_000_000, 6_000_000, 2_000_000),
            Vec3::new(200_000, 200_000, 200_000),
            Vec3::new(2_000_000, 2_000_000, 2_000_000),
            Vec3::new(500_000, 500_000, 500_000),
        );
        let mut materials = Materials::setup();
        let shader = Shader { id: 0 };
        let ground = Ground::new(&mut materials);
        let tree = Tree::new(&mut materials);
        let baubles = Baubles::new(&mut materials);
        let snow = Snow::new(&mut materials);
        proof {
            assert(lights.lights@ =~= scene_lights());
            assert(materials.materials@ =~= scene_materials());
            assert(materials.materials@.len() == 8);
            assert forall|k: int|
                0 <= k < ground.mesh.instances@.len() implies ((#[trigger] ground
                .mesh.instances@[k]).material_id as int) < 8 by {
                assert(ground.mesh.instances@[0].material_id as int == 0);
            }
            assert forall|k: int|
                0 <= k < tree.meshes@[0].instances@.len() implies ((#[trigger] tree
                .meshes@[0].instances@[k]).material_id as int) < 8 by {
                assert(tree.meshes@[0].instances@[0].material_id as int == 1);
            }
            assert forall|k: int|
                0 <= k < baubles.mesh.instances@.len() implies ((#[trigger] baubles
                .mesh.instances@[k]).material_id as int) < 8 by {
                assert(baubles.mesh.instances@[k].material_id
                    == baubles.baubles@[k].material_id);
                assert((baubles.baubles@[k].material_id as int) < 2 + 5);
            }
            assert forall|k: int|
                0 <= k < snow.mesh.instances@.len() implies ((#[trigger] snow
                .mesh.instances@[k]).material_id as int) < 8 by {
                assert(snow.mesh.instances@[k].material_id == snow.material_id);
                assert(snow.material_id as int == 7);
            }
        }
        Scene { camera, lights, materials, shader, ground, tree, baubles, snow }
    }

    /// Advances every model one frame; only the snow actually changes,
    /// and every flake is stepped by exactly one bounded frame of jitter.
    pub fn next_frame(&mut self)
        ensures
            old(self).wf() ==> final(self).wf(),
            final(self).camera == old(self).camera,
            final(self).lights == old(self).lights,
            final(self).ground == old(self).ground,
            final(self).tree == old(self).tree,
            final(self).baubles == old(self).baubles,
            final(self).materials == old(self).materials,
            final(self).shader == old(self).shader,
            final(self).snow.mesh.vertices@ == old(self).snow.mesh.vertices@,
            final(self).snow.mesh.indices@ == old(self).snow.mesh.indices@,
            final(self).snow.flakes@.len() == old(self).snow.flakes@.len(),
            old(self).wf() ==> forall|k: int|
                0 <= k < old(self).snow.flakes@.len() ==> flake_stepped(
                    #[trigger] old(self).snow.flakes@[k],
                    final(self).snow.flakes@[k],
                ),
    {
        self.ground.next_frame();
        self.tree.next_frame();
        self.baubles.next_frame();
        self.snow.next_frame();
    }

    /// The frame's draw sequence: ground, tree, baubles, snow.  For a
    /// well-formed scene that is four commands — two plain draws, then
    /// the baubles' sixteen instances, then one instance per snowflake.
    pub fn draw(&mut self) -> (r: Vec<DrawCmd>)
        ensures
            old(self).wf() ==> {
                &&& final(self).wf()
                &&& r@.len() == 4
                &&& !r@[0].instanced
                &&& r@[0].index_count == old(self).ground.mesh.indices@.len()
                &&& !r@[1].instanced
                &&& r@[1].index_count == old(self).tree.meshes@[0].indices@.len()
                &&& r@[2].instanced
                &&& r@[2].instance_count == old(self).baubles.baubles@.len()
                &&& r@[3].instanced
                &&& r@[3].instance_count == old(self).snow.flakes@.len()
                &&& forall|k: int| 0 <= k < 4 ==> (#[trigger] r@[k]).shader_id == old(
                    self,
                ).shader.id
            },
    {
        let shader = self.shader;
        let mut cmds: Vec<DrawCmd> = Vec::new();
        let mut ground_cmds = self.ground.draw(&shader);
        cmds.append(&mut ground_cmds);
        let mut tree_cmds = self.tree.draw(&shader);
        cmds.append(&mut tree_cmds);
        let mut bauble_cmds = self.baubles.draw(&shader);
        cmds.append(&mut bauble_cmds);
        let mut snow_cmds = self.snow.draw(&shader);
        cmds.append(&mut snow_cmds);
        cmds
    }
}

} // verus!
