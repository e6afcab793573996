//! The Christmas-tree scene's building blocks: meshes, the shape
//! generators that fill them, the snow simulation and the scene itself.

pub mod baubles;
pub mod bombs;
pub mod ground;
pub mod mesh;
pub mod scene;
pub mod snow;
pub mod static_object;
pub mod tree;

use crate::drawable::{DrawCmd, Drawable};
use crate::material::Materials;
use crate::model::Model;
use crate::shader::Shader;
use crate::xmas_tree::baubles::Baubles;
use crate::xmas_tree::ground::Ground;
use crate::xmas_tree::mesh::instances_material_valid;
use crate::xmas_tree::scene::scene_materials;
use crate::xmas_tree::snow::{flake_stepped, Snow};
use crate::xmas_tree::tree::Tree;
use vstd::prelude::*;

verus! {

/// The tree with all its decorations, bundled as one drawable: the
/// material table and the four models, without camera or lights.
pub struct XmasTree {
    pub materials: Materials,
    pub ground: Ground,
    pub tree: Tree,
    pub baubles: Baubles,
    pub snow: Snow,
}

impl XmasTree {
    /// Every model keeps its own invariant, and every drawn instance
    /// wears a registered material.
    pub open spec fn wf(self) -> bool {
        &&& self.ground.mesh.wf()
        &&& self.tree.wf()
        &&& self.tree.meshes@.len() == 1
        &&& self.baubles.wf()
        &&& self.snow.wf()
        &&& instances_material_valid(self.ground.mesh, self.materials.materials@.len() as int)
        &&& instances_material_valid(
            self.tree.meshes@[0],
            self.materials.materials@.len() as int,
        )
        &&& instances_material_valid(self.baubles.mesh, self.materials.materials@.len() as int)
        &&& instances_material_valid(self.snow.mesh, self.materials.materials@.len() as int)
        &&& (self.snow.material_id as int) < self.materials.materials@.len()
    }

    /// Builds the whole decorated tree; its four models register eight
    /// materials between them.
    pub fn setup() -> (x: XmasTree)
        ensures
            x.wf(),
            x.materials.materials@ =~= scene_materials(),
            x.materials.materials@.len() == 8,
            x.ground.built(0),
            x.tree.built(1),
            x.baubles.built(2),
            x.snow.built(7),
            x.baubles.baubles@.len() == 16,
    {
        let mut materials = Materials::setup();
        let ground = Ground::new(&mut materials);
        let tree = Tree::new(&mut materials);
        let baubles = Baubles::new(&mut materials);
        let snow = Snow::new(&mut materials);
        proof {
            assert(materials.materials@ =~= scene_materials());
            assert(materials.materials@.len() == 8);
            assert forall|k: int|
                0 <= k < ground.mesh.instances@.len() implies ((#[trigger] ground
                .mesh.instances@[k]).material_id as int) < 8 by {
                assert(ground.mesh.instances@[0].material_id as int == 0);
            }
            assert forall|k: int|
                0 <= k < tree.meshes@[0].instances@.len() implies ((#[trigger] tree
                .meshes@[0].instances@[k]).material_id as int) < 8 by {
                assert(tree.meshes@[0].instances@[0].material_id as int == 1);
            }
            assert forall|k: int|
                0 <= k < baubles.mesh.instances@.len() implies ((#[trigger] baubles
                .mesh.instances@[k]).material_id as int) < 8 by {
                assert(baubles.mesh.instances@[k].material_id
                    == baubles.baubles@[k].material_id);
                assert((baubles.baubles@[k].material_id as int) < 2 + 5);
            }
            assert forall|k: int|
                0 <= k < snow.mesh.instances@.len() implies ((#[trigger] snow
                .mesh.instances@[k]).material_id as int) < 8 by {
                assert(snow.mesh.instances@[k].material_id == snow.material_id);
                assert(snow.material_id as int == 7);
            }
        }
        XmasTree { materials, ground, tree, baubles, snow }
    }
}

impl Drawable for XmasTree {
    /// Advances the scene one frame; only the snow actually changes,
    /// and every flake is stepped by exactly one bounded frame of jitter.
    fn tick(&mut self)
        ensures
            old(self).wf() ==> final(self).wf(),
            final(self).materials == old(self).materials,
            final(self).ground == old(self).ground,
            final(self).tree == old(self).tree,
            final(self).baubles == old(self).baubles,
            final(self).snow.flakes@.len() == old(self).snow.flakes@.len(),
            old(self).wf() ==> forall|k: int|
                0 <= k < old(self).snow.flakes@.len() ==> flake_stepped(
                    #[trigger] old(self).snow.flakes@[k],
                    final(self).snow.flakes@[k],
                ),
    {
        self.ground.next_frame();
        self.tree.next_frame();
        self.baubles.next_frame();
        self.snow.next_frame();
    }

    /// The draw sequence of the decorated tree: ground, tree, baubles,
    /// snow.
    fn draw(&mut self, shader: &Shader) -> (r: Vec<DrawCmd>)
        ensures
            old(self).wf() ==> {
                &&& final(self).wf()
                &&& r@.len() == 4
            },
    {
        let mut cmds: Vec<DrawCmd> = Vec::new();
        let mut ground_cmds = Model::draw(&mut self.ground, shader);
        cmds.append(&mut ground_cmds);
        let mut tree_cmds = Model::draw(&mut self.tree, shader);
        cmds.append(&mut tree_cmds);
        let mut bauble_cmds = Model::draw(&mut self.baubles, shader);
        cmds.append(&mut bauble_cmds);
        let mut snow_cmds = Model::draw(&mut self.snow, shader);
        cmds.append(&mut snow_cmds);
        cmds
    }
}

} // verus!
