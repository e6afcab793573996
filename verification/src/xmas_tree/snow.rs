//! The snow: thousands of falling hexagonal flakes sharing one tiny mesh,
//! their per-frame state advanced by bounded random jitter and recycled by
//! a Y-axis wraparound — a flake driven below the floor reappears at the
//! ceiling, never destroyed.
//!
//! The randomness comes from `rand`'s small generator behind two trusted
//! wrappers; everything done with the sampled values — the per-flake step,
//! the wraparound, the rebuilt instance buffer — is verified for every
//! value the wrappers can hand back.

use crate::drawable::DrawCmd;
use crate::fixed::{
    fx_abs, fx_clamp_spec, fx_clamped_add, fx_mul, fx_mul_spec, fx_ok, fx_wrap_angle, fxcos,
    fxcos_spec, fxsin, fxsin_spec, FX_ONE, FX_TURN,
};
use crate::linear::{mat4_model_spec, Mat4, Vec3};
use crate::material::{Material, Materials, MAX_MATERIALS};
use crate::model::{Instance, Model};
use crate::shader::Shader;
use crate::xmas_tree::mesh::{vertices_wf, Mesh, Vertex};
use vstd::pervasive::unreached;
use vstd::prelude::*;

verus! {

/// Horizontal extent of the snowfall volume.
pub const SNOW_X_MIN: i64 = -10_000_000;

pub const SNOW_X_MAX: i64 = 10_000_000;

/// Vertical extent: a flake leaving below `SNOW_Y_MIN` reappears at
/// `SNOW_Y_MAX`.
pub const SNOW_Y_MIN: i64 = -5_000_000;

pub const SNOW_Y_MAX: i64 = 10_000_000;

pub const SNOW_Z_MIN: i64 = -10_000_000;

pub const SNOW_Z_MAX: i64 = 10_000_000;

/// How far a flake falls each frame, before jitter.
pub const SNOWFLAKE_FALL_VELOCITY: i64 = 10_000;

/// Largest horizontal or vertical jitter per frame.
pub const SNOWFLAKE_MAX_RANDOM_OFFSET: i64 = 10_000;

/// Largest per-axis rotation jitter per frame: about ten degrees, in
/// half-turns.
pub const SNOWFLAKE_MAX_RANDOM_ROTATION: i64 = 55_556;

/// Radius of the hexagonal flake mesh.
pub const SNOWFLAKE_RADIUS: i64 = 50_000;

/// How many flakes fall; the instance buffer is sized for all of them.
pub const MAX_FLAKES: usize = 5_000;

#[verifier::external_type_specification]
#[verifier::external_body]
pub struct ExSmallRng(rand::rngs::SmallRng);

/// Relies on `rand::rngs::SmallRng::from_entropy`: a fresh generator
/// seeded from the system's entropy source.  Nothing can be promised of
/// its state, and the call aborts if the entropy source fails.
#[verifier::external_body]
fn fresh_rng() -> rand::rngs::SmallRng {
    <rand::rngs::SmallRng as rand::SeedableRng>::from_entropy()
}

/// Relies on `rand::Rng::gen_range`: a sample of the half-open range
/// `lo..hi`, which panics only when the range is empty.  Only the range
/// bound is promised; the sample itself is arbitrary.
#[verifier::external_body]
fn sample_range(rng: &mut rand::rngs::SmallRng, lo: i64, hi: i64) -> (r: i64)
    requires
        lo < hi,
    ensures
        lo <= r < hi,
{
    rand::Rng::gen_range(rng, lo..hi)
}

/// One flake: its position and its three Euler rotation angles (in
/// half-turns, kept wrapped into one turn).
#[derive(Clone, Copy, Debug, PartialEq, Eq, Structural)]
pub struct Snowflake {
    pub position: Vec3,
    pub rotation: Vec3,
}

/// A flake's invariant: the height stays within the snowfall volume, the
/// horizontal drift stays within the fixed-point range, and the rotations
/// stay wrapped.
pub open spec fn flake_wf(f: Snowflake) -> bool {
    &&& fx_ok(f.position.x)
    &&& SNOW_Y_MIN <= f.position.y <= SNOW_Y_MAX
    &&& fx_ok(f.position.z)
    &&& 0 <= f.rotation.x < FX_TURN
    &&& 0 <= f.rotation.y < FX_TURN
    &&& 0 <= f.rotation.z < FX_TURN
}

/// The runtime check for `flake_wf`.
fn flake_ok(f: &Snowflake) -> (b: bool)
    ensures
        b == flake_wf(*f),
{
    -crate::fixed::FX_LIM <= f.position.x && f.position.x <= crate::fixed::FX_LIM
        && SNOW_Y_MIN <= f.position.y && f.position.y <= SNOW_Y_MAX
        && -crate::fixed::FX_LIM <= f.position.z && f.position.z <= crate::fixed::FX_LIM
        && 0 <= f.rotation.x && f.rotation.x < FX_TURN && 0 <= f.rotation.y && f.rotation.y
        < FX_TURN && 0 <= f.rotation.z && f.rotation.z < FX_TURN
}

/// Where a falling flake's height lands: it drops by the fall velocity
/// plus jitter, and a flake driven below `SNOW_Y_MIN` reappears exactly at
/// `SNOW_Y_MAX` — never clamped to the boundary.
pub open spec fn step_y_spec(y: int, dy: int) -> int {
    let candidate = y + dy - (SNOWFLAKE_FALL_VELOCITY as int);
    if candidate < SNOW_Y_MIN as int {
        SNOW_Y_MAX as int
    } else {
        candidate
    }
}

/// The jitter one frame draws for one flake: offsets and rotation deltas
/// within the half-open ranges the sampler uses.
pub open spec fn flake_jitter_ok(dx: i64, dy: i64, dz: i64, rx: i64, ry: i64, rz: i64) -> bool {
    &&& -SNOWFLAKE_MAX_RANDOM_OFFSET <= dx < SNOWFLAKE_MAX_RANDOM_OFFSET
    &&& -SNOWFLAKE_MAX_RANDOM_OFFSET <= dy < SNOWFLAKE_MAX_RANDOM_OFFSET
    &&& -SNOWFLAKE_MAX_RANDOM_OFFSET <= dz < SNOWFLAKE_MAX_RANDOM_OFFSET
    &&& -SNOWFLAKE_MAX_RANDOM_ROTATION <= rx < SNOWFLAKE_MAX_RANDOM_ROTATION
    &&& -SNOWFLAKE_MAX_RANDOM_ROTATION <= ry < SNOWFLAKE_MAX_RANDOM_ROTATION
    &&& -SNOWFLAKE_MAX_RANDOM_ROTATION <= rz < SNOWFLAKE_MAX_RANDOM_ROTATION
}

/// Exactly where a flake lands for given jitter values: X and Z drift
/// clamped into the fixed-point range, Y falls with the wraparound, each
/// rotation axis advances and wraps into one turn.
pub open spec fn stepped_flake_spec(
    f: Snowflake,
    dx: i64,
    dy: i64,
    dz: i64,
    rx: i64,
    ry: i64,
    rz: i64,
) -> Snowflake {
    Snowflake {
        position: Vec3 {
            x: fx_clamp_spec(f.position.x + dx) as i64,
            y: step_y_spec(f.position.y as int, dy as int) as i64,
            z: fx_clamp_spec(f.position.z + dz) as i64,
        },
        rotation: Vec3 {
            x: ((f.rotation.x + rx) % (FX_TURN as int)) as i64,
            y: ((f.rotation.y + ry) % (FX_TURN as int)) as i64,
            z: ((f.rotation.z + rz) % (FX_TURN as int)) as i64,
        },
    }
}

/// One flake advanced by exactly one frame: some jitter within the
/// sampled bounds took the old state to the new one.
pub open spec fn flake_stepped(before: Snowflake, after: Snowflake) -> bool {
    exists|dx: i64, dy: i64, dz: i64, rx: i64, ry: i64, rz: i64|
        flake_jitter_ok(dx, dy, dz, rx, ry, rz) && after == #[trigger] stepped_flake_spec(
            before,
            dx,
            dy,
            dz,
            rx,
            ry,
            rz,
        )
}

/// Advances one flake by the given jitter values: X and Z drift (clamped
/// into the fixed-point range), Y falls with wraparound, and each rotation
/// axis turns by its jitter, wrapped into one turn.
pub fn step_flake(f: Snowflake, dx: i64, dy: i64, dz: i64, rx: i64, ry: i64, rz: i64) -> (r:
    Snowflake)
    requires
        flake_wf(f),
        -SNOWFLAKE_MAX_RANDOM_OFFSET <= dx <= SNOWFLAKE_MAX_RANDOM_OFFSET,
        -SNOWFLAKE_MAX_RANDOM_OFFSET <= dy <= SNOWFLAKE_MAX_RANDOM_OFFSET,
        -SNOWFLAKE_MAX_RANDOM_OFFSET <= dz <= SNOWFLAKE_MAX_RANDOM_OFFSET,
        -SNOWFLAKE_MAX_RANDOM_ROTATION <= rx <= SNOWFLAKE_MAX_RANDOM_ROTATION,
        -SNOWFLAKE_MAX_RANDOM_ROTATION <= ry <= SNOWFLAKE_MAX_RANDOM_ROTATION,
        -SNOWFLAKE_MAX_RANDOM_ROTATION <= rz <= SNOWFLAKE_MAX_RANDOM_ROTATION,
    ensures
        r.position.x == fx_clamp_spec(f.position.x + dx),
        r.position.y == step_y_spec(f.position.y as int, dy as int),
        r.position.z == fx_clamp_spec(f.position.z + dz),
        r.rotation.x == (f.rotation.x + rx) % (FX_TURN as int),
        r.rotation.y == (f.rotation.y + ry) % (FX_TURN as int),
        r.rotation.z == (f.rotation.z + rz) % (FX_TURN as int),
        r == stepped_flake_spec(f, dx, dy, dz, rx, ry, rz),
        flake_wf(r),
        r.position.y <= f.position.y || r.position.y == SNOW_Y_MAX,
{
    let new_x = fx_clamped_add(f.position.x, dx);
    let candidate = f.position.y + dy - SNOWFLAKE_FALL_VELOCITY;
    let new_y = if candidate < SNOW_Y_MIN {
        SNOW_Y_MAX
    } else {
        candidate
    };
    let new_z = fx_clamped_add(f.position.z, dz);
    let new_rx = fx_wrap_angle(f.rotation.x + rx);
    let new_ry = fx_wrap_angle(f.rotation.y + ry);
    let new_rz = fx_wrap_angle(f.rotation.z + rz);
    Snowflake {
        position: Vec3 { x: new_x, y: new_y, z: new_z },
        rotation: Vec3 { x: new_rx, y: new_ry, z: new_rz },
    }
}

/// Law: the snow wraparound.  Whatever bounded jitter the frame drew, a
/// flake whose fall would take its height below `SNOW_Y_MIN` is placed
/// exactly at `SNOW_Y_MAX` — not below the floor and not clamped to it.
pub proof fn lemma_snow_wraparound(y: int, dy: int)
    requires
        y + dy - (SNOWFLAKE_FALL_VELOCITY as int) < SNOW_Y_MIN as int,
    ensures
        step_y_spec(y, dy) == SNOW_Y_MAX as int,
{
}

/// Law: a flake never leaves the snowfall volume vertically, and it never
/// rises except by the wraparound to the ceiling.
pub proof fn lemma_snow_height_bounds(y: int, dy: int)
    requires
        SNOW_Y_MIN as int <= y <= SNOW_Y_MAX as int,
        -(SNOWFLAKE_MAX_RANDOM_OFFSET as int) <= dy <= SNOWFLAKE_MAX_RANDOM_OFFSET as int,
    ensures
        SNOW_Y_MIN as int <= step_y_spec(y, dy) <= SNOW_Y_MAX as int,
        step_y_spec(y, dy) <= y || step_y_spec(y, dy) == SNOW_Y_MAX as int,
{
}

/// Angle of hexagon corner `i`, in half-turns: a sixth of a turn each.
pub open spec fn snow_angle(i: int) -> int {
    (i * (FX_ONE as int)) / 3
}

/// The upper-side vertex at hexagon corner `i`, facing `+X`.
pub open spec fn snow_upper_vertex(i: int) -> Vertex {
    Vertex {
        position: Vec3 {
            x: 0,
            y: fx_mul_spec(SNOWFLAKE_RADIUS as int, fxcos_spec(snow_angle(i))) as i64,
            z: fx_mul_spec(SNOWFLAKE_RADIUS as int, fxsin_spec(snow_angle(i))) as i64,
        },
        normal: Vec3 { x: FX_ONE, y: 0, z: 0 },
    }
}

/// The lower-side vertex at hexagon corner `i`: the mirrored position,
/// facing `-X`.
pub open spec fn snow_lower_vertex(i: int) -> Vertex {
    Vertex {
        position: Vec3 {
            x: 0,
            y: (-fx_mul_spec(SNOWFLAKE_RADIUS as int, fxcos_spec(snow_angle(i)))) as i64,
            z: (-fx_mul_spec(SNOWFLAKE_RADIUS as int, fxsin_spec(snow_angle(i)))) as i64,
        },
        normal: Vec3 { x: (-(FX_ONE as int)) as i64, y: 0, z: 0 },
    }
}

/// The two triangles of each side of the hexagonal flake.
pub open spec fn snow_indices() -> Seq<u32> {
    seq![8u32, 4u32, 0u32, 10u32, 6u32, 2u32, 1u32, 5u32, 9u32, 3u32, 7u32, 11u32]
}

/// Generates the flake mesh data: six corners, one upper and one lower
/// vertex each, and the four triangles that cover both sides.
fn gen_objects() -> (r: (Vec<Vertex>, Vec<u32>))
    ensures
        r.0@.len() == 12,
        forall|i: int| 0 <= i < 6 ==> r.0@[2 * i] == snow_upper_vertex(i),
        forall|i: int| 0 <= i < 6 ==> r.0@[2 * i + 1] == snow_lower_vertex(i),
        vertices_wf(r.0@),
        r.1@ =~= snow_indices(),
        crate::xmas_tree::mesh::indices_valid(r.1@, r.0@.len() as int),
{
    let mut vertices: Vec<Vertex> = Vec::new();
    let mut i: u32 = 0;
    while i < 6
        invariant
            0 <= i <= 6,
            vertices@.len() == 2 * i,
            forall|j: int| 0 <= j < i ==> vertices@[2 * j] == snow_upper_vertex(j),
            forall|j: int| 0 <= j < i ==> vertices@[2 * j + 1] == snow_lower_vertex(j),
            vertices_wf(vertices@),
        decreases 6 - i,
    {
        let angle: i64 = (((i as u64) * 1_000_000) / 3) as i64;
        proof {
            assert(angle == snow_angle(i as int));
        }
        let cos_a = fxcos(angle);
        let sin_a = fxsin(angle);
        let y = fx_mul(SNOWFLAKE_RADIUS, cos_a);
        let z = fx_mul(SNOWFLAKE_RADIUS, sin_a);
        let ghost prev = vertices@;
        vertices.push(
            Vertex {
                position: Vec3 { x: 0, y, z },
                normal: Vec3 { x: FX_ONE, y: 0, z: 0 },
            },
        );
        vertices.push(
            Vertex {
                position: Vec3 { x: 0, y: -y, z: -z },
                normal: Vec3 { x: -FX_ONE, y: 0, z: 0 },
            },
        );
        proof {
            assert(vertices@[2 * (i as int)] == snow_upper_vertex(i as int));
            assert(vertices@[2 * (i as int) + 1] == snow_lower_vertex(i as int));
        }
        i = i + 1;
    }
    let mut indices: Vec<u32> = Vec::new();
    indices.push(8);
    indices.push(4);
    indices.push(0);
    indices.push(10);
    indices.push(6);
    indices.push(2);
    indices.push(1);
    indices.push(5);
    indices.push(9);
    indices.push(3);
    indices.push(7);
    indices.push(11);
    proof {
        assert(indices@ =~= snow_indices());
    }
    (vertices, indices)
}

/// The white flake material the snow registers.
pub open spec fn snow_material() -> Material {
    Material {
        ambient: Vec3 { x: 1_000_000, y: 1_000_000, z: 1_000_000 },
        diffuse: Vec3 { x: 623_960, y: 686_685, z: 693_872 },
        specular: Vec3 { x: 500_000, y: 500_000, z: 500_000 },
        shininess: 225_000_000,
    }
}

/// The snow: the shared flake mesh, the per-flake state, and the
/// generator that drives the jitter.
pub struct Snow {
    pub mesh: Mesh,
    pub flakes: Vec<Snowflake>,
    pub material_id: crate::material::MaterialId,
    pub rng: rand::rngs::SmallRng,
}

impl Snow {
    /// The snow's invariant: a well-formed mesh sized for every flake, and
    /// every flake within its bounds.
    pub open spec fn wf(self) -> bool {
        &&& self.mesh.wf()
        &&& self.mesh.max_instances == MAX_FLAKES
        &&& self.flakes@.len() == MAX_FLAKES as int
        &&& forall|k: int| 0 <= k < self.flakes@.len() ==> flake_wf(#[trigger] self.flakes@[k])
    }

    /// Everything construction guarantees, with `base` the number of
    /// materials registered before the snow: its material slot and value,
    /// the exact flake mesh, every flake sampled within the volume, and
    /// one instance per flake carrying that flake's model transform and
    /// the snow material.
    pub open spec fn built(self, base: int) -> bool {
        &&& self.wf()
        &&& self.material_id as int == base
        &&& self.mesh.vertices@.len() == 12
        &&& forall|i: int|
            0 <= i < 6 ==> #[trigger] self.mesh.vertices@[2 * i] == snow_upper_vertex(i)
        &&& forall|i: int|
            0 <= i < 6 ==> #[trigger] self.mesh.vertices@[2 * i + 1] == snow_lower_vertex(i)
        &&& self.mesh.indices@ =~= snow_indices()
        &&& self.mesh.instances@.len() == MAX_FLAKES as int
        &&& forall|k: int|
            0 <= k < self.flakes@.len() ==> {
                &&& SNOW_X_MIN <= (#[trigger] self.flakes@[k]).position.x < SNOW_X_MAX
                &&& SNOW_Y_MIN <= self.flakes@[k].position.y < SNOW_Y_MAX
                &&& SNOW_Z_MIN <= self.flakes@[k].position.z < SNOW_Z_MAX
                &&& 0 <= self.flakes@[k].rotation.x < FX_TURN
                &&& 0 <= self.flakes@[k].rotation.y < FX_TURN
                &&& 0 <= self.flakes@[k].rotation.z < FX_TURN
            }
        &&& forall|k: int|
            0 <= k < self.mesh.instances@.len() ==> (#[trigger] self.mesh.instances@[k]).material_id
                == self.material_id
        &&& forall|k: int, j: int|
            0 <= k < self.flakes@.len() && 0 <= j < 16
                ==> #[trigger] self.mesh.instances@[k].model.e@[j] as int == mat4_model_spec(
                self.flakes@[k].position.x as int,
                self.flakes@[k].position.y as int,
                self.flakes@[k].position.z as int,
                self.flakes@[k].rotation.x as int,
                self.flakes@[k].rotation.y as int,
                self.flakes@[k].rotation.z as int,
            )[j]
    }

    /// Builds the snow: registers its material, generates the flake mesh,
    /// samples every flake's starting position and rotation within the
    /// snowfall volume, and fills the instance buffer once.
    pub fn new(materials: &mut Materials) -> (s: Snow)
        requires
            old(materials).materials@.len() < MAX_MATERIALS as int,
        ensures
            s.built(old(materials).materials@.len() as int),
            s.wf(),
            final(materials).materials@ =~= old(materials).materials@.push(snow_material()),
    {
        let material = Material {
            ambient: Vec3::new(1_000_000, 1_000_000, 1_000_000),
            diffuse: Vec3::new(623_960, 686_685, 693_872),
            specular: Vec3::new(500_000, 500_000, 500_000),
            shininess: 225_000_000,
        };
        let material_id = match materials.add(material) {
            Ok(id) => id,
            Err(_) => unreached(),
        };
        let (vertices, indices) = gen_objects();
        let mesh = Mesh::new(vertices, indices, MAX_FLAKES);
        let mut rng = fresh_rng();
        let mut flakes: Vec<Snowflake> = Vec::new();
        let mut i: usize = 0;
        while i < MAX_FLAKES
            invariant
                0 <= i <= MAX_FLAKES,
                flakes@.len() == i,
                forall|k: int| 0 <= k < i ==> flake_wf(#[trigger] flakes@[k]),
                forall|k: int|
                    0 <= k < i ==> {
                        &&& SNOW_X_MIN <= (#[trigger] flakes@[k]).position.x < SNOW_X_MAX
                        &&& SNOW_Y_MIN <= flakes@[k].position.y < SNOW_Y_MAX
                        &&& SNOW_Z_MIN <= flakes@[k].position.z < SNOW_Z_MAX
                        &&& 0 <= flakes@[k].rotation.x < FX_TURN
                        &&& 0 <= flakes@[k].rotation.y < FX_TURN
                        &&& 0 <= flakes@[k].rotation.z < FX_TURN
                    },
            decreases MAX_FLAKES - i,
        {
            let x = sample_range(&mut rng, SNOW_X_MIN, SNOW_X_MAX);
            let y = sample_range(&mut rng, SNOW_Y_MIN, SNOW_Y_MAX);
            let z = sample_range(&mut rng, SNOW_Z_MIN, SNOW_Z_MAX);
            let rx = sample_range(&mut rng, 0, FX_TURN);
            let ry = sample_range(&mut rng, 0, FX_TURN);
            let rz = sample_range(&mut rng, 0, FX_TURN);
            flakes.push(
                Snowflake {
                    position: Vec3 { x, y, z },
                    rotation: Vec3 { x: rx, y: ry, z: rz },
                },
            );
            i = i + 1;
        }
        let mut snow = Snow { mesh, flakes, material_id, rng };
        snow.fill_instances_vbo();
        proof {
            assert(material == snow_material());
        }
        snow
    }

    /// Advances every flake one frame: each well-formed flake is stepped
    /// by exactly one frame of sampled jitter — it drifts horizontally by
    /// at most the jitter bound, strictly falls by the fall velocity give
    /// or take the jitter, or wraps to the ceiling, and turns each
    /// rotation axis by at most the rotation bound.
    pub fn move_snowflakes(&mut self)
        ensures
            final(self).mesh == old(self).mesh,
            final(self).material_id == old(self).material_id,
            final(self).flakes@.len() == old(self).flakes@.len(),
            forall|k: int|
                0 <= k < old(self).flakes@.len() && flake_wf(#[trigger] old(self).flakes@[k])
                    ==> {
                    &&& flake_stepped(old(self).flakes@[k], final(self).flakes@[k])
                    &&& flake_wf(final(self).flakes@[k])
                    &&& fx_abs(
                        final(self).flakes@[k].position.x - old(self).flakes@[k].position.x,
                    ) <= SNOWFLAKE_MAX_RANDOM_OFFSET as int
                    &&& fx_abs(
                        final(self).flakes@[k].position.z - old(self).flakes@[k].position.z,
                    ) <= SNOWFLAKE_MAX_RANDOM_OFFSET as int
                    &&& (final(self).flakes@[k].position.y == SNOW_Y_MAX || 0 < old(
                        self,
                    ).flakes@[k].position.y - final(self).flakes@[k].position.y
                        <= SNOWFLAKE_FALL_VELOCITY + SNOWFLAKE_MAX_RANDOM_OFFSET)
                },
            forall|k: int|
                0 <= k < old(self).flakes@.len() && !flake_wf(#[trigger] old(self).flakes@[k])
                    ==> final(self).flakes@[k] == old(self).flakes@[k],
            old(self).wf() ==> final(self).wf(),
    {
        let n = self.flakes.len();
        let mut i: usize = 0;
        while i < n
            invariant
                n == self.flakes@.len(),
                n == old(self).flakes@.len(),
                self.mesh == old(self).mesh,
                self.material_id == old(self).material_id,
                0 <= i <= n,
                forall|k: int| i <= k < n ==> self.flakes@[k] == old(self).flakes@[k],
                forall|k: int|
                    0 <= k < i && flake_wf(#[trigger] old(self).flakes@[k]) ==> {
                        &&& flake_stepped(old(self).flakes@[k], self.flakes@[k])
                        &&& flake_wf(self.flakes@[k])
                        &&& fx_abs(
                            self.flakes@[k].position.x - old(self).flakes@[k].position.x,
                        ) <= SNOWFLAKE_MAX_RANDOM_OFFSET as int
                        &&& fx_abs(
                            self.flakes@[k].position.z - old(self).flakes@[k].position.z,
                        ) <= SNOWFLAKE_MAX_RANDOM_OFFSET as int
                        &&& (self.flakes@[k].position.y == SNOW_Y_MAX || 0 < old(
                            self,
                        ).flakes@[k].position.y - self.flakes@[k].position.y
                            <= SNOWFLAKE_FALL_VELOCITY + SNOWFLAKE_MAX_RANDOM_OFFSET)
                    },
                forall|k: int|
                    0 <= k < i && !flake_wf(#[trigger] old(self).flakes@[k])
                        ==> self.flakes@[k] == old(self).flakes@[k],
            decreases n - i,
        {
            let f = self.flakes[i];
            if flake_ok(&f) {
                let dx = sample_range(
                    &mut self.rng,
                    -SNOWFLAKE_MAX_RANDOM_OFFSET,
                    SNOWFLAKE_MAX_RANDOM_OFFSET,
                );
                let dy = sample_range(
                    &mut self.rng,
                    -SNOWFLAKE_MAX_RANDOM_OFFSET,
                    SNOWFLAKE_MAX_RANDOM_OFFSET,
                );
                let dz = sample_range(
                    &mut self.rng,
                    -SNOWFLAKE_MAX_RANDOM_OFFSET,
                    SNOWFLAKE_MAX_RANDOM_OFFSET,
                );
                let rx = sample_range(
                    &mut self.rng,
                    -SNOWFLAKE_MAX_RANDOM_ROTATION,
                    SNOWFLAKE_MAX_RANDOM_ROTATION,
                );
                let ry = sample_range(
                    &mut self.rng,
                    -SNOWFLAKE_MAX_RANDOM_ROTATION,
                    SNOWFLAKE_MAX_RANDOM_ROTATION,
                );
                let rz = sample_range(
                    &mut self.rng,
                    -SNOWFLAKE_MAX_RANDOM_ROTATION,
                    SNOWFLAKE_MAX_RANDOM_ROTATION,
                );
                let stepped = step_flake(f, dx, dy, dz, rx, ry, rz);
                self.flakes.set(i, stepped);
                proof {
                    assert(flake_jitter_ok(dx, dy, dz, rx, ry, rz));
                    assert(stepped == stepped_flake_spec(f, dx, dy, dz, rx, ry, rz));
                    assert(flake_stepped(f, stepped));
                }
            }
            i = i + 1;
        }
        proof {
            if old(self).wf() {
                assert forall|k: int|
                    0 <= k < self.flakes@.len() implies flake_wf(
                    #[trigger] self.flakes@[k],
                ) by {
                    assert(flake_wf(old(self).flakes@[k]));
                }
            }
        }
    }

    /// Rebuilds the whole instance buffer from the flakes' current state:
    /// one model matrix (rotation, then translation) and the snow material
    /// per flake.
    pub fn fill_instances_vbo(&mut self)
        ensures
            final(self).flakes@ == old(self).flakes@,
            final(self).material_id == old(self).material_id,
            final(self).mesh.vertices@ == old(self).mesh.vertices@,
            final(self).mesh.indices@ == old(self).mesh.indices@,
            final(self).mesh.max_instances == old(self).mesh.max_instances,
            old(self).wf() ==> {
                &&& final(self).wf()
                &&& final(self).mesh.instances@.len() == old(self).flakes@.len()
                &&& forall|k: int|
                    0 <= k < final(self).mesh.instances@.len()
                        ==> (#[trigger] final(self).mesh.instances@[k]).material_id == old(
                        self,
                    ).material_id
                &&& forall|k: int, j: int|
                    0 <= k < old(self).flakes@.len() && 0 <= j < 16
                        ==> #[trigger] final(self).mesh.instances@[k].model.e@[j] as int
                        == mat4_model_spec(
                        old(self).flakes@[k].position.x as int,
                        old(self).flakes@[k].position.y as int,
                        old(self).flakes@[k].position.z as int,
                        old(self).flakes@[k].rotation.x as int,
                        old(self).flakes@[k].rotation.y as int,
                        old(self).flakes@[k].rotation.z as int,
                    )[j]
            },
    {
        let n = self.flakes.len();
        let mut instances: Vec<Instance> = Vec::new();
        let mut i: usize = 0;
        while i < n
            invariant
                n == self.flakes@.len(),
                self.flakes@ == old(self).flakes@,
                self.mesh == old(self).mesh,
                self.material_id == old(self).material_id,
                0 <= i <= n,
                instances@.len() == i,
                forall|k: int|
                    0 <= k < i ==> (#[trigger] instances@[k]).material_id
                        == self.material_id,
                forall|k: int, j: int|
                    0 <= k < i && 0 <= j < 16 && flake_wf(self.flakes@[k])
                        ==> #[trigger] instances@[k].model.e@[j] as int == mat4_model_spec(
                        self.flakes@[k].position.x as int,
                        self.flakes@[k].position.y as int,
                        self.flakes@[k].position.z as int,
                        self.flakes@[k].rotation.x as int,
                        self.flakes@[k].rotation.y as int,
                        self.flakes@[k].rotation.z as int,
                    )[j],
            decreases n - i,
        {
            let f = self.flakes[i];
            let model = if flake_ok(&f) {
                Mat4::model(f.position, f.rotation.x, f.rotation.y, f.rotation.z)
            } else {
                Mat4::identity()
            };
            instances.push(Instance { model, material_id: self.material_id });
            i = i + 1;
        }
        if instances.len() <= self.mesh.max_instances {
            self.mesh.fill_instances_vbo(&instances);
        }
    }
}

impl Model for Snow {
    /// A frame of snowfall: every flake is advanced by exactly one
    /// bounded step of sampled jitter and the instance buffer is rebuilt
    /// from the moved flakes.  The mesh geometry never changes.
    fn next_frame(&mut self)
        ensures
            old(self).wf() ==> final(self).wf(),
            final(self).mesh.vertices@ == old(self).mesh.vertices@,
            final(self).mesh.indices@ == old(self).mesh.indices@,
            final(self).mesh.max_instances == old(self).mesh.max_instances,
            final(self).flakes@.len() == old(self).flakes@.len(),
            final(self).material_id == old(self).material_id,
            old(self).wf() ==> forall|k: int|
                0 <= k < old(self).flakes@.len() ==> flake_stepped(
                    #[trigger] old(self).flakes@[k],
                    final(self).flakes@[k],
                ),
            old(self).wf() ==> forall|k: int, j: int|
                0 <= k < final(self).flakes@.len() && 0 <= j < 16
                    ==> #[trigger] final(self).mesh.instances@[k].model.e@[j] as int
                    == mat4_model_spec(
                    final(self).flakes@[k].position.x as int,
                    final(self).flakes@[k].position.y as int,
                    final(self).flakes@[k].position.z as int,
                    final(self).flakes@[k].rotation.x as int,
                    final(self).flakes@[k].rotation.y as int,
                    final(self).flakes@[k].rotation.z as int,
                )[j],
            old(self).wf() ==> forall|k: int|
                0 <= k < final(self).mesh.instances@.len()
                    ==> (#[trigger] final(self).mesh.instances@[k]).material_id == old(
                    self,
                ).material_id,
    {
        self.move_snowflakes();
        proof {
            if old(self).wf() {
                assert forall|k: int|
                    0 <= k < old(self).flakes@.len() implies flake_stepped(
                    #[trigger] old(self).flakes@[k],
                    self.flakes@[k],
                ) by {
                    assert(flake_wf(old(self).flakes@[k]));
                }
            }
        }
        self.fill_instances_vbo();
    }

    /// One instanced draw of the flake mesh, one instance per flake.
    fn draw(&mut self, shader: &Shader) -> (r: Vec<DrawCmd>)
        ensures
            *final(self) == *old(self),
            old(self).wf() ==> {
                &&& r@.len() == 1
                &&& r@[0].shader_id == shader.id
                &&& r@[0].index_count == old(self).mesh.indices@.len()
                &&& r@[0].instanced
                &&& r@[0].instance_count == old(self).flakes@.len()
            },
    {
        let n = self.flakes.len();
        let mut cmds: Vec<DrawCmd> = Vec::new();
        if n <= self.mesh.max_instances {
            let cmd = self.mesh.draw_instances(shader, n);
            cmds.push(cmd);
        }
        cmds
    }
}

} // verus!
