//! The tree: three stacked cone segments, each a ring of side triangles
//! from a bottom circle up to a duplicated apex, flat-shaded with the
//! face normal on every corner.

use crate::drawable::DrawCmd;
use crate::fixed::{fx_mul_spec, fxcos_spec, fxsin_spec, FX_TURN};
use crate::linear::{Mat4, Vec3};
use crate::material::{Material, Materials, MAX_MATERIALS};
use crate::model::{Instance, Model};
use crate::shader::Shader;
use crate::xmas_tree::mesh::{indices_valid, vertices_wf, Mesh, Vertex};
use vstd::pervasive::unreached;
use vstd::prelude::*;

verus! {

/// Largest accepted number of slices around a segment.
pub const MAX_SLICES: u32 = 16_384;

/// Largest accepted segment stacking position.
pub const MAX_SEGMENT: u32 = 1024;

/// Largest accepted magnitude for a segment's radius, bottom and height:
/// half the bound the cross product accepts, so edge differences stay
/// within it.
pub const MAX_EXTENT: i64 = 500_000_000;

/// Angle of slice `i` around the segment, in half-turns.
pub open spec fn tree_angle(slices: int, i: int) -> int {
    (i * (FX_TURN as int)) / slices
}

/// The bottom-ring vertex of slice `i`.
pub open spec fn tree_bottom_pos(radius: i64, bottom: i64, slices: int, i: int) -> Vec3 {
    Vec3 {
        x: fx_mul_spec(radius as int, fxsin_spec(tree_angle(slices, i))) as i64,
        y: bottom,
        z: fx_mul_spec(radius as int, fxcos_spec(tree_angle(slices, i))) as i64,
    }
}

/// The segment's apex, straight above the center of the bottom ring.
pub open spec fn tree_apex_pos(bottom: i64, height: i64) -> Vec3 {
    Vec3 { x: 0, y: (bottom + height) as i64, z: 0 }
}

/// The flat face normal of slice `i`: the fixed-point cross product of
/// the edge to the next bottom vertex with the edge up to the apex.
pub open spec fn tree_face_normal(
    radius: i64,
    bottom: i64,
    height: i64,
    slices: int,
    i: int,
) -> Vec3 {
    let b = tree_bottom_pos(radius, bottom, slices, i);
    let nb = tree_bottom_pos(radius, bottom, slices, i + 1);
    let a = tree_apex_pos(bottom, height);
    let v1x = nb.x - b.x;
    let v1y = nb.y - b.y;
    let v1z = nb.z - b.z;
    let v2x = a.x - b.x;
    let v2y = a.y - b.y;
    let v2z = a.z - b.z;
    Vec3 {
        x: (fx_mul_spec(v1y, v2z) - fx_mul_spec(v1z, v2y)) as i64,
        y: (fx_mul_spec(v1z, v2x) - fx_mul_spec(v1x, v2z)) as i64,
        z: (fx_mul_spec(v1x, v2y) - fx_mul_spec(v1y, v2x)) as i64,
    }
}

/// Triangle `j` of a segment's index stream points at the bottom vertex,
/// the apex copy, and the next bottom vertex.
pub open spec fn tree_triangle_at(indices: Seq<u32>, ioff: int, voff: int, j: int, third: int) -> bool {
    &&& indices[ioff + 3 * j] as int == voff + 2 * j
    &&& indices[ioff + 3 * j + 1] as int == voff + 2 * j + 1
    &&& indices[ioff + 3 * j + 2] as int == third
}

/// Segment `segment` of a stacked-cone mesh reads exactly as generated:
/// per slice one bottom-ring vertex and one apex copy (both carrying the
/// face normal), one side triangle per slice, the last one closing the
/// ring.
pub open spec fn tree_segment_in(
    vs: Seq<Vertex>,
    indices: Seq<u32>,
    slices: int,
    radius: i64,
    segment: int,
    bottom: i64,
    height: i64,
) -> bool {
    let voff = 2 * segment * slices;
    let ioff = 3 * segment * slices;
    &&& forall|i: int|
        0 <= i < slices ==> #[trigger] vs[voff + 2 * i] == (Vertex {
            position: tree_bottom_pos(radius, bottom, slices, i),
            normal: tree_face_normal(radius, bottom, height, slices, i),
        })
    &&& forall|i: int|
        0 <= i < slices ==> #[trigger] vs[voff + 2 * i + 1] == (Vertex {
            position: tree_apex_pos(bottom, height),
            normal: tree_face_normal(radius, bottom, height, slices, i),
        })
    &&& forall|i: int|
        0 <= i < slices - 1 ==> #[trigger] tree_triangle_at(
            indices,
            ioff,
            voff,
            i,
            voff + 2 * i + 2,
        )
    &&& indices[ioff + 3 * (slices - 1)] as int == voff + 2 * (slices - 1)
    &&& indices[ioff + 3 * (slices - 1) + 1] as int == voff + 2 * (slices - 1) + 1
    &&& indices[ioff + 3 * (slices - 1) + 2] as int == voff
}

/// A generated segment keeps reading the same after more geometry is
/// appended behind it.
proof fn lemma_segment_prefix(
    vs1: Seq<Vertex>,
    is1: Seq<u32>,
    vs2: Seq<Vertex>,
    is2: Seq<u32>,
    slices: int,
    radius: i64,
    segment: int,
    bottom: i64,
    height: i64,
)
    requires
        tree_segment_in(vs1, is1, slices, radius, segment, bottom, height),
        2 <= slices,
        0 <= segment,
        2 * segment * slices + 2 * slices <= vs1.len() <= vs2.len(),
        3 * segment * slices + 3 * slices <= is1.len() <= is2.len(),
        forall|k: int| 0 <= k < vs1.len() ==> vs2[k] == vs1[k],
        forall|k: int| 0 <= k < is1.len() ==> is2[k] == is1[k],
    ensures
        tree_segment_in(vs2, is2, slices, radius, segment, bottom, height),
{
    let voff = 2 * segment * slices;
    let ioff = 3 * segment * slices;
    assert forall|i: int|
        0 <= i < slices implies #[trigger] vs2[voff + 2 * i] == (Vertex {
        position: tree_bottom_pos(radius, bottom, slices, i),
        normal: tree_face_normal(radius, bottom, height, slices, i),
    }) && #[trigger] vs2[voff + 2 * i + 1] == (Vertex {
        position: tree_apex_pos(bottom, height),
        normal: tree_face_normal(radius, bottom, height, slices, i),
    }) by {
        assert(vs2[voff + 2 * i] == vs1[voff + 2 * i]);
        assert(vs2[voff + 2 * i + 1] == vs1[voff + 2 * i + 1]);
    }
    assert forall|i: int|
        0 <= i < slices - 1 implies #[trigger] tree_triangle_at(
        is2,
        ioff,
        voff,
        i,
        voff + 2 * i + 2,
    ) by {
        assert(tree_triangle_at(is1, ioff, voff, i, voff + 2 * i + 2));
        assert(is2[ioff + 3 * i] == is1[ioff + 3 * i]);
        assert(is2[ioff + 3 * i + 1] == is1[ioff + 3 * i + 1]);
        assert(is2[ioff + 3 * i + 2] == is1[ioff + 3 * i + 2]);
    }
    assert(is2[ioff + 3 * (slices - 1)] == is1[ioff + 3 * (slices - 1)]);
    assert(is2[ioff + 3 * (slices - 1) + 1] == is1[ioff + 3 * (slices - 1) + 1]);
    assert(is2[ioff + 3 * (slices - 1) + 2] == is1[ioff + 3 * (slices - 1) + 2]);
}

/// Generates one cone segment: two vertices per slice (the bottom-ring
/// vertex and a duplicated apex, both carrying the face normal) and one
/// side triangle per slice, the last one closing the ring.  The segment's
/// vertices start at index `2 * segment * slices`, so stacked segments
/// share one vertex and index array.
#[verifier::rlimit(60)]
#[verifier::spinoff_prover]
pub fn gen_tree_segment(
    slices: u32,
    vertices: &mut Vec<Vertex>,
    indices: &mut Vec<u32>,
    radius: i64,
    segment: u32,
    segments_bottom: i64,
    segments_height: i64,
)
    requires
        2 <= slices <= MAX_SLICES,
        segment <= MAX_SEGMENT,
        0 < radius <= MAX_EXTENT,
        -MAX_EXTENT <= segments_bottom <= MAX_EXTENT,
        0 < segments_height <= MAX_EXTENT,
        segments_bottom + segments_height <= MAX_EXTENT,
        old(vertices)@.len() == 2 * segment * slices,
        old(indices)@.len() == 3 * segment * slices,
        indices_valid(old(indices)@, old(vertices)@.len() as int),
        vertices_wf(old(vertices)@),
    ensures
        final(vertices)@.len() == old(vertices)@.len() + 2 * slices,
        final(indices)@.len() == old(indices)@.len() + 3 * slices,
        forall|k: int| 0 <= k < old(vertices)@.len() ==> final(vertices)@[k] == old(vertices)@[k],
        forall|k: int| 0 <= k < old(indices)@.len() ==> final(indices)@[k] == old(indices)@[k],
        forall|i: int|
            0 <= i < slices ==> #[trigger] final(vertices)@[old(vertices)@.len() + 2 * i] == (Vertex {
                position: tree_bottom_pos(radius, segments_bottom, slices as int, i),
                normal: tree_face_normal(
                    radius,
                    segments_bottom,
                    segments_height,
                    slices as int,
                    i,
                ),
            }),
        forall|i: int|
            0 <= i < slices ==> #[trigger] final(vertices)@[old(vertices)@.len() + 2 * i + 1] == (Vertex {
                position: tree_apex_pos(segments_bottom, segments_height),
                normal: tree_face_normal(
                    radius,
                    segments_bottom,
                    segments_height,
                    slices as int,
                    i,
                ),
            }),
        forall|i: int|
            0 <= i < slices - 1 ==> #[trigger] tree_triangle_at(
                final(indices)@,
                old(indices)@.len() as int,
                old(vertices)@.len() as int,
                i,
                old(vertices)@.len() + 2 * i + 2,
            ),
        final(indices)@[final(indices)@.len() - 3] as int == old(vertices)@.len() + 2 * (slices
            - 1),
        final(indices)@[final(indices)@.len() - 2] as int == old(vertices)@.len() + 2 * (slices
            - 1) + 1,
        final(indices)@[final(indices)@.len() - 1] as int == old(vertices)@.len(),
        tree_segment_in(
            final(vertices)@,
            final(indices)@,
            slices as int,
            radius,
            segment as int,
            segments_bottom,
            segments_height,
        ),
        indices_valid(final(indices)@, final(vertices)@.len() as int),
        vertices_wf(final(vertices)@),
{
    let ghost voff = vertices@.len() as int;
    let ghost ioff = indices@.len() as int;
    proof {
        assert(2 * (segment as int) * (slices as int) <= 2 * 1024 * 16_384) by (nonlinear_arith)
            requires
                segment <= 1024,
                slices <= 16_384,
        ;
        assert(3 * (segment as int) * (slices as int) <= 3 * 1024 * 16_384) by (nonlinear_arith)
            requires
                segment <= 1024,
                slices <= 16_384,
        ;
    }
    let offset: u32 = 2 * segment * slices;
    proof {
        assert(offset == voff);
    }
    let apex = Vec3::new(0, segments_bottom + segments_height, 0);
    let mut i: u32 = 0;
    while i < slices
        invariant
            2 <= slices <= MAX_SLICES,
            segment <= MAX_SEGMENT,
            0 < radius <= MAX_EXTENT,
            -MAX_EXTENT <= segments_bottom <= MAX_EXTENT,
            0 < segments_height <= MAX_EXTENT,
            segments_bottom + segments_height <= MAX_EXTENT,
            apex == tree_apex_pos(segments_bottom, segments_height),
            voff == 2 * segment * slices,
            offset == voff,
            0 <= voff <= 33_554_432,
            ioff == 3 * segment * slices,
            0 <= ioff <= 50_331_648,
            0 <= i <= slices,
            vertices@.len() == voff + 2 * i,
            indices@.len() == ioff + 3 * (if i < slices { i as int } else { i - 1 }),
            i < slices ==> indices@.len() == ioff + 3 * i,
            forall|k: int| 0 <= k < voff ==> vertices@[k] == old(vertices)@[k],
            forall|k: int| 0 <= k < ioff ==> indices@[k] == old(indices)@[k],
            forall|j: int|
                0 <= j < i ==> #[trigger] vertices@[voff + 2 * j] == (Vertex {
                    position: tree_bottom_pos(radius, segments_bottom, slices as int, j),
                    normal: tree_face_normal(
                        radius,
                        segments_bottom,
                        segments_height,
                        slices as int,
                        j,
                    ),
                }),
            forall|j: int|
                0 <= j < i ==> #[trigger] vertices@[voff + 2 * j + 1] == (Vertex {
                    position: tree_apex_pos(segments_bottom, segments_height),
                    normal: tree_face_normal(
                        radius,
                        segments_bottom,
                        segments_height,
                        slices as int,
                        j,
                    ),
                }),
            forall|j: int|
                0 <= j < i && j < slices - 1 ==> #[trigger] tree_triangle_at(
                    indices@,
                    ioff,
                    voff,
                    j,
                    voff + 2 * j + 2,
                ),
            indices_valid(indices@, voff + 2 * slices as int),
            vertices_wf(vertices@),
        decreases slices - i,
    {
        let bottom_vertex = tree_ring_point(radius, segments_bottom, slices, i);
        let next_bottom_vertex = tree_ring_point(radius, segments_bottom, slices, i + 1);
        let vec_1 = next_bottom_vertex.minus(bottom_vertex);
        let vec_2 = apex.minus(bottom_vertex);
        let normal = vec_1.cross(vec_2);
        let ghost vprev = vertices@;
        vertices.push(Vertex { position: bottom_vertex, normal });
        vertices.push(Vertex { position: apex, normal });
        proof {
            assert(vertices@ =~= vprev + seq![
                Vertex { position: bottom_vertex, normal },
                Vertex { position: apex, normal },
            ]);
            assert(normal == tree_face_normal(
                radius,
                segments_bottom,
                segments_height,
                slices as int,
                i as int,
            ));
            assert(vertices@[voff + 2 * (i as int)] == (Vertex {
                position: tree_bottom_pos(radius, segments_bottom, slices as int, i as int),
                normal: tree_face_normal(
                    radius,
                    segments_bottom,
                    segments_height,
                    slices as int,
                    i as int,
                ),
            }));
            assert(vertices@[voff + 2 * (i as int) + 1] == (Vertex {
                position: tree_apex_pos(segments_bottom, segments_height),
                normal: tree_face_normal(
                    radius,
                    segments_bottom,
                    segments_height,
                    slices as int,
                    i as int,
                ),
            }));
            assert forall|j: int| 0 <= j < i implies #[trigger] vertices@[voff + 2 * j]
                == vprev[voff + 2 * j] && #[trigger] vertices@[voff + 2 * j + 1] == vprev[voff
                + 2 * j + 1] by {
                assert(vprev.len() == voff + 2 * (i as int));
            }
        }
        if i != slices - 1 {
            let ghost iprev = indices@;
            indices.push(offset + 2 * i);
            indices.push(offset + 2 * i + 1);
            indices.push(offset + 2 * i + 2);
            proof {
                assert(indices@ =~= iprev + seq![
                    (offset + 2 * i) as u32,
                    (offset + 2 * i + 1) as u32,
                    (offset + 2 * i + 2) as u32,
                ]);
                assert(tree_triangle_at(indices@, ioff, voff, i as int, voff + 2 * (i as int)
                    + 2));
                assert forall|j: int| 0 <= j < i && j < slices - 1 implies
                    #[trigger] tree_triangle_at(indices@, ioff, voff, j, voff + 2 * j + 2) by {
                    assert(tree_triangle_at(iprev, ioff, voff, j, voff + 2 * j + 2));
                    assert(iprev.len() == ioff + 3 * (i as int));
                    assert(indices@[ioff + 3 * j] == iprev[ioff + 3 * j]);
                    assert(indices@[ioff + 3 * j + 1] == iprev[ioff + 3 * j + 1]);
                    assert(indices@[ioff + 3 * j + 2] == iprev[ioff + 3 * j + 2]);
                }
            }
        }
        i = i + 1;
    }
    let ghost iprev = indices@;
    indices.push(offset + 2 * (slices - 1));
    indices.push(offset + 2 * (slices - 1) + 1);
    indices.push(offset);
    proof {
        assert(indices@ =~= iprev + seq![
            (offset + 2 * (slices - 1)) as u32,
            (offset + 2 * (slices - 1) + 1) as u32,
            offset,
        ]);
        assert forall|j: int| 0 <= j < slices - 1 implies #[trigger] tree_triangle_at(
            indices@,
            ioff,
            voff,
            j,
            voff + 2 * j + 2,
        ) by {
            assert(tree_triangle_at(iprev, ioff, voff, j, voff + 2 * j + 2));
            assert(iprev.len() == ioff + 3 * (slices as int - 1));
            assert(indices@[ioff + 3 * j] == iprev[ioff + 3 * j]);
            assert(indices@[ioff + 3 * j + 1] == iprev[ioff + 3 * j + 1]);
            assert(indices@[ioff + 3 * j + 2] == iprev[ioff + 3 * j + 2]);
        }
    }
}

/// The bottom-ring vertex of slice `i`, exactly as `tree_bottom_pos`
/// states it.
fn tree_ring_point(radius: i64, bottom: i64, slices: u32, i: u32) -> (v: Vec3)
    requires
        2 <= slices <= MAX_SLICES,
        0 < radius <= MAX_EXTENT,
        -MAX_EXTENT <= bottom <= MAX_EXTENT,
        i <= slices,
    ensures
        v == tree_bottom_pos(radius, bottom, slices as int, i as int),
        v.bounded(MAX_EXTENT as int),
{
    let angle: i64 = (((i as u64) * 2_000_000) / (slices as u64)) as i64;
    proof {
        assert((i as u64) * 2_000_000 <= 16_384 * 2_000_000) by (nonlinear_arith)
            requires
                i <= 16_384,
        ;
        assert(angle == tree_angle(slices as int, i as int));
        assert((i as int) * (FX_TURN as int) <= (slices as int) * (FX_TURN as int))
            by (nonlinear_arith)
            requires
                i <= slices,
        ;
        assert(((i as int) * (FX_TURN as int)) / (slices as int) <= FX_TURN as int) by {
            vstd::arithmetic::div_mod::lemma_div_is_ordered(
                (i as int) * (FX_TURN as int),
                (slices as int) * (FX_TURN as int),
                slices as int,
            );
            vstd::arithmetic::div_mod::lemma_div_multiples_vanish(
                FX_TURN as int,
                slices as int,
            );
        }
    }
    let sin_a = crate::fixed::fxsin(angle);
    let cos_a = crate::fixed::fxcos(angle);
    let x = crate::fixed::fx_mul(radius, sin_a);
    let z = crate::fixed::fx_mul(radius, cos_a);
    Vec3 { x, y: bottom, z }
}

/// The tree: its stacked segments in one mesh, drawn once with the
/// identity transform.
pub struct Tree {
    pub meshes: Vec<Mesh>,
}

/// The green needle material the tree registers.
pub open spec fn tree_material() -> Material {
    Material {
        ambient: Vec3 { x: 20_000, y: 350_000, z: 10_000 },
        diffuse: Vec3 { x: 20_000, y: 350_000, z: 10_000 },
        specular: Vec3 { x: 100_000, y: 100_000, z: 100_000 },
        shininess: 225_000_000,
    }
}

impl Tree {
    /// The tree's invariant: every mesh is well-formed.
    pub open spec fn wf(self) -> bool {
        forall|k: int| 0 <= k < self.meshes@.len() ==> (#[trigger] self.meshes@[k]).wf()
    }

    /// Everything construction guarantees, with `base` the number of
    /// materials registered before the tree: one mesh holding the three
    /// hand-tuned cone segments of forty slices — radii 4, 3 and 2 world
    /// units, bottoms -3, 0 and 2, heights 5, 3 and 2 — drawn as one
    /// identity-transform instance of the tree material.
    pub open spec fn built(self, base: int) -> bool {
        &&& self.wf()
        &&& self.meshes@.len() == 1
        &&& self.meshes@[0].vertices@.len() == 240
        &&& self.meshes@[0].indices@.len() == 360
        &&& tree_segment_in(
            self.meshes@[0].vertices@,
            self.meshes@[0].indices@,
            40,
            4_000_000,
            0,
            -3_000_000i64,
            5_000_000,
        )
        &&& tree_segment_in(
            self.meshes@[0].vertices@,
            self.meshes@[0].indices@,
            40,
            3_000_000,
            1,
            0,
            3_000_000,
        )
        &&& tree_segment_in(
            self.meshes@[0].vertices@,
            self.meshes@[0].indices@,
            40,
            2_000_000,
            2,
            2_000_000,
            2_000_000,
        )
        &&& self.meshes@[0].max_instances == 1
        &&& self.meshes@[0].instances@.len() == 1
        &&& self.meshes@[0].instances@[0].material_id as int == base
        &&& forall|j: int|
            0 <= j < 16 ==> #[trigger] self.meshes@[0].instances@[0].model.e@[j] as int
                == crate::linear::mat4_model_spec(0, 0, 0, 0, 0, 0)[j]
    }

    /// Builds the tree from the three hand-tuned segments.
    pub fn new(materials: &mut Materials) -> (t: Tree)
        requires
            old(materials).materials@.len() < MAX_MATERIALS as int,
        ensures
            t.built(old(materials).materials@.len() as int),
            t.wf(),
            final(materials).materials@ =~= old(materials).materials@.push(tree_material()),
    {
        Self::manual(materials)
    }

    /// The hand-tuned tree: three segments of forty slices, stacking
    /// bottom to top with shrinking radius.
    fn manual(materials: &mut Materials) -> (t: Tree)
        requires
            old(materials).materials@.len() < MAX_MATERIALS as int,
        ensures
            t.built(old(materials).materials@.len() as int),
            final(materials).materials@ =~= old(materials).materials@.push(tree_material()),
    {
        let slices: u32 = 40;
        let mut vertices: Vec<Vertex> = Vec::new();
        let mut indices: Vec<u32> = Vec::new();
        gen_tree_segment(slices, &mut vertices, &mut indices, 4_000_000, 0, -3_000_000, 5_000_000);
        let ghost v1 = vertices@;
        let ghost i1 = indices@;
        gen_tree_segment(slices, &mut vertices, &mut indices, 3_000_000, 1, 0, 3_000_000);
        proof {
            lemma_segment_prefix(v1, i1, vertices@, indices@, 40, 4_000_000, 0, -3_000_000i64, 5_000_000);
        }
        let ghost v2 = vertices@;
        let ghost i2 = indices@;
        gen_tree_segment(slices, &mut vertices, &mut indices, 2_000_000, 2, 2_000_000, 2_000_000);
        proof {
            lemma_segment_prefix(v2, i2, vertices@, indices@, 40, 4_000_000, 0, -3_000_000i64, 5_000_000);
            lemma_segment_prefix(v2, i2, vertices@, indices@, 40, 3_000_000, 1, 0, 3_000_000);
        }
        let material = Material {
            ambient: Vec3::new(20_000, 350_000, 10_000),
            diffuse: Vec3::new(20_000, 350_000, 10_000),
            specular: Vec3::new(100_000, 100_000, 100_000),
            shininess: 225_000_000,
        };
        proof {
            assert(material == tree_material());
        }
        let material_id = match materials.add(material) {
            Ok(id) => id,
            Err(_) => unreached(),
        };
        let mut mesh = Mesh::new(vertices, indices, 1);
        let mut instances: Vec<Instance> = Vec::new();
        instances.push(Instance { model: Mat4::identity(), material_id });
        mesh.fill_instances_vbo(&instances);
        let mut meshes: Vec<Mesh> = Vec::new();
        meshes.push(mesh);
        Tree { meshes }
    }
}

/// Model data is usable when positions and normals pair up three
/// coordinates per vertex, every coordinate is in the fixed-point range,
/// and every index addresses a vertex.
pub open spec fn tree_parts_ok(positions: Seq<i64>, normals: Seq<i64>, indices: Seq<u32>) -> bool {
    &&& positions.len() % 3 == 0
    &&& normals.len() == positions.len()
    &&& forall|k: int|
        0 <= k < positions.len() ==> crate::fixed::fx_ok(#[trigger] positions[k])
    &&& forall|k: int| 0 <= k < normals.len() ==> crate::fixed::fx_ok(#[trigger] normals[k])
    &&& forall|k: int|
        0 <= k < indices.len() ==> 3 * (#[trigger] indices[k] as int) + 3 <= positions.len()
}

impl Tree {
    /// Builds a tree from externally loaded model data — flat position
    /// and normal streams and an index array — after checking it: three
    /// coordinates per vertex, coordinates in range, every index in
    /// bounds.  Data that fails the check is rejected whole and the
    /// material table is left untouched.
    pub fn from_parts(
        materials: &mut Materials,
        positions: Vec<i64>,
        normals: Vec<i64>,
        indices: Vec<u32>,
        material: Material,
    ) -> (r: Option<Tree>)
        requires
            old(materials).materials@.len() < MAX_MATERIALS as int,
        ensures
            match r {
                Some(t) => {
                    &&& tree_parts_ok(positions@, normals@, indices@)
                    &&& t.wf()
                    &&& t.meshes@.len() == 1
                    &&& t.meshes@[0].vertices@.len() == positions@.len() / 3
                    &&& forall|k: int|
                        0 <= k < t.meshes@[0].vertices@.len()
                            ==> #[trigger] t.meshes@[0].vertices@[k] == (Vertex {
                            position: Vec3 {
                                x: positions@[3 * k],
                                y: positions@[3 * k + 1],
                                z: positions@[3 * k + 2],
                            },
                            normal: Vec3 {
                                x: normals@[3 * k],
                                y: normals@[3 * k + 1],
                                z: normals@[3 * k + 2],
                            },
                        })
                    &&& t.meshes@[0].indices@ =~= indices@
                    &&& t.meshes@[0].instances@.len() == 1
                    &&& t.meshes@[0].instances@[0].material_id as int == old(
                        materials,
                    ).materials@.len()
                    &&& forall|j: int|
                        0 <= j < 16 ==> #[trigger] t.meshes@[0].instances@[0].model.e@[j]
                            as int == crate::linear::mat4_model_spec(0, 0, 0, 0, 0, 0)[j]
                    &&& final(materials).materials@.len() == old(materials).materials@.len()
                        + 1
                },
                None => {
                    &&& !tree_parts_ok(positions@, normals@, indices@)
                    &&& final(materials).materials@ =~= old(materials).materials@
                },
            },
    {
        let n = positions.len();
        if n % 3 != 0 || normals.len() != n {
            return None;
        }
        let mut k: usize = 0;
        while k < n
            invariant
                n == positions@.len(),
                n == normals@.len(),
                0 <= k <= n,
                forall|q: int|
                    0 <= q < k ==> crate::fixed::fx_ok(#[trigger] positions@[q]),
                forall|q: int| 0 <= q < k ==> crate::fixed::fx_ok(#[trigger] normals@[q]),
            decreases n - k,
        {
            let p = positions[k];
            let m = normals[k];
            if p < -crate::fixed::FX_LIM || p > crate::fixed::FX_LIM || m
                < -crate::fixed::FX_LIM || m > crate::fixed::FX_LIM {
                return None;
            }
            k = k + 1;
        }
        let vertex_count = n / 3;
        let mut k: usize = 0;
        while k < indices.len()
            invariant
                n == positions@.len(),
                vertex_count == n / 3,
                3 * (vertex_count as int) <= n,
                0 <= k <= indices@.len(),
                forall|q: int|
                    0 <= q < k ==> 3 * (#[trigger] indices@[q] as int) + 3 <= positions@.len(),
            decreases indices@.len() - k,
        {
            if indices[k] as usize >= vertex_count {
                return None;
            }
            proof {
                vstd::arithmetic::div_mod::lemma_fundamental_div_mod(n as int, 3);
            }
            k = k + 1;
        }
        proof {
            vstd::arithmetic::div_mod::lemma_fundamental_div_mod(n as int, 3);
        }
        let mut vertices: Vec<Vertex> = Vec::new();
        let mut vi: usize = 0;
        while vi < vertex_count
            invariant
                n == positions@.len(),
                n == normals@.len(),
                vertex_count == n / 3,
                3 * (vertex_count as int) <= n,
                forall|q: int|
                    0 <= q < n ==> crate::fixed::fx_ok(#[trigger] positions@[q]),
                forall|q: int| 0 <= q < n ==> crate::fixed::fx_ok(#[trigger] normals@[q]),
                0 <= vi <= vertex_count,
                vertices@.len() == vi,
                forall|q: int|
                    0 <= q < vi ==> #[trigger] vertices@[q] == (Vertex {
                        position: Vec3 {
                            x: positions@[3 * q],
                            y: positions@[3 * q + 1],
                            z: positions@[3 * q + 2],
                        },
                        normal: Vec3 {
                            x: normals@[3 * q],
                            y: normals@[3 * q + 1],
                            z: normals@[3 * q + 2],
                        },
                    }),
                vertices_wf(vertices@),
            decreases vertex_count - vi,
        {
            proof {
                assert(3 * (vi as int) + 2 < 3 * (vertex_count as int)) by (nonlinear_arith)
                    requires
                        vi < vertex_count,
                ;
            }
            let position = Vec3 {
                x: positions[3 * vi],
                y: positions[3 * vi + 1],
                z: positions[3 * vi + 2],
            };
            let normal = Vec3 {
                x: normals[3 * vi],
                y: normals[3 * vi + 1],
                z: normals[3 * vi + 2],
            };
            vertices.push(Vertex { position, normal });
            vi = vi + 1;
        }
        let material_id = match materials.add(material) {
            Ok(id) => id,
            Err(_) => unreached(),
        };
        let mut mesh = Mesh::new(vertices, indices, 1);
        let mut instances: Vec<Instance> = Vec::new();
        instances.push(Instance { model: Mat4::identity(), material_id });
        mesh.fill_instances_vbo(&instances);
        let mut meshes: Vec<Mesh> = Vec::new();
        meshes.push(mesh);
        Some(Tree { meshes })
    }
}

impl Model for Tree {
    /// Nothing changes between frames.
    fn next_frame(&mut self)
        ensures
            *final(self) == *old(self),
    {
    }

    /// One non-instanced draw per mesh of the tree.
    fn draw(&mut self, shader: &Shader) -> (r: Vec<DrawCmd>)
        ensures
            *final(self) == *old(self),
            r@.len() == old(self).meshes@.len(),
            forall|k: int|
                0 <= k < r@.len() ==> {
                    &&& r@[k].shader_id == shader.id
                    &&& r@[k].index_count == old(self).meshes@[k].indices@.len()
                    &&& !r@[k].instanced
                    &&& r@[k].instance_count == 1
                },
    {
        let mut cmds: Vec<DrawCmd> = Vec::new();
        let n = self.meshes.len();
        let mut k: usize = 0;
        while k < n
            invariant
                n == self.meshes@.len(),
                0 <= k <= n,
                cmds@.len() == k,
                forall|j: int|
                    0 <= j < k ==> {
                        &&& cmds@[j].shader_id == shader.id
                        &&& cmds@[j].index_count == self.meshes@[j].indices@.len()
                        &&& !cmds@[j].instanced
                        &&& cmds@[j].instance_count == 1
                    },
            decreases n - k,
        {
            let cmd = self.meshes[k].draw_single(shader);
            cmds.push(cmd);
            k = k + 1;
        }
        cmds
    }
}

} // verus!
