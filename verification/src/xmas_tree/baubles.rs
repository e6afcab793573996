//! The baubles: one canonical UV-sphere mesh, tessellated once, shared by
//! every bauble placement through the instance buffer.
//!
//! The sphere has one pole vertex on top, `precision - 1` latitude rings
//! of `2 * precision` vertices each, and one pole vertex at the bottom;
//! triangle fans close the poles and two triangles per trapezoid fill the
//! rings in between.  Every vertex and every index is pinned down exactly
//! by the spec functions below.

use crate::drawable::DrawCmd;
use crate::fixed::{fx_mul, fx_mul_spec, fxcos, fxcos_spec, fxsin, fxsin_spec, FX_ONE};
use crate::linear::{mat4_model_spec, Mat4, Vec3};
use crate::material::{Material, MaterialId, Materials, MAX_MATERIALS};
use crate::model::{Instance, Model};
use crate::shader::Shader;
use crate::xmas_tree::mesh::{indices_valid, vertices_wf, Mesh, Vertex};
use vstd::arithmetic::div_mod::lemma_fundamental_div_mod_converse;
use vstd::pervasive::unreached;
use vstd::prelude::*;

verus! {

/// Largest accepted tessellation precision.
pub const MAX_PRECISION: u32 = 16_384;

/// Largest accepted sphere radius: half the fixed-point range, so a
/// center coordinate plus the radius still fits it.
pub const MAX_RADIUS: i64 = 1_000_000_000_000;

/// Largest accepted magnitude of a sphere's center coordinate.
pub const MAX_CENTER: i64 = 1_000_000_000_000;

/// Vertices of a sphere of the given precision: two poles and
/// `precision - 1` rings of `2 * precision` vertices.
pub open spec fn sphere_vertex_count(p: int) -> int {
    2 + (p - 1) * (2 * p)
}

/// Vertex `k` of the tessellated sphere.  Vertex `0` is the top pole; the
/// rings follow latitude by latitude, `2 * precision` vertices each; the
/// last vertex is the bottom pole.  A ring vertex at vertical angle `v`
/// and horizontal angle `h` (in half-turns, `layer / p` and `slice / p`)
/// sits at `center + (r sin v sin h, radius cos v, r sin v cos h)` with
/// `r = radius sin v`, and carries the unnormalized normal
/// `(sin h, cos v, cos h)`.
pub open spec fn sphere_vertex(c: Vec3, radius: i64, p: int, k: int) -> Vertex {
    if k == 0 {
        Vertex {
            position: Vec3 { x: c.x, y: (c.y + radius) as i64, z: c.z },
            normal: Vec3 { x: 0, y: FX_ONE, z: 0 },
        }
    } else if k <= (p - 1) * (2 * p) {
        let layer = 1 + (k - 1) / (2 * p);
        let slice = (k - 1) % (2 * p);
        let v_angle = (layer * (FX_ONE as int)) / p;
        let h_angle = (slice * (FX_ONE as int)) / p;
        let sin_v = fxsin_spec(v_angle);
        let cos_v = fxcos_spec(v_angle);
        let sin_h = fxsin_spec(h_angle);
        let cos_h = fxcos_spec(h_angle);
        let layer_radius = fx_mul_spec(radius as int, sin_v);
        Vertex {
            position: Vec3 {
                x: (c.x + fx_mul_spec(layer_radius, sin_h)) as i64,
                y: (c.y + fx_mul_spec(radius as int, cos_v)) as i64,
                z: (c.z + fx_mul_spec(layer_radius, cos_h)) as i64,
            },
            normal: Vec3 { x: sin_h as i64, y: cos_v as i64, z: cos_h as i64 },
        }
    } else {
        Vertex {
            position: Vec3 { x: c.x, y: (c.y - radius) as i64, z: c.z },
            normal: Vec3 { x: 0, y: (-(FX_ONE as int)) as i64, z: 0 },
        }
    }
}

/// Generates the sphere's vertices into an empty vector: pole, rings,
/// pole, each vertex exactly as `sphere_vertex` states it.
pub fn gen_vertices(vertices: &mut Vec<Vertex>, center: Vec3, radius: i64, precision: u32)
    requires
        old(vertices)@.len() == 0,
        2 <= precision <= MAX_PRECISION,
        0 < radius <= MAX_RADIUS,
        center.bounded(MAX_CENTER as int),
    ensures
        final(vertices)@.len() == sphere_vertex_count(precision as int),
        forall|k: int|
            0 <= k < final(vertices)@.len() ==> final(vertices)@[k] == sphere_vertex(
                center,
                radius,
                precision as int,
                k,
            ),
        vertices_wf(final(vertices)@),
{
    let p64: u64 = precision as u64;
    let ring: u32 = 2 * precision;
    vertices.push(
        Vertex {
            position: Vec3 { x: center.x, y: center.y + radius, z: center.z },
            normal: Vec3 { x: 0, y: FX_ONE, z: 0 },
        },
    );
    let mut layer: u32 = 1;
    while layer < precision
        invariant
            2 <= precision <= MAX_PRECISION,
            0 < radius <= MAX_RADIUS,
            center.bounded(MAX_CENTER as int),
            p64 == precision,
            ring == 2 * precision,
            1 <= layer <= precision,
            vertices@.len() == 1 + (layer - 1) * (2 * precision as int),
            forall|k: int|
                0 <= k < vertices@.len() ==> vertices@[k] == sphere_vertex(
                    center,
                    radius,
                    precision as int,
                    k,
                ),
            vertices_wf(vertices@),
        decreases precision - layer,
    {
        let v_angle: i64 = (((layer as u64) * 1_000_000) / p64) as i64;
        proof {
            assert((layer as u64) * 1_000_000 <= 16_384 * 1_000_000) by (nonlinear_arith)
                requires
                    layer <= 16_384,
            ;
            assert(v_angle == ((layer as int) * (FX_ONE as int)) / (precision as int));
            assert((layer as int) * (FX_ONE as int) < (precision as int) * (FX_ONE as int))
                by (nonlinear_arith)
                requires
                    layer < precision,
            ;
            assert(((layer as int) * (FX_ONE as int)) / (precision as int) < FX_ONE as int) by {
                vstd::arithmetic::div_mod::lemma_multiply_divide_lt(
                    (layer as int) * (FX_ONE as int),
                    precision as int,
                    FX_ONE as int,
                );
            }
        }
        let sin_v = fxsin(v_angle);
        let cos_v = fxcos(v_angle);
        let layer_radius = fx_mul(radius, sin_v);
        let mut slice: u32 = 0;
        while slice < ring
            invariant
                2 <= precision <= MAX_PRECISION,
                0 < radius <= MAX_RADIUS,
                center.bounded(MAX_CENTER as int),
                p64 == precision,
                ring == 2 * precision,
                1 <= layer < precision,
                0 <= slice <= ring,
                v_angle == ((layer as int) * (FX_ONE as int)) / (precision as int),
                0 <= v_angle < FX_ONE,
                sin_v == fxsin_spec(v_angle as int),
                cos_v == fxcos_spec(v_angle as int),
                -FX_ONE <= sin_v <= FX_ONE,
                -FX_ONE <= cos_v <= FX_ONE,
                layer_radius == fx_mul_spec(radius as int, sin_v as int),
                -MAX_RADIUS <= layer_radius <= MAX_RADIUS,
                vertices@.len() == 1 + (layer - 1) * (2 * precision as int) + slice,
                forall|k: int|
                    0 <= k < vertices@.len() ==> vertices@[k] == sphere_vertex(
                        center,
                        radius,
                        precision as int,
                        k,
                    ),
                vertices_wf(vertices@),
            decreases ring - slice,
        {
            let h_angle: i64 = (((slice as u64) * 1_000_000) / p64) as i64;
            proof {
                assert((slice as u64) * 1_000_000 <= 32_768 * 1_000_000) by (nonlinear_arith)
                    requires
                        slice <= 32_768,
                ;
                assert(h_angle == ((slice as int) * (FX_ONE as int)) / (precision as int));
                assert((slice as int) * (FX_ONE as int) < (precision as int) * (2 * FX_ONE as int))
                    by (nonlinear_arith)
                    requires
                        slice < 2 * precision,
                ;
                assert(((slice as int) * (FX_ONE as int)) / (precision as int) < 2 * FX_ONE as int)
                    by {
                    vstd::arithmetic::div_mod::lemma_multiply_divide_lt(
                        (slice as int) * (FX_ONE as int),
                        precision as int,
                        2 * FX_ONE as int,
                    );
                }
            }
            let sin_h = fxsin(h_angle);
            let cos_h = fxcos(h_angle);
            let vx = center.x + fx_mul(layer_radius, sin_h);
            let vy = center.y + fx_mul(radius, cos_v);
            let vz = center.z + fx_mul(layer_radius, cos_h);
            let ghost k = vertices@.len() as int;
            vertices.push(
                Vertex {
                    position: Vec3 { x: vx, y: vy, z: vz },
                    normal: Vec3 { x: sin_h, y: cos_v, z: cos_h },
                },
            );
            proof {
                lemma_fundamental_div_mod_converse(
                    k - 1,
                    2 * precision as int,
                    layer as int - 1,
                    slice as int,
                );
                assert(1 <= k <= (precision as int - 1) * (2 * precision as int)) by (nonlinear_arith)
                    requires
                        k == 1 + (layer as int - 1) * (2 * precision as int) + slice,
                        1 <= layer < precision,
                        0 <= slice < 2 * precision,
                ;
                assert(vertices@[k] == sphere_vertex(center, radius, precision as int, k));
            }
            slice = slice + 1;
        }
        layer = layer + 1;
        proof {
            assert((layer as int - 1) * (2 * precision as int) == (layer as int - 2) * (2
                * precision as int) + 2 * precision as int) by (nonlinear_arith);
        }
    }
    let ghost k = vertices@.len() as int;
    vertices.push(
        Vertex {
            position: Vec3 { x: center.x, y: center.y - radius, z: center.z },
            normal: Vec3 { x: 0, y: -FX_ONE, z: 0 },
        },
    );
    proof {
        assert(k == 1 + (precision as int - 1) * (2 * precision as int));
        assert(k > (precision as int - 1) * (2 * precision as int));
        assert(vertices@[k] == sphere_vertex(center, radius, precision as int, k));
    }
}

/// Index of the vertex at `(layer, slice)`: both poles collapse to a
/// single vertex, and the slice wraps modulo the ring size to close the
/// seam.
pub open spec fn sphere_index(p: int, layer: int, slice: int) -> int {
    if layer == 0 {
        0
    } else if layer == p {
        (layer - 1) * (2 * p) + 1
    } else {
        (layer - 1) * (2 * p) + 1 + slice % (2 * p)
    }
}

/// Triangles of the sphere: `2p` in the top fan, two per slice in each of
/// the `p - 2` interior bands, and `2p` in the bottom fan.
pub open spec fn sphere_triangle_count(p: int) -> int {
    2 * p + (p - 2) * (4 * p) + 2 * p
}

/// The three vertex indices of triangle `t`, in emission order.  The top
/// fan comes first, then the interior bands layer by layer with the two
/// trapezoid triangles of one slice adjacent, then the bottom fan.
pub open spec fn sphere_triangle(p: int, t: int) -> Seq<int> {
    if t < 2 * p {
        seq![sphere_index(p, 0, t), sphere_index(p, 1, t + 1), sphere_index(p, 1, t)]
    } else if t < 2 * p + (p - 2) * (4 * p) {
        let rel = t - 2 * p;
        let layer = 2 + rel / (4 * p);
        let within = rel % (4 * p);
        let slice = within / 2;
        if within % 2 == 0 {
            seq![
                sphere_index(p, layer - 1, slice),
                sphere_index(p, layer, slice + 1),
                sphere_index(p, layer, slice),
            ]
        } else {
            seq![
                sphere_index(p, layer - 1, slice),
                sphere_index(p, layer - 1, slice + 1),
                sphere_index(p, layer, slice + 1),
            ]
        }
    } else {
        let s = t - (2 * p + (p - 2) * (4 * p));
        seq![sphere_index(p, p - 1, s), sphere_index(p, p - 1, s + 1), sphere_index(p, p, s)]
    }
}

/// Triangle `t` of the emitted index array reads exactly as
/// `sphere_triangle` states it.
pub open spec fn triangle_matches(indices: Seq<u32>, p: int, t: int) -> bool {
    &&& indices[3 * t] as int == sphere_triangle(p, t)[0]
    &&& indices[3 * t + 1] as int == sphere_triangle(p, t)[1]
    &&& indices[3 * t + 2] as int == sphere_triangle(p, t)[2]
}

/// The vertex index at `(layer, slice)` of a sphere of the given
/// precision; the result always addresses a generated vertex.
fn find_index(layer: u32, slice: u32, precision: u32) -> (r: u32)
    requires
        2 <= precision <= MAX_PRECISION,
        layer <= precision,
        slice <= 2 * precision,
    ensures
        r as int == sphere_index(precision as int, layer as int, slice as int),
        (r as int) < sphere_vertex_count(precision as int),
{
    let ring = 2 * precision;
    if layer == 0 {
        0
    } else if layer == precision {
        proof {
            assert((layer as int - 1) * (2 * precision as int) <= (precision as int - 1) * (2
                * precision as int) <= 16_383 * 32_768) by (nonlinear_arith)
                requires
                    1 <= layer <= precision <= 16_384,
            ;
        }
        (layer - 1) * ring + 1
    } else {
        proof {
            assert((layer as int - 1) * (2 * precision as int) <= (precision as int - 1) * (2
                * precision as int) <= 16_383 * 32_768) by (nonlinear_arith)
                requires
                    1 <= layer <= precision <= 16_384,
            ;
        }
        proof {
            assert((layer as int - 1) * (2 * precision as int) + 2 * precision as int == (layer
                as int) * (2 * precision as int) <= (precision as int - 1) * (2 * precision
                as int)) by (nonlinear_arith)
                requires
                    1 <= layer <= precision - 1,
                    precision >= 2,
            ;
        }
        (layer - 1) * ring + 1 + slice % ring
    }
}

/// Triangles already emitted keep matching after more indices are pushed.
proof fn lemma_matches_prefix(s1: Seq<u32>, s2: Seq<u32>, p: int, n: int)
    requires
        s1.len() <= s2.len(),
        3 * n <= s1.len(),
        0 <= n,
        forall|j: int| 0 <= j < s1.len() ==> s2[j] == s1[j],
        forall|t: int| 0 <= t < n ==> triangle_matches(s1, p, t),
    ensures
        forall|t: int| 0 <= t < n ==> triangle_matches(s2, p, t),
{
    assert forall|t: int| 0 <= t < n implies triangle_matches(s2, p, t) by {
        assert(triangle_matches(s1, p, t));
        assert(s2[3 * t] == s1[3 * t]);
        assert(s2[3 * t + 1] == s1[3 * t + 1]);
        assert(s2[3 * t + 2] == s1[3 * t + 2]);
    }
}

/// Generates the sphere's index array into an empty vector: the top fan,
/// the interior bands, the bottom fan, each triangle exactly as
/// `sphere_triangle` states it, and every index addressing a generated
/// vertex.
pub fn gen_indices(indices: &mut Vec<u32>, precision: u32)
    requires
        old(indices)@.len() == 0,
        2 <= precision <= MAX_PRECISION,
    ensures
        final(indices)@.len() == 3 * sphere_triangle_count(precision as int),
        forall|t: int|
            0 <= t < sphere_triangle_count(precision as int) ==> triangle_matches(
                final(indices)@,
                precision as int,
                t,
            ),
        indices_valid(final(indices)@, sphere_vertex_count(precision as int)),
{
    let ring: u32 = 2 * precision;
    let mut slice: u32 = 0;
    while slice < ring
        invariant
            2 <= precision <= MAX_PRECISION,
            ring == 2 * precision,
            0 <= slice <= ring,
            indices@.len() == 3 * slice,
            forall|t: int| 0 <= t < slice ==> triangle_matches(indices@, precision as int, t),
            indices_valid(indices@, sphere_vertex_count(precision as int)),
        decreases ring - slice,
    {
        let ghost prev = indices@;
        let ia = find_index(0, slice, precision);
        let ib = find_index(1, slice + 1, precision);
        let ic = find_index(1, slice, precision);
        indices.push(ia);
        indices.push(ib);
        indices.push(ic);
        proof {
            assert(indices@ =~= prev + seq![ia, ib, ic]);
            lemma_matches_prefix(prev, indices@, precision as int, slice as int);
            assert(indices@[3 * (slice as int)] == ia);
            assert(indices@[3 * (slice as int) + 1] == ib);
            assert(indices@[3 * (slice as int) + 2] == ic);
            assert(triangle_matches(indices@, precision as int, slice as int));
        }
        slice = slice + 1;
    }
    let mut layer: u32 = 2;
    while layer < precision
        invariant
            2 <= precision <= MAX_PRECISION,
            ring == 2 * precision,
            2 <= layer <= precision,
            indices@.len() == 3 * (2 * precision as int + (layer - 2) * (4 * precision as int)),
            forall|t: int|
                0 <= t < 2 * precision as int + (layer - 2) * (4 * precision as int)
                    ==> triangle_matches(indices@, precision as int, t),
            indices_valid(indices@, sphere_vertex_count(precision as int)),
        decreases precision - layer,
    {
        let ghost band_start: int = 2 * precision as int + (layer - 2) * (4 * precision as int);
        let mut slice: u32 = 0;
        while slice < ring
            invariant
                2 <= precision <= MAX_PRECISION,
                ring == 2 * precision,
                2 <= layer < precision,
                0 <= slice <= ring,
                band_start == 2 * precision as int + (layer - 2) * (4 * precision as int),
                indices@.len() == 3 * (band_start + 2 * slice),
                forall|t: int|
                    0 <= t < band_start + 2 * slice ==> triangle_matches(
                        indices@,
                        precision as int,
                        t,
                    ),
                indices_valid(indices@, sphere_vertex_count(precision as int)),
            decreases ring - slice,
        {
            let ghost prev = indices@;
            let ia = find_index(layer - 1, slice, precision);
            let ib = find_index(layer, slice + 1, precision);
            let ic = find_index(layer, slice, precision);
            let id = find_index(layer - 1, slice, precision);
            let ie = find_index(layer - 1, slice + 1, precision);
            let ig = find_index(layer, slice + 1, precision);
            indices.push(ia);
            indices.push(ib);
            indices.push(ic);
            indices.push(id);
            indices.push(ie);
            indices.push(ig);
            proof {
                let t0 = band_start + 2 * slice;
                assert(indices@ =~= prev + seq![ia, ib, ic, id, ie, ig]);
                lemma_matches_prefix(prev, indices@, precision as int, t0);
                assert(indices@[3 * t0] == ia);
                assert(indices@[3 * t0 + 1] == ib);
                assert(indices@[3 * t0 + 2] == ic);
                assert(indices@[3 * t0 + 3] == id);
                assert(indices@[3 * t0 + 4] == ie);
                assert(indices@[3 * t0 + 5] == ig);
                let rel = t0 - 2 * precision as int;
                lemma_fundamental_div_mod_converse(
                    rel,
                    4 * precision as int,
                    layer as int - 2,
                    2 * slice as int,
                );
                lemma_fundamental_div_mod_converse(
                    rel + 1,
                    4 * precision as int,
                    layer as int - 2,
                    2 * slice as int + 1,
                );
                lemma_fundamental_div_mod_converse(2 * slice as int, 2, slice as int, 0);
                lemma_fundamental_div_mod_converse(2 * slice as int + 1, 2, slice as int, 1);
                assert(t0 + 1 < 2 * precision as int + (precision as int - 2) * (4 * precision
                    as int)) by (nonlinear_arith)
                    requires
                        t0 == 2 * precision as int + (layer as int - 2) * (4 * precision as int)
                            + 2 * slice,
                        2 <= layer < precision,
                        0 <= slice < 2 * precision,
                        precision >= 2,
                ;
                assert(triangle_matches(indices@, precision as int, t0));
                assert(triangle_matches(indices@, precision as int, t0 + 1));
            }
            slice = slice + 1;
        }
        layer = layer + 1;
        proof {
            assert((layer as int - 2) * (4 * precision as int) == (layer as int - 3) * (4
                * precision as int) + 4 * precision as int) by (nonlinear_arith);
        }
    }
    let ghost fan_start: int = 2 * precision as int + (precision as int - 2) * (4 * precision
        as int);
    let mut slice: u32 = 0;
    while slice < ring
        invariant
            2 <= precision <= MAX_PRECISION,
            ring == 2 * precision,
            0 <= slice <= ring,
            fan_start == 2 * precision as int + (precision as int - 2) * (4 * precision as int),
            indices@.len() == 3 * (fan_start + slice),
            forall|t: int|
                0 <= t < fan_start + slice ==> triangle_matches(indices@, precision as int, t),
            indices_valid(indices@, sphere_vertex_count(precision as int)),
        decreases ring - slice,
    {
        let ghost prev = indices@;
        let ia = find_index(precision - 1, slice, precision);
        let ib = find_index(precision - 1, slice + 1, precision);
        let ic = find_index(precision, slice, precision);
        indices.push(ia);
        indices.push(ib);
        indices.push(ic);
        proof {
            let t0 = fan_start + slice;
            assert(indices@ =~= prev + seq![ia, ib, ic]);
            lemma_matches_prefix(prev, indices@, precision as int, t0);
            assert(indices@[3 * t0] == ia);
            assert(indices@[3 * t0 + 1] == ib);
            assert(indices@[3 * t0 + 2] == ic);
            assert(triangle_matches(indices@, precision as int, t0));
        }
        slice = slice + 1;
    }
}

/// Law: the sphere's triangle budget.  The two polar fans contribute
/// `2 * (2p)` triangles and each of the `p - 2` interior bands two per
/// slice, `(p - 2) * 2 * (2p)` in all; together that is `4p(p - 1)`
/// triangles over `2 + (p - 1)(2p)` vertices.
pub proof fn lemma_sphere_counts(p: int)
    requires
        p >= 2,
    ensures
        sphere_triangle_count(p) == 2 * (2 * p) + (p - 2) * (2 * (2 * p)),
        sphere_triangle_count(p) == 4 * p * (p - 1),
        sphere_vertex_count(p) == 2 + (p - 1) * (2 * p),
{
    assert(2 * p + (p - 2) * (4 * p) + 2 * p == 2 * (2 * p) + (p - 2) * (2 * (2 * p)))
        by (nonlinear_arith);
    assert(2 * p + (p - 2) * (4 * p) + 2 * p == 4 * p * (p - 1)) by (nonlinear_arith);
}

/// Generates a whole sphere into empty vertex and index vectors; every
/// index addresses a generated vertex.
pub fn gen_sphere(
    vertices: &mut Vec<Vertex>,
    indices: &mut Vec<u32>,
    center: Vec3,
    radius: i64,
    precision: u32,
)
    requires
        old(vertices)@.len() == 0,
        old(indices)@.len() == 0,
        2 <= precision <= MAX_PRECISION,
        0 < radius <= MAX_RADIUS,
        center.bounded(MAX_CENTER as int),
    ensures
        final(vertices)@.len() == sphere_vertex_count(precision as int),
        forall|k: int|
            0 <= k < final(vertices)@.len() ==> final(vertices)@[k] == sphere_vertex(
                center,
                radius,
                precision as int,
                k,
            ),
        vertices_wf(final(vertices)@),
        final(indices)@.len() == 3 * sphere_triangle_count(precision as int),
        forall|t: int|
            0 <= t < sphere_triangle_count(precision as int) ==> triangle_matches(
                final(indices)@,
                precision as int,
                t,
            ),
        indices_valid(final(indices)@, final(vertices)@.len() as int),
{
    gen_vertices(vertices, center, radius, precision);
    gen_indices(indices, precision);
}

/// Tessellation precision of the shared bauble sphere.
pub const BAUBLE_PRECISION: u32 = 8;

/// Radius of the shared bauble sphere: a fifth of a world unit.
pub const BAUBLE_RADIUS: i64 = 200_000;

/// One bauble placement: where the shared sphere goes and which material
/// shades it.
#[derive(Clone, Copy, Debug, PartialEq, Eq, Structural)]
pub struct Bauble {
    pub center: Vec3,
    pub material_id: MaterialId,
}

/// The sixteen bauble positions on and around the tree.
pub open spec fn bauble_centers() -> Seq<Vec3> {
    seq![
        Vec3 { x: 0, y: 4_200_000, z: 0 },
        Vec3 { x: 1_000_000, y: 3_000_000, z: 1_000_000 },
        Vec3 { x: 1_000_000, y: 1_000_000, z: 2_000_000 },
        Vec3 { x: -1_000_000i64, y: 1_000_000, z: 2_000_000 },
        Vec3 { x: 1_000_000, y: 1_000_000, z: -2_000_000i64 },
        Vec3 { x: 2_000_000, y: 1_000_000, z: 0 },
        Vec3 { x: 3_000_000, y: -1_000_000i64, z: 0 },
        Vec3 { x: 0, y: -1_000_000i64, z: 3_000_000 },
        Vec3 { x: -3_000_000i64, y: -1_000_000i64, z: 0 },
        Vec3 { x: 0, y: -1_000_000i64, z: -3_000_000i64 },
        Vec3 { x: 2_000_000, y: -2_000_000i64, z: -3_000_000i64 },
        Vec3 { x: 2_000_000, y: -2_000_000i64, z: 3_000_000 },
        Vec3 { x: 3_000_000, y: -2_000_000i64, z: -2_000_000i64 },
        Vec3 { x: -3_000_000i64, y: -2_000_000i64, z: -2_000_000i64 },
        Vec3 { x: 0, y: -2_000_000i64, z: 4_000_000 },
        Vec3 { x: 4_000_000, y: -2_000_000i64, z: 0 },
    ]
}

/// Which of the five registered materials each bauble wears, as an offset
/// into the registration order: red, blue, yellow, light blue, violet.
pub open spec fn bauble_material_slot(k: int) -> int {
    seq![0int, 2, 3, 1, 4, 0, 1, 2, 0, 1, 1, 4, 4, 0, 0, 2][k]
}

/// The five bauble materials, in registration order: red, blue, yellow,
/// light blue, violet.
pub open spec fn bauble_materials() -> Seq<Material> {
    seq![
        Material {
            ambient: Vec3 { x: 174_500, y: 11_750, z: 11_750 },
            diffuse: Vec3 { x: 614_240, y: 41_360, z: 41_360 },
            specular: Vec3 { x: 727_811, y: 626_959, z: 626_959 },
            shininess: 76_800_000,
        },
        Material {
            ambient: Vec3 { x: 11_750, y: 11_750, z: 174_500 },
            diffuse: Vec3 { x: 41_360, y: 41_360, z: 614_240 },
            specular: Vec3 { x: 626_959, y: 626_959, z: 614_240 },
            shininess: 76_800_000,
        },
        Material {
            ambient: Vec3 { x: 174_500, y: 174_500, z: 11_750 },
            diffuse: Vec3 { x: 614_240, y: 614_240, z: 41_360 },
            specular: Vec3 { x: 727_811, y: 727_811, z: 626_959 },
            shininess: 76_800_000,
        },
        Material {
            ambient: Vec3 { x: 11_750, y: 174_500, z: 174_500 },
            diffuse: Vec3 { x: 41_360, y: 614_240, z: 614_240 },
            specular: Vec3 { x: 626_959, y: 727_811, z: 727_811 },
            shininess: 76_800_000,
        },
        Material {
            ambient: Vec3 { x: 174_500, y: 11_750, z: 174_500 },
            diffuse: Vec3 { x: 614_240, y: 41_360, z: 614_240 },
            specular: Vec3 { x: 727_811, y: 626_959, z: 727_811 },
            shininess: 76_800_000,
        },
    ]
}

/// The baubles: sixteen placements of one shared sphere mesh.
pub struct Baubles {
    pub mesh: Mesh,
    pub baubles: Vec<Bauble>,
}

impl Baubles {
    /// The baubles' invariant: a well-formed mesh whose instance buffer
    /// holds exactly one record per placement.
    pub open spec fn wf(self) -> bool {
        &&& self.mesh.wf()
        &&& self.baubles@.len() == self.mesh.max_instances as int
        &&& self.mesh.instances@.len() == self.baubles@.len()
    }

    /// Everything construction guarantees, with `base` the number of
    /// materials registered before the baubles: the shared unit sphere —
    /// every vertex and every triangle pinned exactly — and the sixteen
    /// placements, each a translation instance wearing its material slot.
    pub open spec fn built(self, base: int) -> bool {
        &&& self.wf()
        &&& self.mesh.vertices@.len() == sphere_vertex_count(BAUBLE_PRECISION as int)
        &&& self.mesh.indices@.len() == 3 * sphere_triangle_count(BAUBLE_PRECISION as int)
        &&& forall|k: int|
            0 <= k < self.mesh.vertices@.len() ==> self.mesh.vertices@[k] == sphere_vertex(
                Vec3 { x: 0, y: 0, z: 0 },
                BAUBLE_RADIUS,
                BAUBLE_PRECISION as int,
                k,
            )
        &&& forall|t: int|
            0 <= t < sphere_triangle_count(BAUBLE_PRECISION as int) ==> triangle_matches(
                self.mesh.indices@,
                BAUBLE_PRECISION as int,
                t,
            )
        &&& self.baubles@.len() == 16
        &&& self.mesh.max_instances == 16
        &&& forall|k: int| 0 <= k < 16 ==> self.baubles@[k].center == bauble_centers()[k]
        &&& forall|k: int|
            0 <= k < 16 ==> self.baubles@[k].material_id as int == base
                + bauble_material_slot(k)
        &&& forall|k: int|
            0 <= k < 16 ==> base <= ((#[trigger] self.baubles@[k]).material_id as int)
                && ((self.baubles@[k].material_id as int) < base + 5)
        &&& self.mesh.instances@.len() == 16
        &&& forall|k: int|
            0 <= k < 16 ==> self.mesh.instances@[k].material_id
                == self.baubles@[k].material_id
        &&& forall|k: int, i: int|
            0 <= k < 16 && 0 <= i < 16 ==> #[trigger] self.mesh.instances@[k].model.e@[i]
                as int == mat4_model_spec(
                bauble_centers()[k].x as int,
                bauble_centers()[k].y as int,
                bauble_centers()[k].z as int,
                0,
                0,
                0,
            )[i]
    }

    /// Builds the baubles: registers the five bauble materials, generates
    /// the shared unit sphere once, and fills the instance buffer with one
    /// translation per placement.
    pub fn new(materials: &mut Materials) -> (b: Baubles)
        requires
            old(materials).materials@.len() + 5 <= MAX_MATERIALS as int,
        ensures
            b.built(old(materials).materials@.len() as int),
            b.wf(),
            final(materials).materials@ =~= old(materials).materials@ + bauble_materials(),
    {
        let red = Material {
            ambient: Vec3::new(174_500, 11_750, 11_750),
            diffuse: Vec3::new(614_240, 41_360, 41_360),
            specular: Vec3::new(727_811, 626_959, 626_959),
            shininess: 76_800_000,
        };
        let red_id = match materials.add(red) {
            Ok(id) => id,
            Err(_) => unreached(),
        };
        let blue = Material {
            ambient: Vec3::new(11_750, 11_750, 174_500),
            diffuse: Vec3::new(41_360, 41_360, 614_240),
            specular: Vec3::new(626_959, 626_959, 614_240),
            shininess: 76_800_000,
        };
        let blue_id = match materials.add(blue) {
            Ok(id) => id,
            Err(_) => unreached(),
        };
        let yellow = Material {
            ambient: Vec3::new(174_500, 174_500, 11_750),
            diffuse: Vec3::new(614_240, 614_240, 41_360),
            specular: Vec3::new(727_811, 727_811, 626_959),
            shininess: 76_800_000,
        };
        let yellow_id = match materials.add(yellow) {
            Ok(id) => id,
            Err(_) => unreached(),
        };
        let light_blue = Material {
            ambient: Vec3::new(11_750, 174_500, 174_500),
            diffuse: Vec3::new(41_360, 614_240, 614_240),
            specular: Vec3::new(626_959, 727_811, 727_811),
            shininess: 76_800_000,
        };
        let light_blue_id = match materials.add(light_blue) {
            Ok(id) => id,
            Err(_) => unreached(),
        };
        let violet = Material {
            ambient: Vec3::new(174_500, 11_750, 174_500),
            diffuse: Vec3::new(614_240, 41_360, 614_240),
            specular: Vec3::new(727_811, 626_959, 727_811),
            shininess: 76_800_000,
        };
        let violet_id = match materials.add(violet) {
            Ok(id) => id,
            Err(_) => unreached(),
        };
        let mut baubles: Vec<Bauble> = Vec::new();
        baubles.push(Bauble { center: Vec3::new(0, 4_200_000, 0), material_id: red_id });
        baubles.push(Bauble { center: Vec3::new(1_000_000, 3_000_000, 1_000_000), material_id: yellow_id });
        baubles.push(Bauble { center: Vec3::new(1_000_000, 1_000_000, 2_000_000), material_id: light_blue_id });
        baubles.push(Bauble { center: Vec3::new(-1_000_000, 1_000_000, 2_000_000), material_id: blue_id });
        baubles.push(Bauble { center: Vec3::new(1_000_000, 1_000_000, -2_000_000), material_id: violet_id });
        baubles.push(Bauble { center: Vec3::new(2_000_000, 1_000_000, 0), material_id: red_id });
        baubles.push(Bauble { center: Vec3::new(3_000_000, -1_000_000, 0), material_id: blue_id });
        baubles.push(Bauble { center: Vec3::new(0, -1_000_000, 3_000_000), material_id: yellow_id });
        baubles.push(Bauble { center: Vec3::new(-3_000_000, -1_000_000, 0), material_id: red_id });
        baubles.push(Bauble { center: Vec3::new(0, -1_000_000, -3_000_000), material_id: blue_id });
        baubles.push(Bauble { center: Vec3::new(2_000_000, -2_000_000, -3_000_000), material_id: blue_id });
        baubles.push(Bauble { center: Vec3::new(2_000_000, -2_000_000, 3_000_000), material_id: violet_id });
        baubles.push(Bauble { center: Vec3::new(3_000_000, -2_000_000, -2_000_000), material_id: violet_id });
        baubles.push(Bauble { center: Vec3::new(-3_000_000, -2_000_000, -2_000_000), material_id: red_id });
        baubles.push(Bauble { center: Vec3::new(0, -2_000_000, 4_000_000), material_id: red_id });
        baubles.push(Bauble { center: Vec3::new(4_000_000, -2_000_000, 0), material_id: yellow_id });
        proof {
            assert(forall|k: int| 0 <= k < 16 ==> baubles@[k].center == bauble_centers()[k]);
        }
        let mut vertices: Vec<Vertex> = Vec::new();
        let mut indices: Vec<u32> = Vec::new();
        gen_sphere(&mut vertices, &mut indices, Vec3::new(0, 0, 0), BAUBLE_RADIUS, BAUBLE_PRECISION);
        let mut mesh = Mesh::new(vertices, indices, 16);
        let mut instances: Vec<Instance> = Vec::new();
        let mut i: usize = 0;
        while i < 16
            invariant
                0 <= i <= 16,
                baubles@.len() == 16,
                forall|k: int| 0 <= k < 16 ==> baubles@[k].center == bauble_centers()[k],
                instances@.len() == i,
                forall|k: int|
                    0 <= k < i ==> instances@[k].material_id == baubles@[k].material_id,
                forall|k: int, j: int|
                    0 <= k < i && 0 <= j < 16 ==> #[trigger] instances@[k].model.e@[j] as int
                        == mat4_model_spec(
                        baubles@[k].center.x as int,
                        baubles@[k].center.y as int,
                        baubles@[k].center.z as int,
                        0,
                        0,
                        0,
                    )[j],
            decreases 16 - i,
        {
            let b = baubles[i];
            proof {
                assert(b.center == bauble_centers()[i as int]);
                assert(b.center.bounded(5_000_000));
            }
            let model = Mat4::from_translation(b.center);
            instances.push(Instance { model, material_id: b.material_id });
            i = i + 1;
        }
        mesh.fill_instances_vbo(&instances);
        Baubles { mesh, baubles }
    }
}

impl Model for Baubles {
    /// Nothing changes between frames.
    fn next_frame(&mut self)
        ensures
            *final(self) == *old(self),
    {
    }

    /// One instanced draw of the shared sphere, one instance per bauble.
    fn draw(&mut self, shader: &Shader) -> (r: Vec<DrawCmd>)
        ensures
            *final(self) == *old(self),
            old(self).wf() ==> {
                &&& r@.len() == 1
                &&& r@[0].shader_id == shader.id
                &&& r@[0].index_count == old(self).mesh.indices@.len()
                &&& r@[0].instanced
                &&& r@[0].instance_count == old(self).baubles@.len()
            },
    {
        let n = self.baubles.len();
        let mut cmds: Vec<DrawCmd> = Vec::new();
        if n <= self.mesh.max_instances {
            let cmd = self.mesh.draw_instances(shader, n);
            cmds.push(cmd);
        }
        cmds
    }
}


} // verus!
