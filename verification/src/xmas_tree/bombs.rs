//! An earlier sphere tessellation, kept for the raw interleaved stream it
//! produces: nine 32-bit slots per vertex (position, colour, normal), with
//! both poles duplicated once per slice instead of shared.

use crate::fixed::{fx_mul, fx_mul_spec, fxcos, fxcos_spec, fxsin, fxsin_spec, FX_ONE};
use crate::linear::Vec3;
use vstd::arithmetic::div_mod::lemma_fundamental_div_mod_converse;
use vstd::prelude::*;

verus! {

/// Vertices of the duplicated-pole tessellation: `p + 1` rows of `2p`.
pub open spec fn bomb_vertex_count(p: int) -> int {
    (p + 1) * (2 * p)
}

/// The nine slots of vertex `k`: its position, the shared colour, and the
/// unnormalized normal.  Row `0` repeats the top pole, row `p` the bottom
/// pole, and the rows between are latitude rings as in the shared-pole
/// sphere.
pub open spec fn bomb_vertex(c: Vec3, radius: i64, p: int, colour: Vec3, k: int) -> Seq<i64> {
    let layer = k / (2 * p);
    let slice = k % (2 * p);
    if layer == 0 {
        seq![
            c.x,
            (c.y + radius) as i64,
            c.z,
            colour.x,
            colour.y,
            colour.z,
            0,
            FX_ONE,
            0,
        ]
    } else if layer < p {
        let v_angle = (layer * (FX_ONE as int)) / p;
        let h_angle = (slice * (FX_ONE as int)) / p;
        let sin_v = fxsin_spec(v_angle);
        let cos_v = fxcos_spec(v_angle);
        let sin_h = fxsin_spec(h_angle);
        let cos_h = fxcos_spec(h_angle);
        let layer_radius = fx_mul_spec(radius as int, sin_v);
        seq![
            (c.x + fx_mul_spec(layer_radius, sin_h)) as i64,
            (c.y + fx_mul_spec(radius as int, cos_v)) as i64,
            (c.z + fx_mul_spec(layer_radius, cos_h)) as i64,
            colour.x,
            colour.y,
            colour.z,
            sin_h as i64,
            cos_v as i64,
            cos_h as i64,
        ]
    } else {
        seq![
            c.x,
            (c.y - radius) as i64,
            c.z,
            colour.x,
            colour.y,
            colour.z,
            0,
            (-(FX_ONE as int)) as i64,
            0,
        ]
    }
}

/// Triangles of the duplicated-pole tessellation: `2p` between each of
/// the `p` adjacent row pairs.
pub open spec fn bomb_triangle_count(p: int) -> int {
    p * (2 * p)
}

/// The three vertex indices of triangle `t`.  Rows are stitched top to
/// bottom, `2p` triangles per pair of rows, the last triangle of each row
/// closing the seam; the bottom row pair is stitched with the corner
/// order swapped.
pub open spec fn bomb_triangle(p: int, t: int) -> Seq<int> {
    let layer = 1 + t / (2 * p);
    let s = t % (2 * p);
    if layer < p {
        if s < 2 * p - 1 {
            seq![(layer - 1) * (2 * p) + s, layer * (2 * p) + s, layer * (2 * p) + s + 1]
        } else {
            seq![(layer - 1) * (2 * p) + s, layer * (2 * p) + s, layer * (2 * p)]
        }
    } else {
        if s < 2 * p - 1 {
            seq![(p - 1) * (2 * p) + s, (p - 1) * (2 * p) + s + 1, p * (2 * p) + s]
        } else {
            seq![(p - 1) * (2 * p) + s, (p - 1) * (2 * p), p * (2 * p) + s]
        }
    }
}

/// Triangle `t` of the emitted index array reads exactly as
/// `bomb_triangle` states it.
pub open spec fn bomb_triangle_matches(indices: Seq<u32>, p: int, t: int) -> bool {
    &&& indices[3 * t] as int == bomb_triangle(p, t)[0]
    &&& indices[3 * t + 1] as int == bomb_triangle(p, t)[1]
    &&& indices[3 * t + 2] as int == bomb_triangle(p, t)[2]
}

/// The demo bomb: one red sphere of the duplicated-pole tessellation,
/// centered above the tree.
pub fn gen_vertices() -> (r: (Vec<i64>, Vec<u32>))
    ensures
        r.0@.len() == 9 * bomb_vertex_count(2),
        forall|k: int|
            0 <= k < bomb_vertex_count(2) ==> r.0@.subrange(9 * k, 9 * k + 9) =~= bomb_vertex(
                Vec3 { x: 0, y: 4_200_000, z: 0 },
                200_000,
                2,
                Vec3 { x: 1_000_000, y: 0, z: 0 },
                k,
            ),
        r.1@.len() == 3 * bomb_triangle_count(2),
        forall|t: int|
            0 <= t < bomb_triangle_count(2) ==> bomb_triangle_matches(r.1@, 2, t),
        crate::xmas_tree::mesh::indices_valid(r.1@, bomb_vertex_count(2)),
{
    let mut vertices: Vec<i64> = Vec::new();
    let mut indices: Vec<u32> = Vec::new();
    gen_sphere(
        Vec3::new(0, 4_200_000, 0),
        200_000,
        2,
        Vec3::new(1_000_000, 0, 0),
        &mut vertices,
        &mut indices,
    );
    (vertices, indices)
}

/// Generates the duplicated-pole sphere into empty vectors: a row of
/// top-pole copies, the latitude rings, a row of bottom-pole copies, and
/// the row-stitching triangles, each exactly as the spec functions above
/// state them.
#[verifier::rlimit(60)]
#[verifier::spinoff_prover]
pub fn gen_sphere(
    center: Vec3,
    radius: i64,
    precision: u32,
    colour: Vec3,
    vertices: &mut Vec<i64>,
    indices: &mut Vec<u32>,
)
    requires
        old(vertices)@.len() == 0,
        old(indices)@.len() == 0,
        2 <= precision <= crate::xmas_tree::baubles::MAX_PRECISION,
        0 < radius <= crate::xmas_tree::baubles::MAX_RADIUS,
        center.bounded(crate::xmas_tree::baubles::MAX_CENTER as int),
    ensures
        final(vertices)@.len() == 9 * bomb_vertex_count(precision as int),
        forall|k: int|
            0 <= k < bomb_vertex_count(precision as int) ==> final(vertices)@.subrange(
                9 * k,
                9 * k + 9,
            ) =~= bomb_vertex(center, radius, precision as int, colour, k),
        final(indices)@.len() == 3 * bomb_triangle_count(precision as int),
        forall|t: int|
            0 <= t < bomb_triangle_count(precision as int) ==> bomb_triangle_matches(
                final(indices)@,
                precision as int,
                t,
            ),
        crate::xmas_tree::mesh::indices_valid(
            final(indices)@,
            bomb_vertex_count(precision as int),
        ),
{
    let ring: u32 = 2 * precision;
    let p64: u64 = precision as u64;
    let mut slice: u32 = 0;
    while slice < ring
        invariant
            2 <= precision <= 16_384,
            ring == 2 * precision,
            0 <= slice <= ring,
            0 < radius <= crate::xmas_tree::baubles::MAX_RADIUS,
            center.bounded(crate::xmas_tree::baubles::MAX_CENTER as int),
            vertices@.len() == 9 * slice,
            forall|k: int|
                0 <= k < slice ==> vertices@.subrange(9 * k, 9 * k + 9) =~= bomb_vertex(
                    center,
                    radius,
                    precision as int,
                    colour,
                    k,
                ),
        decreases ring - slice,
    {
        let ghost prev = vertices@;
        vertices.push(center.x);
        vertices.push(center.y + radius);
        vertices.push(center.z);
        vertices.push(colour.x);
        vertices.push(colour.y);
        vertices.push(colour.z);
        vertices.push(0);
        vertices.push(FX_ONE);
        vertices.push(0);
        proof {
            lemma_fundamental_div_mod_converse(slice as int, 2 * precision as int, 0, slice
                as int);
            assert(vertices@.subrange(9 * (slice as int), 9 * (slice as int) + 9) =~= bomb_vertex(
                center,
                radius,
                precision as int,
                colour,
                slice as int,
            ));
            assert forall|k: int| 0 <= k < slice implies vertices@.subrange(9 * k, 9 * k + 9)
                =~= bomb_vertex(center, radius, precision as int, colour, k) by {
                assert(prev.subrange(9 * k, 9 * k + 9) =~= bomb_vertex(
                    center,
                    radius,
                    precision as int,
                    colour,
                    k,
                ));
                assert(vertices@.subrange(9 * k, 9 * k + 9) =~= prev.subrange(9 * k, 9 * k + 9));
            }
        }
        slice = slice + 1;
    }
    let mut layer: u32 = 1;
    while layer < precision
        invariant
            2 <= precision <= 16_384,
            ring == 2 * precision,
            p64 == precision,
            1 <= layer <= precision,
            0 < radius <= crate::xmas_tree::baubles::MAX_RADIUS,
            center.bounded(crate::xmas_tree::baubles::MAX_CENTER as int),
            vertices@.len() == 9 * (layer * (2 * precision as int)),
            forall|k: int|
                0 <= k < layer * (2 * precision as int) ==> vertices@.subrange(9 * k, 9 * k + 9)
                    =~= bomb_vertex(center, radius, precision as int, colour, k),
            indices@.len() == 3 * ((layer - 1) * (2 * precision as int)),
            forall|t: int|
                0 <= t < (layer - 1) * (2 * precision as int) ==> bomb_triangle_matches(
                    indices@,
                    precision as int,
                    t,
                ),
            crate::xmas_tree::mesh::indices_valid(
                indices@,
                bomb_vertex_count(precision as int),
            ),
        decreases precision - layer,
    {
        let v_angle: i64 = (((layer as u64) * 1_000_000) / p64) as i64;
        proof {
            assert((layer as u64) * 1_000_000 <= 16_384 * 1_000_000) by (nonlinear_arith)
                requires
                    layer <= 16_384,
            ;
            assert(v_angle == ((layer as int) * (FX_ONE as int)) / (precision as int));
            assert((layer as int) * (FX_ONE as int) < (precision as int) * (FX_ONE as int))
                by (nonlinear_arith)
                requires
                    layer < precision,
            ;
            assert(((layer as int) * (FX_ONE as int)) / (precision as int) < FX_ONE as int) by {
                vstd::arithmetic::div_mod::lemma_multiply_divide_lt(
                    (layer as int) * (FX_ONE as int),
                    precision as int,
                    FX_ONE as int,
                );
            }
        }
        let sin_v = fxsin(v_angle);
        let cos_v = fxcos(v_angle);
        let layer_radius = fx_mul(radius, sin_v);
        let mut slice: u32 = 0;
        while slice < ring
            invariant
                2 <= precision <= 16_384,
                ring == 2 * precision,
                p64 == precision,
                1 <= layer < precision,
                0 <= slice <= ring,
                0 < radius <= crate::xmas_tree::baubles::MAX_RADIUS,
                center.bounded(crate::xmas_tree::baubles::MAX_CENTER as int),
                v_angle == ((layer as int) * (FX_ONE as int)) / (precision as int),
                0 <= v_angle < FX_ONE,
                sin_v == fxsin_spec(v_angle as int),
                cos_v == fxcos_spec(v_angle as int),
                -FX_ONE <= sin_v <= FX_ONE,
                -FX_ONE <= cos_v <= FX_ONE,
                layer_radius == fx_mul_spec(radius as int, sin_v as int),
                -crate::xmas_tree::baubles::MAX_RADIUS <= layer_radius
                    <= crate::xmas_tree::baubles::MAX_RADIUS,
                vertices@.len() == 9 * (layer * (2 * precision as int) + slice),
                forall|k: int|
                    0 <= k < layer * (2 * precision as int) + slice ==> vertices@.subrange(
                        9 * k,
                        9 * k + 9,
                    ) =~= bomb_vertex(center, radius, precision as int, colour, k),
            decreases ring - slice,
        {
            let h_angle: i64 = (((slice as u64) * 1_000_000) / p64) as i64;
            proof {
                assert((slice as u64) * 1_000_000 <= 32_768 * 1_000_000) by (nonlinear_arith)
                    requires
                        slice <= 32_768,
                ;
                assert(h_angle == ((slice as int) * (FX_ONE as int)) / (precision as int));
                assert((slice as int) * (FX_ONE as int) < (precision as int) * (2 * FX_ONE
                    as int)) by (nonlinear_arith)
                    requires
                        slice < 2 * precision,
                ;
                assert(((slice as int) * (FX_ONE as int)) / (precision as int) < 2 * FX_ONE
                    as int) by {
                    vstd::arithmetic::div_mod::lemma_multiply_divide_lt(
                        (slice as int) * (FX_ONE as int),
                        precision as int,
                        2 * FX_ONE as int,
                    );
                }
            }
            let sin_h = fxsin(h_angle);
            let cos_h = fxcos(h_angle);
            let vx = center.x + fx_mul(layer_radius, sin_h);
            let vy = center.y + fx_mul(radius, cos_v);
            let vz = center.z + fx_mul(layer_radius, cos_h);
            let ghost prev = vertices@;
            let ghost k = layer * (2 * precision as int) + slice;
            vertices.push(vx);
            vertices.push(vy);
            vertices.push(vz);
            vertices.push(colour.x);
            vertices.push(colour.y);
            vertices.push(colour.z);
            vertices.push(sin_h);
            vertices.push(cos_v);
            vertices.push(cos_h);
            proof {
                lemma_fundamental_div_mod_converse(
                    k,
                    2 * precision as int,
                    layer as int,
                    slice as int,
                );
                assert(vertices@.subrange(9 * k, 9 * k + 9) =~= bomb_vertex(
                    center,
                    radius,
                    precision as int,
                    colour,
                    k,
                ));
                assert forall|q: int| 0 <= q < k implies vertices@.subrange(9 * q, 9 * q + 9)
                    =~= bomb_vertex(center, radius, precision as int, colour, q) by {
                    assert(prev.subrange(9 * q, 9 * q + 9) =~= bomb_vertex(
                        center,
                        radius,
                        precision as int,
                        colour,
                        q,
                    ));
                    assert(vertices@.subrange(9 * q, 9 * q + 9) =~= prev.subrange(
                        9 * q,
                        9 * q + 9,
                    ));
                }
            }
            slice = slice + 1;
        }
        let ghost tbase: int = (layer - 1) * (2 * precision as int);
        proof {
            assert(0 <= tbase <= 16_383 * 32_768) by (nonlinear_arith)
                requires
                    tbase == (layer as int - 1) * (2 * precision as int),
                    1 <= layer < precision <= 16_384,
            ;
        }
        let mut slice2: u32 = 0;
        while slice2 < ring
            invariant
                2 <= precision <= 16_384,
                ring == 2 * precision,
                1 <= layer < precision,
                0 <= slice2 <= ring,
                tbase == (layer - 1) * (2 * precision as int),
                0 <= tbase <= 16_383 * 32_768,
                indices@.len() == 3 * (tbase + slice2),
                forall|t: int|
                    0 <= t < tbase + slice2 ==> bomb_triangle_matches(
                        indices@,
                        precision as int,
                        t,
                    ),
                crate::xmas_tree::mesh::indices_valid(
                    indices@,
                    bomb_vertex_count(precision as int),
                ),
            decreases ring - slice2,
        {
            let ghost iprev = indices@;
            let ghost t = tbase + slice2;
            proof {
                assert((layer as int) * (2 * precision as int) + 2 * precision as int <= 16_384
                    * 32_768 + 32_768) by (nonlinear_arith)
                    requires
                        layer < precision <= 16_384,
                ;
                assert((layer as int - 1) * (2 * precision as int) <= (layer as int) * (2
                    * precision as int)) by (nonlinear_arith)
                    requires
                        layer >= 1,
                        precision >= 2,
                ;
            }
            let a: u32 = (layer - 1) * ring + slice2;
            let b: u32 = layer * ring + slice2;
            let c: u32 = if slice2 < ring - 1 {
                layer * ring + slice2 + 1
            } else {
                layer * ring
            };
            indices.push(a);
            indices.push(b);
            indices.push(c);
            proof {
                assert(indices@ =~= iprev + seq![a, b, c]);
                lemma_fundamental_div_mod_converse(
                    t,
                    2 * precision as int,
                    layer as int - 1,
                    slice2 as int,
                );
                assert((layer as int) * (2 * precision as int) + 2 * precision as int <= (
                precision as int + 1) * (2 * precision as int)) by (nonlinear_arith)
                    requires
                        layer < precision,
                ;
                assert(bomb_triangle_matches(indices@, precision as int, t));
                assert forall|q: int| 0 <= q < t implies bomb_triangle_matches(
                    indices@,
                    precision as int,
                    q,
                ) by {
                    assert(bomb_triangle_matches(iprev, precision as int, q));
                    assert(iprev.len() == 3 * t);
                    assert(indices@[3 * q] == iprev[3 * q]);
                    assert(indices@[3 * q + 1] == iprev[3 * q + 1]);
                    assert(indices@[3 * q + 2] == iprev[3 * q + 2]);
                }
            }
            slice2 = slice2 + 1;
        }
        layer = layer + 1;
        proof {
            assert((layer as int) * (2 * precision as int) == (layer as int - 1) * (2 * precision
                as int) + 2 * precision as int) by (nonlinear_arith);
            assert((layer as int - 1) * (2 * precision as int) == (layer as int - 2) * (2
                * precision as int) + 2 * precision as int) by (nonlinear_arith);
        }
    }
    let mut slice: u32 = 0;
    while slice < ring
        invariant
            2 <= precision <= 16_384,
            ring == 2 * precision,
            0 <= slice <= ring,
            0 < radius <= crate::xmas_tree::baubles::MAX_RADIUS,
            center.bounded(crate::xmas_tree::baubles::MAX_CENTER as int),
            vertices@.len() == 9 * ((precision as int) * (2 * precision as int) + slice),
            forall|k: int|
                0 <= k < (precision as int) * (2 * precision as int) + slice
                    ==> vertices@.subrange(9 * k, 9 * k + 9) =~= bomb_vertex(
                    center,
                    radius,
                    precision as int,
                    colour,
                    k,
                ),
            indices@.len() == 3 * ((precision as int - 1) * (2 * precision as int)),
            forall|t: int|
                0 <= t < (precision as int - 1) * (2 * precision as int)
                    ==> bomb_triangle_matches(indices@, precision as int, t),
            crate::xmas_tree::mesh::indices_valid(
                indices@,
                bomb_vertex_count(precision as int),
            ),
        decreases ring - slice,
    {
        let ghost prev = vertices@;
        let ghost k = (precision as int) * (2 * precision as int) + slice;
        vertices.push(center.x);
        vertices.push(center.y - radius);
        vertices.push(center.z);
        vertices.push(colour.x);
        vertices.push(colour.y);
        vertices.push(colour.z);
        vertices.push(0);
        vertices.push(-FX_ONE);
        vertices.push(0);
        proof {
            lemma_fundamental_div_mod_converse(
                k,
                2 * precision as int,
                precision as int,
                slice as int,
            );
            assert(vertices@.subrange(9 * k, 9 * k + 9) =~= bomb_vertex(
                center,
                radius,
                precision as int,
                colour,
                k,
            ));
            assert forall|q: int| 0 <= q < k implies vertices@.subrange(9 * q, 9 * q + 9)
                =~= bomb_vertex(center, radius, precision as int, colour, q) by {
                assert(prev.subrange(9 * q, 9 * q + 9) =~= bomb_vertex(
                    center,
                    radius,
                    precision as int,
                    colour,
                    q,
                ));
                assert(vertices@.subrange(9 * q, 9 * q + 9) =~= prev.subrange(9 * q, 9 * q + 9));
            }
        }
        slice = slice + 1;
    }
    let ghost tbase: int = (precision as int - 1) * (2 * precision as int);
    proof {
        assert(0 <= tbase <= 16_383 * 32_768) by (nonlinear_arith)
            requires
                tbase == (precision as int - 1) * (2 * precision as int),
                2 <= precision <= 16_384,
        ;
    }
    let mut slice2: u32 = 0;
    while slice2 < ring
        invariant
            2 <= precision <= 16_384,
            ring == 2 * precision,
            0 <= slice2 <= ring,
            tbase == (precision as int - 1) * (2 * precision as int),
            0 <= tbase <= 16_383 * 32_768,
            indices@.len() == 3 * (tbase + slice2),
            forall|t: int|
                0 <= t < tbase + slice2 ==> bomb_triangle_matches(
                    indices@,
                    precision as int,
                    t,
                ),
            crate::xmas_tree::mesh::indices_valid(
                indices@,
                bomb_vertex_count(precision as int),
            ),
        decreases ring - slice2,
    {
        let ghost iprev = indices@;
        let ghost t = tbase + slice2;
        proof {
            assert((precision as int) * (2 * precision as int) + 2 * precision as int <= 16_384
                * 32_768 + 32_768) by (nonlinear_arith)
                requires
                    precision <= 16_384,
            ;
            assert((precision as int - 1) * (2 * precision as int) <= (precision as int) * (2
                * precision as int)) by (nonlinear_arith)
                requires
                    precision >= 1,
            ;
        }
        let a: u32 = (precision - 1) * ring + slice2;
        let b: u32 = if slice2 < ring - 1 {
            (precision - 1) * ring + slice2 + 1
        } else {
            (precision - 1) * ring
        };
        let c: u32 = precision * ring + slice2;
        indices.push(a);
        indices.push(b);
        indices.push(c);
        proof {
            assert(indices@ =~= iprev + seq![a, b, c]);
            lemma_fundamental_div_mod_converse(
                t,
                2 * precision as int,
                precision as int - 1,
                slice2 as int,
            );
            assert((precision as int) * (2 * precision as int) + 2 * precision as int == (
            precision as int + 1) * (2 * precision as int)) by (nonlinear_arith);
            assert(bomb_triangle_matches(indices@, precision as int, t));
            assert forall|q: int| 0 <= q < t implies bomb_triangle_matches(
                indices@,
                precision as int,
                q,
            ) by {
                assert(bomb_triangle_matches(iprev, precision as int, q));
                assert(iprev.len() == 3 * t);
                assert(indices@[3 * q] == iprev[3 * q]);
                assert(indices@[3 * q + 1] == iprev[3 * q + 1]);
                assert(indices@[3 * q + 2] == iprev[3 * q + 2]);
            }
        }
        slice2 = slice2 + 1;
    }
    proof {
        assert(bomb_triangle_count(precision as int) == (precision as int - 1) * (2 * precision
            as int) + 2 * precision as int) by (nonlinear_arith);
        assert(bomb_vertex_count(precision as int) == (precision as int) * (2 * precision
            as int) + 2 * precision as int) by (nonlinear_arith);
    }
}

} // verus!
