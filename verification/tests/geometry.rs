//! The geometry generators: vertex and triangle budgets, index validity,
//! exact tessellation values and the outward-winding check.

use rusted_tree::linear::Vec3;
use rusted_tree::material::Materials;
use rusted_tree::xmas_tree::baubles::{gen_indices, gen_sphere, gen_vertices};
use rusted_tree::xmas_tree::bombs;
use rusted_tree::xmas_tree::ground::Ground;
use rusted_tree::xmas_tree::mesh::{Mesh, Vertex};
use rusted_tree::xmas_tree::tree::Tree;

const FX: i64 = 1_000_000;

#[test]
fn sphere_vertex_count_matches_formula() {
    for p in [2u32, 3, 4, 8, 16] {
        let mut vertices: Vec<Vertex> = Vec::new();
        gen_vertices(&mut vertices, Vec3::new(0, 0, 0), 200_000, p);
        let expected = 2 + (p as usize - 1) * 2 * p as usize;
        assert_eq!(vertices.len(), expected);
    }
}

#[test]
fn sphere_triangle_count_matches_formula() {
    for p in [2u32, 3, 4, 8, 16] {
        let mut indices: Vec<u32> = Vec::new();
        gen_indices(&mut indices, p);
        // two polar fans of 2p triangles plus (p - 2) bands of 2 * 2p
        let fans = 2 * (2 * p as usize);
        let bands = (p as usize - 2) * 2 * (2 * p as usize);
        assert_eq!(indices.len(), 3 * (fans + bands));
        assert_eq!(indices.len(), 3 * 4 * p as usize * (p as usize - 1));
    }
}

#[test]
fn sphere_indices_stay_within_vertex_count() {
    for p in [2u32, 3, 8, 32] {
        let mut vertices: Vec<Vertex> = Vec::new();
        let mut indices: Vec<u32> = Vec::new();
        gen_sphere(&mut vertices, &mut indices, Vec3::new(0, 0, 0), 500_000, p);
        for &i in &indices {
            assert!((i as usize) < vertices.len());
        }
    }
}

#[test]
fn sphere_poles_and_first_ring_are_exact() {
    // precision 2: the vertical angle of the single ring is a quarter
    // turn, where the sine approximation is exact.
    let mut vertices: Vec<Vertex> = Vec::new();
    gen_vertices(&mut vertices, Vec3::new(0, 0, 0), FX, 2);
    assert_eq!(vertices.len(), 6);
    assert_eq!((vertices[0].position.x, vertices[0].position.y, vertices[0].position.z), (0, FX, 0));
    assert_eq!((vertices[0].normal.x, vertices[0].normal.y, vertices[0].normal.z), (0, FX, 0));
    // ring at the equator: slices at 0, quarter, half, three-quarter turns
    assert_eq!((vertices[1].position.x, vertices[1].position.y, vertices[1].position.z), (0, 0, FX));
    assert_eq!((vertices[2].position.x, vertices[2].position.y, vertices[2].position.z), (FX, 0, 0));
    assert_eq!((vertices[3].position.x, vertices[3].position.y, vertices[3].position.z), (0, 0, -FX));
    assert_eq!((vertices[4].position.x, vertices[4].position.y, vertices[4].position.z), (-FX, 0, 0));
    assert_eq!((vertices[5].position.x, vertices[5].position.y, vertices[5].position.z), (0, -FX, 0));
    assert_eq!((vertices[5].normal.x, vertices[5].normal.y, vertices[5].normal.z), (0, -FX, 0));
}

#[test]
fn sphere_off_center_translates_every_vertex() {
    let mut centered: Vec<Vertex> = Vec::new();
    gen_vertices(&mut centered, Vec3::new(0, 0, 0), 200_000, 8);
    let mut moved: Vec<Vertex> = Vec::new();
    gen_vertices(&mut moved, Vec3::new(1_000_000, 4_200_000, -2_000_000), 200_000, 8);
    assert_eq!(centered.len(), moved.len());
    for k in 0..centered.len() {
        assert_eq!(moved[k].position.x, centered[k].position.x + 1_000_000);
        assert_eq!(moved[k].position.y, centered[k].position.y + 4_200_000);
        assert_eq!(moved[k].position.z, centered[k].position.z - 2_000_000);
        assert_eq!(moved[k].normal, centered[k].normal);
    }
}

#[test]
fn sphere_triangles_point_outward() {
    let mut vertices: Vec<Vertex> = Vec::new();
    let mut indices: Vec<u32> = Vec::new();
    gen_sphere(&mut vertices, &mut indices, Vec3::new(0, 0, 0), 200_000, 8);
    let mesh = Mesh::new(vertices, indices, 1);
    assert!(mesh.triangles_point_outward(Vec3::new(0, 0, 0)));
}

#[test]
fn tree_triangles_point_outward() {
    let mut materials = Materials::setup();
    let tree = Tree::new(&mut materials);
    assert!(tree.meshes[0].triangles_point_outward(Vec3::new(0, 0, 0)));
}

#[test]
fn tree_mesh_shape() {
    let mut materials = Materials::setup();
    let tree = Tree::new(&mut materials);
    assert_eq!(tree.meshes.len(), 1);
    // three segments of forty slices: two vertices and one triangle each
    assert_eq!(tree.meshes[0].vertices.len(), 240);
    assert_eq!(tree.meshes[0].indices.len(), 360);
    for &i in &tree.meshes[0].indices {
        assert!((i as usize) < 240);
    }
    assert_eq!(materials.count(), 1);
    // the green needle material was registered
    assert_eq!(&materials.packed()[0..3], &[20_000, 350_000, 10_000]);
}

#[test]
fn tree_segments_stack_with_the_given_extents() {
    let mut materials = Materials::setup();
    let tree = Tree::new(&mut materials);
    let mesh = &tree.meshes[0];
    // segment 0 (radius 4, bottom -3, height 5): slice 0 sits on +Z,
    // its apex copy right above the axis
    let v0 = &mesh.vertices[0];
    assert_eq!((v0.position.x, v0.position.y, v0.position.z), (0, -3 * FX, 4 * FX));
    let v1 = &mesh.vertices[1];
    assert_eq!((v1.position.x, v1.position.y, v1.position.z), (0, 2 * FX, 0));
    // segment 1 (radius 3, bottom 0, height 3) starts at vertex 80
    let v80 = &mesh.vertices[80];
    assert_eq!((v80.position.x, v80.position.y, v80.position.z), (0, 0, 3 * FX));
    assert_eq!(mesh.vertices[81].position.y, 3 * FX);
    // segment 2 (radius 2, bottom 2, height 2) starts at vertex 160
    let v160 = &mesh.vertices[160];
    assert_eq!((v160.position.x, v160.position.y, v160.position.z), (0, 2 * FX, 2 * FX));
    assert_eq!(mesh.vertices[161].position.y, 4 * FX);
    // first triangle of each segment, and segment 0's closing triangle
    assert_eq!(&mesh.indices[0..3], &[0, 1, 2]);
    assert_eq!(&mesh.indices[117..120], &[78, 79, 0]);
    assert_eq!(&mesh.indices[120..123], &[80, 81, 82]);
    // the one instance is the identity transform
    assert_eq!(mesh.instances.len(), 1);
    assert_eq!(mesh.instances[0].model.e[0], FX);
    assert_eq!(&mesh.instances[0].model.e[12..15], &[0, 0, 0]);
}

#[test]
fn ground_quad_faces_up() {
    let mut materials = Materials::setup();
    let ground = Ground::new(&mut materials);
    assert_eq!(ground.mesh.vertices.len(), 4);
    assert_eq!(ground.mesh.indices, vec![0, 1, 2, 1, 3, 2]);
    for v in &ground.mesh.vertices {
        assert_eq!((v.normal.x, v.normal.y, v.normal.z), (0, FX, 0));
        assert_eq!(v.position.y, -5_000_000);
    }
    // both triangles face away from a point below the plane
    assert!(ground.mesh.triangles_point_outward(Vec3::new(0, -6_000_000, 0)));
}

#[test]
fn tree_from_model_data_round_trips() {
    let mut materials = Materials::setup();
    // one triangle: three vertices of three coordinates each
    let positions: Vec<i64> = vec![0, 0, 0, FX, 0, 0, 0, FX, 0];
    let normals: Vec<i64> = vec![0, 0, FX, 0, 0, FX, 0, 0, FX];
    let indices: Vec<u32> = vec![0, 1, 2];
    let tree = Tree::from_parts(
        &mut materials,
        positions.clone(),
        normals.clone(),
        indices.clone(),
        grey(),
    )
    .unwrap();
    assert_eq!(tree.meshes.len(), 1);
    assert_eq!(tree.meshes[0].vertices.len(), 3);
    assert_eq!(tree.meshes[0].indices, indices);
    assert_eq!(tree.meshes[0].vertices[1].position, Vec3::new(FX, 0, 0));
    assert_eq!(tree.meshes[0].vertices[2].normal, Vec3::new(0, 0, FX));
    assert_eq!(materials.count(), 1);
}

#[test]
fn tree_from_model_data_rejects_bad_input() {
    let mut materials = Materials::setup();
    // an index past the last vertex
    let bad_index = Tree::from_parts(
        &mut materials,
        vec![0, 0, 0, FX, 0, 0, 0, FX, 0],
        vec![0; 9],
        vec![0, 1, 3],
        grey(),
    );
    assert!(bad_index.is_none());
    // a truncated position stream
    let bad_len = Tree::from_parts(&mut materials, vec![0, 0], vec![0, 0], vec![], grey());
    assert!(bad_len.is_none());
    // mismatched normals
    let bad_normals =
        Tree::from_parts(&mut materials, vec![0, 0, 0], vec![0], vec![], grey());
    assert!(bad_normals.is_none());
    // nothing was registered along the way
    assert_eq!(materials.count(), 0);
}

fn grey() -> rusted_tree::material::Material {
    rusted_tree::material::Material {
        ambient: Vec3::new(FX, FX, FX),
        diffuse: Vec3::new(FX / 2, FX / 2, FX / 2),
        specular: Vec3::new(FX / 4, FX / 4, FX / 4),
        shininess: 10 * FX,
    }
}

#[test]
fn bombs_stream_shape_and_poles() {
    let (vertices, indices) = bombs::gen_vertices();
    // twelve vertices of nine slots, eight triangles
    assert_eq!(vertices.len(), 108);
    assert_eq!(indices.len(), 24);
    for &i in &indices {
        assert!((i as usize) < 12);
    }
    // the first top-pole copy: position, red colour, upward normal
    assert_eq!(&vertices[0..9], &[0, 4_400_000, 0, FX, 0, 0, 0, FX, 0]);
    // the last bottom-pole copy
    assert_eq!(&vertices[99..108], &[0, 4_000_000, 0, FX, 0, 0, 0, -FX, 0]);
    // the ring rows stitch to the next row, closing the seam
    assert_eq!(&indices[0..6], &[0, 4, 5, 1, 5, 6]);
    assert_eq!(&indices[9..12], &[3, 7, 4]);
}
