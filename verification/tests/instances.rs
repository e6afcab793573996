//! The instance buffer: round-tripping records and the packed layouts.

use rusted_tree::linear::{Mat4, Vec3};
use rusted_tree::material::{Material, Materials};
use rusted_tree::model::Instance;
use rusted_tree::xmas_tree::mesh::{Mesh, Vertex};

const FX: i64 = 1_000_000;

fn quad_mesh(max_instances: usize) -> Mesh {
    let up = Vec3::new(0, FX, 0);
    let vertices = vec![
        Vertex { position: Vec3::new(0, 0, 0), normal: up },
        Vertex { position: Vec3::new(FX, 0, 0), normal: up },
        Vertex { position: Vec3::new(0, 0, FX), normal: up },
    ];
    let indices = vec![0u32, 1, 2];
    Mesh::new(vertices, indices, max_instances)
}

#[test]
fn instance_buffer_round_trips() {
    let mut mesh = quad_mesh(3);
    let instances = vec![
        Instance { model: Mat4::from_translation(Vec3::new(FX, 2 * FX, -FX)), material_id: 0 },
        Instance { model: Mat4::model(Vec3::new(0, 0, 0), 500_000, 0, 1_500_000), material_id: 5 },
        Instance { model: Mat4::identity(), material_id: 2 },
    ];
    mesh.fill_instances_vbo(&instances);
    assert_eq!(mesh.instances.len(), 3);
    for k in 0..3 {
        assert_eq!(mesh.instances[k], instances[k]);
        assert_eq!(mesh.instances[k].model.e, instances[k].model.e);
    }
}

#[test]
fn packed_instances_read_back_byte_identically() {
    let mut mesh = quad_mesh(2);
    let instances = vec![
        Instance { model: Mat4::from_translation(Vec3::new(7, 8, 9)), material_id: 3 },
        Instance { model: Mat4::identity(), material_id: 4 },
    ];
    mesh.fill_instances_vbo(&instances);
    let words = mesh.packed_instances();
    assert_eq!(words.len(), 2 * 17);
    for k in 0..2 {
        for j in 0..16 {
            assert_eq!(words[17 * k + j], instances[k].model.e[j]);
        }
        assert_eq!(words[17 * k + 16], instances[k].material_id as i64);
    }
}

#[test]
fn refilling_replaces_the_occupied_region() {
    let mut mesh = quad_mesh(2);
    let first = vec![Instance { model: Mat4::identity(), material_id: 1 }];
    mesh.fill_instances_vbo(&first);
    assert_eq!(mesh.instances.len(), 1);
    let second = vec![
        Instance { model: Mat4::from_translation(Vec3::new(FX, 0, 0)), material_id: 7 },
        Instance { model: Mat4::from_translation(Vec3::new(0, FX, 0)), material_id: 8 },
    ];
    mesh.fill_instances_vbo(&second);
    assert_eq!(mesh.instances.len(), 2);
    assert_eq!(mesh.instances[0], second[0]);
    assert_eq!(mesh.instances[1], second[1]);
}

#[test]
fn translation_matrix_layout() {
    let m = Mat4::from_translation(Vec3::new(10, 20, 30));
    // column-major: identity diagonal, translation in the last column
    assert_eq!(m.e[0], FX);
    assert_eq!(m.e[5], FX);
    assert_eq!(m.e[10], FX);
    assert_eq!(m.e[15], FX);
    assert_eq!((m.e[12], m.e[13], m.e[14]), (10, 20, 30));
    assert_eq!(m.e[1], 0);
    assert_eq!(m.e[4], 0);
}

#[test]
fn quarter_turn_rotation_matrix() {
    // a quarter turn around Y: sin = 1, cos = 0 exactly
    let m = Mat4::model(Vec3::new(0, 0, 0), 0, 500_000, 0);
    assert_eq!(m.e[0], 0); // cy * cz
    assert_eq!(m.e[8], FX); // sy
    assert_eq!(m.e[10], 0); // cx * cy
    assert_eq!(m.e[2], -FX); // sx sz - cx sy cz = -sy with zero x/z angles
    assert_eq!(m.e[15], FX);
}

#[test]
fn packed_vertex_stream_is_six_slots_per_vertex() {
    let mesh = quad_mesh(1);
    let words = mesh.packed_vertices();
    assert_eq!(words.len(), 18);
    assert_eq!(&words[0..6], &[0, 0, 0, 0, FX, 0]);
    assert_eq!(&words[6..12], &[FX, 0, 0, 0, FX, 0]);
}

#[test]
fn draw_commands_carry_counts() {
    let mut mesh = quad_mesh(4);
    let shader = rusted_tree::shader::Shader { id: 9 };
    let single = mesh.draw_single(&shader);
    assert_eq!(single.shader_id, 9);
    assert_eq!(single.index_count, 3);
    assert!(!single.instanced);
    assert_eq!(single.instance_count, 1);
    let inst = mesh.draw_instances(&shader, 4);
    assert!(inst.instanced);
    assert_eq!(inst.instance_count, 4);
    assert_eq!(inst.index_count, 3);
}

#[test]
fn gpu_record_sizes() {
    assert_eq!(Vertex::size(), 24);
    assert_eq!(Instance::size(), 68);
    assert_eq!(Material::size(), 48);
}

#[test]
fn material_table_packs_twelve_slots_per_entry() {
    let mut materials = Materials::setup();
    let m = Material {
        ambient: Vec3::new(1, 2, 3),
        diffuse: Vec3::new(4, 5, 6),
        specular: Vec3::new(7, 8, 9),
        shininess: 10,
    };
    materials.add(m).unwrap();
    let words = materials.packed();
    assert_eq!(words, vec![1, 2, 3, 0, 4, 5, 6, 0, 7, 8, 9, 10]);
}
