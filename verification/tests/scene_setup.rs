//! The material table's hard capacity, the lights, the camera, the FPS
//! window, and the assembled scene's draw sequence.

use rusted_tree::camera::Camera;
use rusted_tree::coords::SphericalPoint3;
use rusted_tree::fixed::{FX_TURN};
use rusted_tree::fps_calculator::FpsCalculator;
use rusted_tree::lights::Lights;
use rusted_tree::linear::Vec3;
use rusted_tree::material::{Material, Materials, TableFull, MAX_MATERIALS};
use rusted_tree::triangle::Triangle;
use rusted_tree::xmas_tree::baubles::Baubles;
use rusted_tree::xmas_tree::scene::Scene;
use rusted_tree::xmas_tree::snow::MAX_FLAKES;
use rusted_tree::xmas_tree::static_object::StaticObject;
use rusted_tree::xmas_tree::XmasTree;

const FX: i64 = 1_000_000;

fn grey() -> Material {
    Material {
        ambient: Vec3::new(FX, FX, FX),
        diffuse: Vec3::new(FX / 2, FX / 2, FX / 2),
        specular: Vec3::new(FX / 4, FX / 4, FX / 4),
        shininess: 10 * FX,
    }
}

#[test]
fn material_ids_are_dense_and_in_registration_order() {
    let mut materials = Materials::setup();
    for expected in 0..MAX_MATERIALS {
        let id = materials.add(grey()).unwrap();
        assert_eq!(id as usize, expected);
    }
    assert_eq!(materials.count(), MAX_MATERIALS);
}

#[test]
fn one_material_past_capacity_fails_and_leaves_the_table_alone() {
    let mut materials = Materials::setup();
    for _ in 0..MAX_MATERIALS {
        materials.add(grey()).unwrap();
    }
    let overflow = materials.add(grey());
    assert_eq!(overflow, Err(TableFull));
    assert_eq!(materials.count(), MAX_MATERIALS);
    // slot zero was not silently overwritten
    assert_eq!(materials.packed()[0], FX);
}

#[test]
fn lights_pack_sixteen_slots_each() {
    let mut lights = Lights::setup();
    lights.add(
        Vec3::new(1, 2, 3),
        Vec3::new(4, 5, 6),
        Vec3::new(7, 8, 9),
        Vec3::new(10, 11, 12),
    );
    lights.add(
        Vec3::new(13, 14, 15),
        Vec3::new(16, 17, 18),
        Vec3::new(19, 20, 21),
        Vec3::new(22, 23, 24),
    );
    assert_eq!(lights.count(), 2);
    let words = lights.packed();
    assert_eq!(words.len(), 32);
    assert_eq!(&words[0..8], &[1, 2, 3, 0, 4, 5, 6, 0]);
    assert_eq!(&words[16..20], &[13, 14, 15, 0]);
}

#[test]
fn baubles_share_one_sphere_and_sixteen_placements() {
    let mut materials = Materials::setup();
    let baubles = Baubles::new(&mut materials);
    // a unit sphere of precision 8: 2 + 7 * 16 vertices
    assert_eq!(baubles.mesh.vertices.len(), 114);
    assert_eq!(baubles.baubles.len(), 16);
    assert_eq!(baubles.mesh.instances.len(), 16);
    assert_eq!(materials.count(), 5);
    for (k, b) in baubles.baubles.iter().enumerate() {
        let inst = &baubles.mesh.instances[k];
        assert_eq!(inst.material_id, b.material_id);
        assert_eq!((inst.model.e[12], inst.model.e[13], inst.model.e[14]),
            (b.center.x, b.center.y, b.center.z));
        assert!((b.material_id as usize) < materials.count());
    }
    assert_eq!((baubles.baubles[0].center.x, baubles.baubles[0].center.y,
        baubles.baubles[0].center.z), (0, 4_200_000, 0));
}

#[test]
fn scene_issues_one_instanced_draw_of_sixteen_baubles() {
    let mut scene = Scene::setup(1920, 1080);
    assert_eq!(scene.materials.count(), 8);
    assert_eq!(scene.baubles.mesh.vertices.len(), 114);
    let cmds = scene.draw();
    assert_eq!(cmds.len(), 4);
    assert!(!cmds[0].instanced); // ground
    assert!(!cmds[1].instanced); // tree
    assert!(cmds[2].instanced); // baubles
    assert_eq!(cmds[2].instance_count, 16);
    assert!(cmds[3].instanced); // snow
    assert_eq!(cmds[3].instance_count, MAX_FLAKES);
    // a frame later the sequence is the same
    scene.next_frame();
    let cmds = scene.draw();
    assert_eq!(cmds.len(), 4);
    assert_eq!(cmds[2].instance_count, 16);
}

#[test]
fn xmas_tree_bundles_the_four_models() {
    let tree = XmasTree::setup();
    assert_eq!(tree.materials.count(), 8);
    assert_eq!(tree.baubles.baubles.len(), 16);
    assert_eq!(tree.snow.flakes.len(), MAX_FLAKES);
}

#[test]
fn camera_rotations_wrap_and_resize_keeps_position() {
    let mut camera = Camera::new(
        SphericalPoint3::new(18 * FX, 541_127, 286_479),
        Vec3::new(0, -FX, 0),
        800,
        600,
    );
    camera.rotate_horizontally(FX_TURN - 286_479);
    assert_eq!(camera.position.phi, 0);
    camera.rotate_horizontally(-1);
    assert_eq!(camera.position.phi, FX_TURN - 1);
    camera.rotate_vertically(100);
    assert_eq!(camera.position.theta, 541_227);
    camera.on_window_resize(1024, 768);
    assert_eq!(camera.window_width, 1024);
    assert_eq!(camera.window_height, 768);
    assert_eq!(camera.position.r, 18 * FX);
}

#[test]
fn spherical_to_cartesian_at_exact_angles() {
    // straight up: theta = 0
    let p = SphericalPoint3::new(2 * FX, 0, 0).to_cartesian();
    assert_eq!((p.x, p.y, p.z), (0, 2 * FX, 0));
    // equator facing +Z: theta a quarter turn, phi 0
    let p = SphericalPoint3::new(FX, 500_000, 0).to_cartesian();
    assert_eq!((p.x, p.y, p.z), (0, 0, FX));
    // equator facing +X: both a quarter turn
    let p = SphericalPoint3::new(3 * FX, 500_000, 500_000).to_cartesian();
    assert_eq!((p.x, p.y, p.z), (3 * FX, 0, 0));
}

#[test]
fn fps_window_slides_and_reports_the_rate() {
    let mut fps = FpsCalculator::new(0);
    // one second later with one prior frame: exactly 1.000 frames per second
    let rate = fps.tick(1_000_000);
    assert_eq!(rate, Some(1_000));
    // the window never outgrows its size
    let mut t: u64 = 2_000_000;
    for _ in 0..300 {
        fps.tick(t);
        t += 10_000;
    }
    assert!(fps.frame_times.len() <= 100);
    // a hundred frames at 10 ms each: about a hundred frames per second
    let rate = fps.tick(t).unwrap();
    assert!(99_000 <= rate && rate <= 101_000, "rate {}", rate);
}

#[test]
fn fps_without_clock_progress_reports_nothing() {
    let mut fps = FpsCalculator::new(5);
    assert_eq!(fps.tick(5), None);
}

#[test]
fn triangle_demo_geometry() {
    let t = Triangle::setup();
    assert_eq!(t.vertices.len(), 24);
    assert_eq!(t.indices, vec![0, 1, 2, 3, 1, 2]);
    let cmd = t.draw();
    assert_eq!(cmd.index_count, 6);
    assert!(!cmd.instanced);
}

#[test]
fn static_object_keeps_its_stream() {
    let vertices: Vec<i64> = vec![0; 18];
    let indices: Vec<u32> = vec![0, 1, 2];
    let s = StaticObject::new(vertices, indices, grey());
    assert_eq!(s.vertices.len(), 18);
    assert_eq!(s.indices.len(), 3);
}
