//! The snow simulator: wraparound at the floor, bounded drift, wrapped
//! rotations, and the freshly sampled flock.

use rusted_tree::fixed::{FX_LIM, FX_TURN};
use rusted_tree::linear::Vec3;
use rusted_tree::material::Materials;
use rusted_tree::xmas_tree::snow::{
    step_flake, Snow, Snowflake, MAX_FLAKES, SNOWFLAKE_FALL_VELOCITY,
    SNOWFLAKE_MAX_RANDOM_OFFSET, SNOW_X_MAX, SNOW_X_MIN, SNOW_Y_MAX, SNOW_Y_MIN, SNOW_Z_MAX,
    SNOW_Z_MIN,
};

fn flake_at(y: i64) -> Snowflake {
    Snowflake { position: Vec3 { x: 0, y, z: 0 }, rotation: Vec3 { x: 0, y: 0, z: 0 } }
}

#[test]
fn flake_at_the_floor_wraps_to_the_ceiling() {
    let f = flake_at(SNOW_Y_MIN);
    let stepped = step_flake(f, 0, 0, 0, 0, 0, 0);
    assert_eq!(stepped.position.y, SNOW_Y_MAX);
}

#[test]
fn repeated_updates_drive_a_flake_below_the_floor_and_wrap_it() {
    // start just above the floor: a few plain falls cross it, and the
    // crossing update lands exactly at the ceiling, never below the floor
    let mut f = flake_at(SNOW_Y_MIN + 3 * SNOWFLAKE_FALL_VELOCITY / 2);
    let mut wrapped = false;
    for _ in 0..5 {
        let before = f.position.y;
        f = step_flake(f, 0, 0, 0, 0, 0, 0);
        assert!(f.position.y >= SNOW_Y_MIN);
        if f.position.y > before {
            assert_eq!(f.position.y, SNOW_Y_MAX);
            wrapped = true;
            break;
        }
    }
    assert!(wrapped);
}

#[test]
fn falling_flake_drops_by_the_fall_velocity() {
    let f = flake_at(0);
    let stepped = step_flake(f, 0, 0, 0, 0, 0, 0);
    assert_eq!(stepped.position.y, -SNOWFLAKE_FALL_VELOCITY);
}

#[test]
fn horizontal_drift_adds_the_jitter_and_clamps() {
    let f = Snowflake {
        position: Vec3 { x: 100, y: 0, z: -200 },
        rotation: Vec3 { x: 0, y: 0, z: 0 },
    };
    let stepped = step_flake(f, 7_000, 0, -3_000, 0, 0, 0);
    assert_eq!(stepped.position.x, 7_100);
    assert_eq!(stepped.position.z, -3_200);
    let far = Snowflake {
        position: Vec3 { x: FX_LIM, y: 0, z: -FX_LIM },
        rotation: Vec3 { x: 0, y: 0, z: 0 },
    };
    let stepped = step_flake(far, 10_000, 0, -10_000, 0, 0, 0);
    assert_eq!(stepped.position.x, FX_LIM);
    assert_eq!(stepped.position.z, -FX_LIM);
}

#[test]
fn rotations_wrap_into_one_turn() {
    let f = Snowflake {
        position: Vec3 { x: 0, y: 0, z: 0 },
        rotation: Vec3 { x: FX_TURN - 1, y: 0, z: 10 },
    };
    let stepped = step_flake(f, 0, 0, 0, 50_000, -30_000, -20);
    assert_eq!(stepped.rotation.x, 49_999);
    assert_eq!(stepped.rotation.y, FX_TURN - 30_000);
    assert_eq!(stepped.rotation.z, FX_TURN - 10);
}

#[test]
fn fresh_snow_samples_every_flake_within_the_volume() {
    let mut materials = Materials::setup();
    let snow = Snow::new(&mut materials);
    assert_eq!(snow.flakes.len(), MAX_FLAKES);
    assert_eq!(materials.count(), 1);
    // the white flake material was registered
    assert_eq!(&materials.packed()[0..3], &[1_000_000, 1_000_000, 1_000_000]);
    for f in &snow.flakes {
        // the sampled ranges are half-open
        assert!(SNOW_X_MIN <= f.position.x && f.position.x < SNOW_X_MAX);
        assert!(SNOW_Y_MIN <= f.position.y && f.position.y < SNOW_Y_MAX);
        assert!(SNOW_Z_MIN <= f.position.z && f.position.z < SNOW_Z_MAX);
        assert!(0 <= f.rotation.x && f.rotation.x < FX_TURN);
        assert!(0 <= f.rotation.y && f.rotation.y < FX_TURN);
        assert!(0 <= f.rotation.z && f.rotation.z < FX_TURN);
    }
    assert_eq!(snow.mesh.vertices.len(), 12);
    // corner 0 of the hexagon: straight up on the flake's plane
    assert_eq!(
        (snow.mesh.vertices[0].position.x, snow.mesh.vertices[0].position.y,
            snow.mesh.vertices[0].position.z),
        (0, 50_000, 0),
    );
    assert_eq!(snow.mesh.vertices[0].normal.x, 1_000_000);
    assert_eq!(
        (snow.mesh.vertices[1].position.y, snow.mesh.vertices[1].normal.x),
        (-50_000, -1_000_000),
    );
    assert_eq!(snow.mesh.indices.len(), 12);
    assert_eq!(snow.mesh.instances.len(), MAX_FLAKES);
    // each instance carries its flake's translation and the snow material
    for (k, f) in snow.flakes.iter().enumerate() {
        let inst = &snow.mesh.instances[k];
        assert_eq!(inst.material_id, snow.material_id);
        assert_eq!(
            (inst.model.e[12], inst.model.e[13], inst.model.e[14]),
            (f.position.x, f.position.y, f.position.z),
        );
    }
}

#[test]
fn a_frame_of_snowfall_moves_every_flake_by_one_bounded_step() {
    let mut materials = Materials::setup();
    let mut snow = Snow::new(&mut materials);
    let before = snow.flakes.clone();
    snow.move_snowflakes();
    assert_eq!(snow.flakes.len(), MAX_FLAKES);
    for (k, f) in snow.flakes.iter().enumerate() {
        assert!(SNOW_Y_MIN <= f.position.y && f.position.y <= SNOW_Y_MAX);
        // horizontal drift is bounded by the jitter
        assert!((f.position.x - before[k].position.x).abs() <= SNOWFLAKE_MAX_RANDOM_OFFSET);
        assert!((f.position.z - before[k].position.z).abs() <= SNOWFLAKE_MAX_RANDOM_OFFSET);
        // the flake strictly fell, or wrapped to the ceiling
        let drop = before[k].position.y - f.position.y;
        assert!(
            f.position.y == SNOW_Y_MAX
                || (0 < drop && drop <= SNOWFLAKE_FALL_VELOCITY + SNOWFLAKE_MAX_RANDOM_OFFSET)
        );
        assert!(0 <= f.rotation.x && f.rotation.x < FX_TURN);
    }
    snow.fill_instances_vbo();
    assert_eq!(snow.mesh.instances.len(), MAX_FLAKES);
}
