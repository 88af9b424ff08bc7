use ahoy_kcc::camera::{
    camera_height, rotate_camera, CharacterControllerCamera, CharacterControllerCameraOf,
    LookAngles, PITCH_LIMIT,
};
use ahoy_kcc::config::CharacterController;
use ahoy_kcc::fixed_update_utils::{
    clear_fixed_timestep_flag, did_fixed_timestep_run_this_frame, set_fixed_time_step_flag,
    DidFixedTimestepRunThisFrame,
};
use ahoy_kcc::input::AccumulatedInput;
use ahoy_kcc::kcc::water_move;
use ahoy_kcc::math::{Vec2, Vec3};
use ahoy_kcc::state::{derive_crouching_collider, CharacterControllerState, ColliderShape};
use ahoy_kcc::step::{SnapCasts, StepCasts};
use ahoy_kcc::sweep::MoveOutcome;
use ahoy_kcc::water::{update_water, WaterLevel, WaterReading, WaterState, WATER_SPEED_MAX};

fn v(x: i64, y: i64, z: i64) -> Vec3 {
    Vec3 { x, y, z }
}

fn shape() -> ColliderShape {
    ColliderShape::Cylinder { half_height: 900, radius: 350, offset_y: 0 }
}

#[test]
fn water_classification_takes_deepest_level_and_slowest_speed() {
    let readings = vec![
        WaterReading { contains_eye: false, contains_center: false, speed: 8000 },
        WaterReading { contains_eye: false, contains_center: true, speed: 5000 },
    ];
    let state = update_water(&readings);
    assert_eq!(state.level, WaterLevel::Waist);
    assert_eq!(state.speed, 5000);
}

#[test]
fn no_touched_water_means_dry() {
    let state = update_water(&Vec::new());
    assert_eq!(state.level, WaterLevel::Dry);
    assert_eq!(state.speed, WATER_SPEED_MAX);
}

#[test]
fn head_under_water_wins() {
    let readings = vec![
        WaterReading { contains_eye: true, contains_center: true, speed: 9000 },
        WaterReading { contains_eye: false, contains_center: false, speed: 9500 },
    ];
    let state = update_water(&readings);
    assert_eq!(state.level, WaterLevel::Head);
    assert_eq!(state.speed, 9000);
}

/// A buffered swim-up is consumed exactly once by a water move.
#[test]
fn swim_up_is_consumed_by_water_move() {
    let cfg = CharacterController::default();
    let mut state = CharacterControllerState::new(shape(), shape());
    let mut input = AccumulatedInput::idle();
    input.swim_up = true;
    let mut position = v(0, 0, 0);
    let mut velocity = v(0, 0, 0);
    let casts = StepCasts {
        direct: MoveOutcome { position, velocity: v(0, 500, 0), touches: Vec::new() },
        up: None,
        clearance: None,
        raised: MoveOutcome { position, velocity: v(0, 500, 0), touches: Vec::new() },
        down: None,
        depen: v(0, 0, 0),
    };
    water_move(&cfg, &mut state, &mut input, &mut position, &mut velocity, v(0, 0, 0), &casts, 16);
    assert!(!input.swim_up);
    assert_eq!(velocity, v(0, 500, 0));
}

#[test]
fn pitch_is_clamped_just_inside_vertical() {
    let mut angles = LookAngles { yaw: 0, pitch: 0 };
    // look 200 degrees down in one swipe: pitch stops at the limit
    rotate_camera(&mut angles, Vec2 { x: 0, y: 200_000 });
    assert_eq!(angles.pitch, -PITCH_LIMIT);
    rotate_camera(&mut angles, Vec2 { x: 0, y: -400_000 });
    assert_eq!(angles.pitch, PITCH_LIMIT);
}

#[test]
fn yaw_follows_horizontal_input() {
    let mut angles = LookAngles { yaw: 0, pitch: 0 };
    // 90 degrees left: about pi/2 radians
    rotate_camera(&mut angles, Vec2 { x: -90_000, y: 0 });
    assert_eq!(angles.yaw, 1570);
}

#[test]
fn camera_link_round_trip() {
    let cam = CharacterControllerCamera::link(42);
    assert_eq!(cam.get(), 42);
    let of = CharacterControllerCameraOf(7);
    assert_eq!(of.0, 7);
}

#[test]
fn camera_sits_at_view_height_above_feet() {
    let cfg = CharacterController::default();
    let state = CharacterControllerState::new(shape(), shape());
    // standing view 1.7 minus half the 1.8 body: 0.8 above the origin
    assert_eq!(camera_height(&cfg, &state), 800);
    let mut crouched = CharacterControllerState::new(shape(), shape());
    crouched.crouching = true;
    assert_eq!(camera_height(&cfg, &crouched), 300);
}

#[test]
fn crouching_cylinder_keeps_feet_level() {
    let standing = shape();
    let crouched = derive_crouching_collider(standing, 1300);
    match crouched {
        ColliderShape::Cylinder { half_height, radius, offset_y } => {
            assert_eq!(half_height, 650);
            assert_eq!(radius, 350);
            // (1.3 - 1.8) / 2 = -0.25: the shorter shape hangs low
            assert_eq!(offset_y, -250);
        },
        _ => panic!("cylinder stays a cylinder"),
    }
}

#[test]
fn crouching_capsule_rebuilds_around_its_radius() {
    let standing = ColliderShape::Capsule { half_length: 550, radius: 350, offset_y: 0 };
    let crouched = derive_crouching_collider(standing, 1300);
    match crouched {
        ColliderShape::Capsule { half_length, radius, offset_y } => {
            assert_eq!(radius, 350);
            // (1.3 - 0.35) / 2
            assert_eq!(half_length, 475);
            assert_eq!(offset_y, -250);
        },
        _ => panic!("capsule stays a capsule"),
    }
}

#[test]
fn fixed_timestep_flag_round_trip() {
    let mut flag = DidFixedTimestepRunThisFrame(false);
    set_fixed_time_step_flag(&mut flag);
    assert!(did_fixed_timestep_run_this_frame(&flag));
    clear_fixed_timestep_flag(&mut flag);
    assert!(!did_fixed_timestep_run_this_frame(&flag));
}

#[test]
fn state_accessors_follow_the_active_shape() {
    let mut state = CharacterControllerState::new(
        shape(),
        ColliderShape::Cylinder { half_height: 650, radius: 350, offset_y: -250 },
    );
    assert_eq!(state.pos_to_head_dist(), 900);
    assert_eq!(state.pos_to_feet_dist(), -900);
    assert_eq!(state.radius(), 350);
    state.crouching = true;
    assert_eq!(state.pos_to_head_dist(), 400);
    assert_eq!(state.pos_to_feet_dist(), -900);
    assert_eq!(state.radius(), 350);
}
