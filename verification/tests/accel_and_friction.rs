use ahoy_kcc::accel::{
    friction, ground_accelerate, rescale_climb_cos, validate_velocity,
};
use ahoy_kcc::config::CharacterController;
use ahoy_kcc::math::Vec3;
use ahoy_kcc::state::{CharacterControllerState, ColliderShape};
use ahoy_kcc::sweep::CastHit;
use ahoy_kcc::water::{WaterLevel, WaterState};

fn v(x: i64, y: i64, z: i64) -> Vec3 {
    Vec3 { x, y, z }
}

fn shape() -> ColliderShape {
    ColliderShape::Cylinder { half_height: 900, radius: 350, offset_y: 0 }
}

fn flat_hit() -> CastHit {
    CastHit {
        entity: 1,
        distance: 10,
        point: v(0, 0, 0),
        normal: v(0, 1000, 0),
        intersecting: false,
    }
}

/// From rest with a constant wish velocity the speed along the wish
/// direction strictly increases tick over tick and never overshoots.
#[test]
fn ground_acceleration_is_monotone() {
    let cfg = CharacterController::default();
    let wish = v(12_000, 0, 0);
    let mut vel = v(0, 0, 0);
    let mut last = 0;
    for _ in 0..200 {
        ground_accelerate(&cfg, &mut vel, wish, cfg.acceleration_hz, 16);
        assert!(vel.x <= 12_000, "overshot: {}", vel.x);
        assert!(vel.x > last || last == 12_000);
        assert_eq!(vel.y, 0);
        assert_eq!(vel.z, 0);
        last = vel.x;
    }
    assert_eq!(last, 12_000);
}

/// One acceleration step closes the deficit at wish * rate * dt.
#[test]
fn ground_acceleration_step_value() {
    let cfg = CharacterController::default();
    let wish = v(12_000, 0, 0);
    let mut vel = v(0, 0, 0);
    ground_accelerate(&cfg, &mut vel, wish, cfg.acceleration_hz, 16);
    // 12.0 * 8.0/s * 0.016 s = 1.536
    assert_eq!(vel, v(1536, 0, 0));
}

#[test]
fn friction_drains_ground_speed_exactly() {
    let cfg = CharacterController::default();
    let mut state = CharacterControllerState::new(shape(), shape());
    state.grounded = Some(flat_hit());
    let water = WaterState::dry();
    let mut vel = v(3000, 0, 4000);
    friction(&cfg, &state, &water, &mut vel, 16);
    // speed 5.0, control 5.0, drop = 5.0 * 6.0/s * 0.016 s = 0.48
    assert_eq!(vel, v(2712, 0, 3616));
}

#[test]
fn friction_settles_below_stop_speed_to_rest() {
    let cfg = CharacterController::default();
    let mut state = CharacterControllerState::new(shape(), shape());
    state.grounded = Some(flat_hit());
    let water = WaterState::dry();
    let mut vel = v(300, 0, 0);
    for _ in 0..200 {
        friction(&cfg, &state, &water, &mut vel, 16);
    }
    assert_eq!(vel, v(0, 0, 0));
}

#[test]
fn friction_skips_airborne_characters() {
    let cfg = CharacterController::default();
    let state = CharacterControllerState::new(shape(), shape());
    let water = WaterState { level: WaterLevel::Feet, speed: 1000 };
    let mut vel = v(3000, -2000, 4000);
    friction(&cfg, &state, &water, &mut vel, 16);
    assert_eq!(vel, v(3000, -2000, 4000));
}

/// The velocity after validation never exceeds the configured cap.
#[test]
fn velocity_is_clamped_to_max_speed() {
    let cfg = CharacterController::default();
    let mut vel = v(130_000, 0, 0);
    validate_velocity(&cfg, &mut vel);
    let n2 = vel.x * vel.x + vel.y * vel.y + vel.z * vel.z;
    assert!(n2 <= cfg.max_speed * cfg.max_speed);
    assert!(vel.x > 99_000);
}

#[test]
fn velocity_within_cap_is_untouched() {
    let cfg = CharacterController::default();
    let mut vel = v(30_000, -20_000, 10_000);
    validate_velocity(&cfg, &mut vel);
    assert_eq!(vel, v(30_000, -20_000, 10_000));
}

#[test]
fn climb_cos_rescaling() {
    // (|0.2| + 0.5) * 2.5 = 1.75, clamped to 1.0, sign kept
    assert_eq!(rescale_climb_cos(200), 1000);
    assert_eq!(rescale_climb_cos(-200), -1000);
    // (|0.1| + 0.5) * 2.5 = 1.5 -> clamped
    assert_eq!(rescale_climb_cos(100), 1000);
    // (0 + 0.5) * 2.5 = 1.25 -> clamped, sign of zero is positive
    assert_eq!(rescale_climb_cos(0), 1000);
}
