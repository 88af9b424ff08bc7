use ahoy_kcc::config::CharacterController;
use ahoy_kcc::dynamics::touch_impulse;
use ahoy_kcc::grounding::{calculate_platform_movement, set_grounded, update_grounded};
use ahoy_kcc::math::Vec3;
use ahoy_kcc::state::{CharacterControllerState, ColliderShape};
use ahoy_kcc::sweep::{CastHit, PlatformInfo};
use ahoy_kcc::water::WaterState;

fn v(x: i64, y: i64, z: i64) -> Vec3 {
    Vec3 { x, y, z }
}

fn shape() -> ColliderShape {
    ColliderShape::Cylinder { half_height: 900, radius: 350, offset_y: 0 }
}

fn ground_on(entity: u64) -> CastHit {
    CastHit {
        entity,
        distance: 10,
        point: v(0, -900, 0),
        normal: v(0, 1000, 0),
        intersecting: false,
    }
}

/// A translating platform carries its touch point by linear velocity times
/// the tick.
#[test]
fn linear_platform_movement_value() {
    let platform = PlatformInfo {
        world_com: v(0, -1000, 0),
        linear_velocity: v(2000, 0, 0),
        angular_velocity: v(0, 0, 0),
    };
    let m = calculate_platform_movement(v(0, -900, 0), &platform, v(0, 0, 0), 100);
    // 2.0 m/s over 0.1 s
    assert_eq!(m, v(200, 0, 0));
}

/// A spinning platform carries an off-centre touch point sideways: angular
/// velocity crossed with the touch offset.
#[test]
fn angular_platform_movement_value() {
    let platform = PlatformInfo {
        world_com: v(0, -1000, 0),
        linear_velocity: v(0, 0, 0),
        angular_velocity: v(0, 1000, 0), // one radian per second about up
    };
    // touch point 2.0 ahead of the centre: w x r = (0,1,0) x (0,0.1,2) = (2,0,0)... scaled
    let m = calculate_platform_movement(v(0, -900, 0), &platform, v(0, 0, 2000), 1000);
    assert_eq!(m, v(2000, 0, 0));
}

/// Grounding onto a mover samples its motion into the inherited platform
/// velocity; the character's own velocity is not polluted.
#[test]
fn grounding_on_mover_inherits_its_velocity() {
    let mut state = CharacterControllerState::new(shape(), shape());
    let mut velocity = v(3000, -500, 0);
    let platform = PlatformInfo {
        world_com: v(0, -1000, 0),
        linear_velocity: v(2000, 0, 0),
        angular_velocity: v(0, 0, 0),
    };
    set_grounded(&mut state, &mut velocity, v(0, 0, 0), Some(ground_on(4)), Some(platform), 16);
    assert_eq!(state.base_velocity, v(2000, 0, 0));
    assert_eq!(velocity, v(3000, 0, 0)); // only the vertical part is zeroed
    assert_eq!(state.grounded.map(|g| g.entity), Some(4));
}

/// Leaving a mover keeps its last sampled velocity as the inherited one.
#[test]
fn leaving_mover_keeps_inherited_velocity() {
    let cfg = CharacterController::default();
    let mut state = CharacterControllerState::new(shape(), shape());
    state.grounded = Some(ground_on(4));
    let mut velocity = v(0, 0, 0);
    let water = WaterState::dry();
    let platform = PlatformInfo {
        world_com: v(0, -1000, 0),
        linear_velocity: v(0, -1500, 0),
        angular_velocity: v(0, 0, 0),
    };
    update_grounded(&cfg, &mut state, &mut velocity, v(0, 0, 0), &water, None, Some(platform), 16);
    assert!(state.grounded.is_none());
    assert_eq!(state.base_velocity, v(0, -1500, 0));
}

/// Grounding cancels an active vault and an active mantle: the drive modes
/// stay mutually exclusive.
#[test]
fn grounding_cancels_climbs() {
    let mut state = CharacterControllerState::new(shape(), shape());
    state.crane_height_left = Some(400);
    let mut velocity = v(0, -500, 0);
    set_grounded(&mut state, &mut velocity, v(0, 0, 0), Some(ground_on(1)), None, 16);
    assert!(state.grounded.is_some());
    assert!(state.crane_height_left.is_none());
    assert!(state.mantle_progress.is_none());
}

/// A contact's impulse is the character's momentum into the touched
/// surface: velocity projected on the inward normal, times the mass.
#[test]
fn touch_impulse_pushes_into_the_surface() {
    let touch = ahoy_kcc::sweep::TouchingEntity {
        entity: 6,
        distance: 0,
        point: v(0, 0, -300),
        normal: v(0, 0, 1000),
        character_position: v(0, 0, 0),
        character_velocity: v(0, 0, -3000),
        collision_distance: 0,
    };
    // 3.0 m/s into the wall, 80.0 of mass: 240 units of impulse along -z
    assert_eq!(touch_impulse(&touch, 80_000), v(0, 0, -240_000));
    let grazing = ahoy_kcc::sweep::TouchingEntity {
        character_velocity: v(5000, 0, 0),
        ..touch
    };
    assert_eq!(touch_impulse(&grazing, 80_000), v(0, 0, 0));
}
