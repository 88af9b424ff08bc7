use ahoy_kcc::config::CharacterController;
use ahoy_kcc::input::AccumulatedInput;
use ahoy_kcc::jump::{handle_jump, handle_tac, JumpQueries};
use ahoy_kcc::math::Vec3;
use ahoy_kcc::state::{CharacterControllerState, ColliderShape};
use ahoy_kcc::sweep::CastHit;

fn v(x: i64, y: i64, z: i64) -> Vec3 {
    Vec3 { x, y, z }
}

fn shape() -> ColliderShape {
    ColliderShape::Cylinder { half_height: 900, radius: 350, offset_y: 0 }
}

fn wall_hit(normal: Vec3) -> CastHit {
    CastHit { entity: 9, distance: 250, point: v(0, 0, -300), normal, intersecting: false }
}

fn no_queries() -> JumpQueries {
    JumpQueries { vel_cast: None, wish_cast: None, platform: None }
}

/// Airborne within the coyote window, a buffered jump fires: grounding
/// clears, the grounded stopwatch parks at exactly the coyote time and the
/// upward speed becomes the square root of twice gravity times jump height.
#[test]
fn buffered_jump_fires_within_coyote_window() {
    let cfg = CharacterController::default();
    let mut state = CharacterControllerState::new(shape(), shape());
    state.grounded = None;
    state.last_ground = 80; // within coyote_time = 100
    let mut input = AccumulatedInput::idle();
    input.jumped = Some(50); // within jump_input_buffer = 150
    let mut vel = v(0, 0, 0);
    handle_jump(&cfg, &mut state, &mut input, &mut vel, v(0, 0, 0), v(0, 0, 0), &no_queries(), 16);
    // sqrt(2 * 29.0 * 1.8) = sqrt(104.4) = 10.217...
    assert_eq!(vel, v(0, 10_217, 0));
    assert!(state.grounded.is_none());
    assert_eq!(state.last_ground, cfg.coyote_time);
    assert_eq!(state.last_tac, 0);
    assert!(input.jumped.is_none());
    assert!(input.tac.is_none());
}

/// A buffered jump is consumed exactly once: the same snapshot a second
/// time has no further effect.
#[test]
fn buffered_jump_consumed_once() {
    let cfg = CharacterController::default();
    let mut state = CharacterControllerState::new(shape(), shape());
    state.grounded = None;
    state.last_ground = 80;
    let mut input = AccumulatedInput::idle();
    input.jumped = Some(50);
    let mut vel = v(0, 0, 0);
    handle_jump(&cfg, &mut state, &mut input, &mut vel, v(0, 0, 0), v(0, 0, 0), &no_queries(), 16);
    let state_after = state.clone();
    let input_after = input;
    let vel_after = vel;
    handle_jump(&cfg, &mut state, &mut input, &mut vel, v(0, 0, 0), v(0, 0, 0), &no_queries(), 16);
    assert_eq!(vel, vel_after);
    assert_eq!(input, input_after);
    assert_eq!(state.last_ground, state_after.last_ground);
    assert_eq!(state.grounded.is_none(), state_after.grounded.is_none());
}

#[test]
fn stale_jump_buffer_does_nothing() {
    let cfg = CharacterController::default();
    let mut state = CharacterControllerState::new(shape(), shape());
    state.grounded = Some(wall_hit(v(0, 1000, 0)));
    let mut input = AccumulatedInput::idle();
    input.jumped = Some(400); // beyond jump_input_buffer = 150
    let mut vel = v(500, 0, 0);
    handle_jump(&cfg, &mut state, &mut input, &mut vel, v(0, 0, 0), v(0, 0, 0), &no_queries(), 16);
    assert_eq!(vel, v(500, 0, 0));
    assert!(state.grounded.is_some());
    assert_eq!(input.jumped, Some(400));
}

/// A wall-jump needs a buffered input, wish speed over the minimum, a
/// cooled-down stopwatch and a qualifying wall; missing any leaves
/// everything unchanged.
#[test]
fn wall_jump_rejects_without_wall() {
    let cfg = CharacterController::default();
    let mut state = CharacterControllerState::new(shape(), shape());
    let mut input = AccumulatedInput::idle();
    input.tac = Some(10);
    let mut vel = v(0, -2000, -3000);
    let before = vel;
    let r = handle_tac(&cfg, &mut state, &input, &mut vel, v(0, 0, -12_000), None, None);
    assert!(r.is_none());
    assert_eq!(vel, before);
}

#[test]
fn wall_jump_rejects_without_wish_speed() {
    let cfg = CharacterController::default();
    let mut state = CharacterControllerState::new(shape(), shape());
    let mut input = AccumulatedInput::idle();
    input.tac = Some(10);
    let mut vel = v(0, -2000, -3000);
    let before = vel;
    let wall = wall_hit(v(0, 0, 1000));
    let r = handle_tac(&cfg, &mut state, &input, &mut vel, v(0, 0, 0), Some(wall), None);
    assert!(r.is_none());
    assert_eq!(vel, before);
}

#[test]
fn wall_jump_rejects_during_cooldown() {
    let cfg = CharacterController::default();
    let mut state = CharacterControllerState::new(shape(), shape());
    state.last_tac = 100; // cooldown is 300
    let mut input = AccumulatedInput::idle();
    input.tac = Some(10);
    let mut vel = v(0, -2000, -3000);
    let before = vel;
    let wall = wall_hit(v(0, 0, 1000));
    let r = handle_tac(&cfg, &mut state, &input, &mut vel, v(0, 0, -12_000), Some(wall), None);
    assert!(r.is_none());
    assert_eq!(vel, before);
}

#[test]
fn wall_jump_rejects_ceilings() {
    let cfg = CharacterController::default();
    let mut state = CharacterControllerState::new(shape(), shape());
    let mut input = AccumulatedInput::idle();
    input.tac = Some(10);
    let mut vel = v(0, 1000, -3000);
    let before = vel;
    let ceiling = wall_hit(v(0, -1000, 0));
    let r = handle_tac(&cfg, &mut state, &input, &mut vel, v(0, 0, -12_000), Some(ceiling), None);
    assert!(r.is_none());
    assert_eq!(vel, before);
}

/// A qualifying wall within the cone redirects the velocity: the component
/// into the wall is cancelled and an impulse comes back.
#[test]
fn wall_jump_cancels_velocity_into_wall() {
    let cfg = CharacterController::default();
    let mut state = CharacterControllerState::new(shape(), shape());
    state.tac_velocity = 5000;
    let mut input = AccumulatedInput::idle();
    input.tac = Some(10);
    let mut vel = v(0, -2000, -3000);
    let wall = wall_hit(v(0, 0, 1000));
    // a glancing wish: mostly along the wall, slightly into it
    let wish = v(-12_000, 0, -1000);
    let r = handle_tac(&cfg, &mut state, &input, &mut vel, wish, Some(wall), None);
    let dir = r.expect("wall-jump should fire");
    // velocity into the wall (z) is cancelled: dot = -3.0, minus (-3)*n
    assert_eq!(vel, v(0, -2000, 0));
    assert_eq!(state.tac_velocity, 0);
    // the impulse pushes up and away from the wall
    assert!(dir.y > 0);
    assert!(dir.z > 0);
}

/// Head-on at the wall is outside the wall-jump cone: nothing happens.
#[test]
fn wall_jump_rejects_head_on_approach() {
    let cfg = CharacterController::default();
    let mut state = CharacterControllerState::new(shape(), shape());
    let mut input = AccumulatedInput::idle();
    input.tac = Some(10);
    let mut vel = v(0, -2000, -3000);
    let before = vel;
    let wall = wall_hit(v(0, 0, 1000));
    let r = handle_tac(&cfg, &mut state, &input, &mut vel, v(0, 0, -12_000), Some(wall), None);
    assert!(r.is_none());
    assert_eq!(vel, before);
}
