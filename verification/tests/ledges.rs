use ahoy_kcc::config::CharacterController;
use ahoy_kcc::input::AccumulatedInput;
use ahoy_kcc::ledge::{
    available_crane_height, available_mantle_height, closest_wall_normal, handle_crane_movement,
    update_crane_state, update_mantle_state, CraneMoveCasts, LedgeCasts, MantleCasts,
};
use ahoy_kcc::math::Vec3;
use ahoy_kcc::state::{CharacterControllerState, ColliderShape};
use ahoy_kcc::sweep::{CastHit, MoveOutcome, WallContact};

fn v(x: i64, y: i64, z: i64) -> Vec3 {
    Vec3 { x, y, z }
}

fn shape() -> ColliderShape {
    ColliderShape::Cylinder { half_height: 900, radius: 350, offset_y: 0 }
}

fn hit(entity: u64, distance: i64, point: Vec3, normal: Vec3) -> CastHit {
    CastHit { entity, distance, point, normal, intersecting: false }
}

/// A wall within the vault cone, headroom, a ledge 0.6 below the rise and a
/// walkable landing: the probe reports the ledge height.
#[test]
fn crane_probe_accepts_qualifying_ledge() {
    let cfg = CharacterController::default();
    let casts = LedgeCasts {
        wall: Some(hit(3, 200, v(0, 500, -400), v(0, 0, 1000))),
        up: None, // full rise by crane_height = 1.5
        down: Some(hit(3, 600, v(0, 900, -500), v(0, 1000, 0))),
        clearance: None,
        final_down: Some(hit(3, 880, v(0, 900, -500), v(0, 1000, 0))),
    };
    let r = available_crane_height(&cfg, v(0, 0, -12_000), v(0, 0, 0), &casts);
    assert_eq!(r, Some(900)); // 1.5 up minus 0.6 back down
}

#[test]
fn crane_probe_rejects_steep_wall_angle() {
    let cfg = CharacterController::default();
    // wall faces mostly sideways: cos to the wish direction is under 0.643
    let casts = LedgeCasts {
        wall: Some(hit(3, 200, v(0, 500, -400), v(980, 0, 199))),
        up: None,
        down: Some(hit(3, 600, v(0, 900, -500), v(0, 1000, 0))),
        clearance: None,
        final_down: Some(hit(3, 880, v(0, 900, -500), v(0, 1000, 0))),
    };
    let r = available_crane_height(&cfg, v(0, 0, -12_000), v(0, 0, 0), &casts);
    assert_eq!(r, None);
}

#[test]
fn crane_probe_rejects_blocked_landing() {
    let cfg = CharacterController::default();
    let casts = LedgeCasts {
        wall: Some(hit(3, 200, v(0, 500, -400), v(0, 0, 1000))),
        up: None,
        down: Some(hit(3, 600, v(0, 900, -500), v(0, 1000, 0))),
        clearance: Some(hit(4, 50, v(0, 1500, -400), v(0, 0, 1000))),
        final_down: Some(hit(3, 880, v(0, 900, -500), v(0, 1000, 0))),
    };
    let r = available_crane_height(&cfg, v(0, 0, -12_000), v(0, 0, 0), &casts);
    assert_eq!(r, None);
}

/// A wall 0.3 ahead whose normal makes a 0.9 cosine with the wish
/// direction (over the 0.643 mantle cone), enough headroom and a walkable
/// landing: the mantle probe succeeds with a positive remaining height.
#[test]
fn mantle_probe_accepts_qualifying_wall() {
    let cfg = CharacterController::default();
    let state = CharacterControllerState::new(shape(), shape());
    let casts = MantleCasts {
        wall: Some(hit(7, 300, v(0, 500, -300), v(0, 0, 900))),
        depen: v(0, 0, 0),
        up: None, // full rise by mantle_height = 1.0
        down: Some(hit(7, 100, v(0, 900, -500), v(0, 1000, 0))),
        clearance: None,
        final_down: Some(hit(7, 880, v(0, 900, -500), v(0, 1000, 0))),
    };
    // dot(-normal, wish_dir) = 0.9
    let r = available_mantle_height(&cfg, &state, v(0, 0, -12_000), &casts);
    let mp = r.expect("mantle should be available");
    // ledge 0.9 high, body head at 0.9, pull-up allowance 0.3
    assert_eq!(mp.height_left, 300);
    assert_eq!(mp.wall_entity, 7);
    assert_eq!(mp.wall_normal, v(0, 0, 900));
}

#[test]
fn mantle_probe_rejects_short_ledge() {
    let cfg = CharacterController::default();
    let state = CharacterControllerState::new(shape(), shape());
    // ledge only 0.5 high: 0.5 - 0.9 + 0.3 < 0
    let casts = MantleCasts {
        wall: Some(hit(7, 300, v(0, 500, -300), v(0, 0, 900))),
        depen: v(0, 0, 0),
        up: None,
        down: Some(hit(7, 500, v(0, 900, -500), v(0, 1000, 0))),
        clearance: None,
        final_down: Some(hit(7, 480, v(0, 900, -500), v(0, 1000, 0))),
    };
    let r = available_mantle_height(&cfg, &state, v(0, 0, -12_000), &casts);
    assert!(r.is_none());
}

/// Starting a vault consumes every climb input and clears the other drive
/// modes.
#[test]
fn starting_a_vault_consumes_buffered_inputs() {
    let cfg = CharacterController::default();
    let mut state = CharacterControllerState::new(shape(), shape());
    state.grounded = Some(hit(1, 10, v(0, 0, 0), v(0, 1000, 0)));
    let mut input = AccumulatedInput::idle();
    input.craned = Some(20);
    input.jumped = Some(20);
    input.mantled = Some(20);
    input.tac = Some(20);
    let casts = LedgeCasts {
        wall: Some(hit(3, 200, v(0, 500, -400), v(0, 0, 1000))),
        up: None,
        down: Some(hit(3, 600, v(0, 900, -500), v(0, 1000, 0))),
        clearance: None,
        final_down: Some(hit(3, 880, v(0, 900, -500), v(0, 1000, 0))),
    };
    update_crane_state(&cfg, &mut state, &mut input, v(0, 0, -12_000), v(0, 0, 0), &casts);
    assert_eq!(state.crane_height_left, Some(900));
    assert!(state.grounded.is_none());
    assert!(state.mantle_progress.is_none());
    assert!(input.craned.is_none());
    assert!(input.jumped.is_none());
    assert!(input.mantled.is_none());
    assert!(input.tac.is_none());
}

/// A buffered jump releases an active mantle.
#[test]
fn jump_releases_active_mantle() {
    let cfg = CharacterController::default();
    let mut state = CharacterControllerState::new(shape(), shape());
    state.mantle_progress = Some(ahoy_kcc::state::MantleProgress {
        wall_normal: v(0, 0, 1000),
        ledge_position: v(0, 900, -500),
        height_left: 400,
        wall_entity: 7,
    });
    let mut input = AccumulatedInput::idle();
    input.jumped = Some(5);
    let casts = MantleCasts {
        wall: None,
        depen: v(0, 0, 0),
        up: None,
        down: None,
        clearance: None,
        final_down: None,
    };
    update_mantle_state(&cfg, &mut state, &mut input, v(0, 0, -12_000), &casts);
    assert!(state.mantle_progress.is_none());
    assert!(input.jumped.is_none());
}

/// An active vault climbs by exactly the swept travel and drains the
/// remaining height by the same amount: no teleport.
#[test]
fn vault_climb_advances_by_swept_travel() {
    let cfg = CharacterController::default();
    let mut state = CharacterControllerState::new(shape(), shape());
    state.crane_height_left = Some(500);
    let mut position = v(0, 0, 0);
    let mut velocity = v(0, 0, 0);
    let slide_pos = v(0, 176, -10);
    let casts = CraneMoveCasts {
        wall: Some(hit(3, 200, v(0, 500, -400), v(0, 0, 1000))),
        top: None, // free rise: travel = min(crane_speed * dt, height)
        slide: MoveOutcome { position: slide_pos, velocity: v(0, 0, 0), touches: Vec::new() },
        exit: Some(hit(3, 100, v(0, 500, -400), v(0, 0, 1000))),
        depen: v(0, 0, 0),
    };
    handle_crane_movement(&cfg, &mut state, &mut position, &mut velocity, v(0, 0, -12_000), &casts, 16);
    // travel = 11.0 * 0.016 = 0.176; remaining height 0.5 - 0.176 = 0.324
    assert_eq!(state.crane_height_left, Some(324));
    assert_eq!(position, slide_pos);
    assert_eq!(state.last_step_up, 0);
}

/// Losing the wall aborts the vault.
#[test]
fn vault_aborts_without_wall() {
    let cfg = CharacterController::default();
    let mut state = CharacterControllerState::new(shape(), shape());
    state.crane_height_left = Some(500);
    let mut position = v(0, 0, 0);
    let mut velocity = v(0, 0, 0);
    let casts = CraneMoveCasts {
        wall: None,
        top: None,
        slide: MoveOutcome { position: v(0, 0, 0), velocity: v(0, 0, 0), touches: Vec::new() },
        exit: None,
        depen: v(0, 0, 0),
    };
    handle_crane_movement(&cfg, &mut state, &mut position, &mut velocity, v(0, 0, -12_000), &casts, 16);
    assert!(state.crane_height_left.is_none());
    assert_eq!(position, v(0, 0, 0));
}

/// The wall finder picks the steep contact with the smallest penetration.
#[test]
fn wall_finder_prefers_smallest_penetration() {
    let cfg = CharacterController::default();
    let contacts = vec![
        WallContact { point: v(0, 0, -300), normal: v(0, 1000, 0), penetration: 5 }, // floor
        WallContact { point: v(0, 500, -300), normal: v(0, 0, 1000), penetration: 40 },
        WallContact { point: v(300, 500, 0), normal: v(1000, 0, 0), penetration: 15 },
    ];
    let r = closest_wall_normal(&cfg, &contacts).expect("a wall should be found");
    assert_eq!(r.normal, v(1000, 0, 0));
    assert_eq!(r.penetration, 15);
}

#[test]
fn wall_finder_ignores_walkable_contacts() {
    let cfg = CharacterController::default();
    let contacts = vec![WallContact {
        point: v(0, 0, -300),
        normal: v(0, 1000, 0),
        penetration: 5,
    }];
    assert!(closest_wall_normal(&cfg, &contacts).is_none());
}
