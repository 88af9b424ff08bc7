use ahoy_kcc::config::CharacterController;
use ahoy_kcc::grounding::{handle_crouching, update_grounded};
use ahoy_kcc::input::{clear_accumulated_input, tick_timers, AccumulatedInput};
use ahoy_kcc::kcc::{run_kcc, GroundMoveCasts, TickQueries};
use ahoy_kcc::jump::JumpQueries;
use ahoy_kcc::ledge::{CraneMoveCasts, LedgeCasts, MantleCasts, MantleMoveQueries};
use ahoy_kcc::math::Vec3;
use ahoy_kcc::state::{CharacterControllerState, ColliderShape, Orientation, TIMER_MAX};
use ahoy_kcc::step::{step_move, SnapCasts, StepCasts};
use ahoy_kcc::sweep::{CastHit, IntersectionHit, MoveOutcome};
use ahoy_kcc::water::{WaterLevel, WaterState};

fn v(x: i64, y: i64, z: i64) -> Vec3 {
    Vec3 { x, y, z }
}

fn shape() -> ColliderShape {
    ColliderShape::Cylinder { half_height: 900, radius: 350, offset_y: 0 }
}

fn flat_ground() -> CastHit {
    CastHit {
        entity: 1,
        distance: 10,
        point: v(0, -900, 0),
        normal: v(0, 1000, 0),
        intersecting: false,
    }
}

fn clear_outcome(position: Vec3, velocity: Vec3) -> MoveOutcome {
    MoveOutcome { position, velocity, touches: Vec::new() }
}

fn idle_step(position: Vec3) -> StepCasts {
    StepCasts {
        direct: clear_outcome(position, v(0, 0, 0)),
        up: None,
        clearance: None,
        raised: clear_outcome(position, v(0, 0, 0)),
        down: None,
        depen: v(0, 0, 0),
    }
}

fn idle_queries(position: Vec3) -> TickQueries {
    TickQueries {
        depen: v(0, 0, 0),
        ground_start: Some(flat_ground()),
        platform_start: None,
        stand_hits: Vec::new(),
        crane_probe: LedgeCasts { wall: None, up: None, down: None, clearance: None, final_down: None },
        mantle_probe: MantleCasts {
            wall: None,
            depen: v(0, 0, 0),
            up: None,
            down: None,
            clearance: None,
            final_down: None,
        },
        crane_move: CraneMoveCasts {
            wall: None,
            top: None,
            slide: clear_outcome(position, v(0, 0, 0)),
            exit: None,
            depen: v(0, 0, 0),
        },
        mantle_move: MantleMoveQueries {
            contacts: Vec::new(),
            wall_cast: None,
            platform: None,
            top: None,
            slide: clear_outcome(position, v(0, 0, 0)),
        },
        jump: JumpQueries { vel_cast: None, wish_cast: None, platform: None },
        locomotion: GroundMoveCasts {
            first: None,
            depen: v(0, 0, 0),
            step: idle_step(position),
            snap: SnapCasts { up: None, down: None, depen: v(0, 0, 0) },
        },
        ground_end: Some(flat_ground()),
        platform_end: None,
    }
}

/// At rest on flat ground with no movement intent, a full tick leaves the
/// position unchanged and the velocity at zero.
#[test]
fn tick_at_rest_on_flat_ground_is_still() {
    let cfg = CharacterController::default();
    let mut state = CharacterControllerState::new(shape(), shape());
    let mut input = AccumulatedInput::idle();
    let mut position = v(2000, 0, -3000);
    let mut velocity = v(0, 0, 0);
    let water = WaterState::dry();
    let queries = idle_queries(position);
    run_kcc(
        &cfg,
        &mut state,
        &mut input,
        &mut position,
        &mut velocity,
        &water,
        None,
        Orientation::identity(),
        &queries,
        16,
    );
    assert_eq!(position, v(2000, 0, -3000));
    assert_eq!(velocity, v(0, 0, 0));
    assert!(state.grounded.is_some());
    assert_eq!(state.last_ground, 0);
}

/// Walking from rest on flat ground, the horizontal speed grows tick over
/// tick (quake acceleration against friction) and never exceeds the wish
/// speed.
#[test]
fn walking_accelerates_toward_wish_speed() {
    let cfg = CharacterController::default();
    let mut state = CharacterControllerState::new(shape(), shape());
    let mut input = AccumulatedInput::idle();
    input.last_movement = Some(ahoy_kcc::math::Vec2 { x: 0, y: 1000 });
    let mut position = v(0, 0, 0);
    let mut velocity = v(0, 0, 0);
    let water = WaterState::dry();
    let mut last_speed = 0;
    for _ in 0..60 {
        let queries = idle_queries(position);
        run_kcc(
            &cfg,
            &mut state,
            &mut input,
            &mut position,
            &mut velocity,
            &water,
            None,
            Orientation::identity(),
            &queries,
            16,
        );
        let speed = velocity.length();
        assert!(speed <= 12_000, "over wish speed: {speed}");
        assert!(speed >= last_speed || speed > 10_000);
        last_speed = speed;
    }
    assert!(last_speed > 8_000, "did not get moving: {last_speed}");
    // walking forward along the identity orientation moves along -z
    assert!(position.z < -1000);
    assert_eq!(velocity.y, 0);
}

/// A tick never leaves the drive modes overlapping and never exceeds the
/// speed cap while airborne.
#[test]
fn tick_keeps_modes_exclusive_and_speed_capped() {
    let cfg = CharacterController::default();
    let mut state = CharacterControllerState::new(shape(), shape());
    let mut input = AccumulatedInput::idle();
    input.last_movement = Some(ahoy_kcc::math::Vec2 { x: 0, y: 1000 });
    let mut position = v(0, 5000, 0);
    let mut velocity = v(900_000, -300_000, 0);
    let water = WaterState::dry();
    let mut queries = idle_queries(position);
    queries.ground_start = None;
    queries.ground_end = None;
    run_kcc(
        &cfg,
        &mut state,
        &mut input,
        &mut position,
        &mut velocity,
        &water,
        None,
        Orientation::identity(),
        &queries,
        16,
    );
    let n2 = velocity.x * velocity.x + velocity.y * velocity.y + velocity.z * velocity.z;
    assert!(n2 <= cfg.max_speed * cfg.max_speed);
    let modes = [
        state.grounded.is_some(),
        state.crane_height_left.is_some(),
        state.mantle_progress.is_some(),
    ];
    assert!(modes.iter().filter(|m| **m).count() <= 1);
}

/// Stepping onto a riser shorter than `step_size` keeps the horizontal
/// speed: the stepped outcome travelled further and is adopted whole.
#[test]
fn short_riser_preserves_horizontal_speed() {
    let cfg = CharacterController::default();
    let mut state = CharacterControllerState::new(shape(), shape());
    let mut position = v(0, 0, 0);
    let mut velocity = v(5000, 0, 0);
    let casts = StepCasts {
        // the direct slide is stopped at the riser after 0.02
        direct: clear_outcome(v(20, 0, 0), v(0, 0, 0)),
        up: Some(CastHit {
            entity: 2,
            distance: 400,
            point: v(0, 700, 0),
            normal: v(0, -1000, 0),
            intersecting: false,
        }),
        clearance: None,
        // from the raised pose the slide covers the full 0.08 at full speed
        raised: clear_outcome(v(80, 400, 0), v(5000, 0, 0)),
        down: Some(CastHit {
            entity: 2,
            distance: 100,
            point: v(80, 300, 0),
            normal: v(0, 1000, 0),
            intersecting: false,
        }),
        depen: v(0, 0, 0),
    };
    step_move(&cfg, &mut state, &mut position, &mut velocity, &casts);
    assert_eq!(velocity, v(5000, 0, 0));
    assert_eq!(position, v(80, 300, 0));
    assert_eq!(state.last_step_up, 0);
}

/// Stepping into a riser taller than `step_size` keeps the blocked direct
/// outcome: no further horizontal advance into the obstacle.
#[test]
fn tall_riser_blocks_horizontal_advance() {
    let cfg = CharacterController::default();
    let mut state = CharacterControllerState::new(shape(), shape());
    let mut position = v(0, 0, 0);
    let mut velocity = v(5000, 0, 0);
    let casts = StepCasts {
        direct: clear_outcome(v(20, 0, 0), v(0, 0, 0)),
        up: Some(CastHit {
            entity: 2,
            distance: 700,
            point: v(0, 700, 0),
            normal: v(0, -1000, 0),
            intersecting: false,
        }),
        // the raised pose is still inside the tall riser: no clearance
        clearance: Some(CastHit {
            entity: 2,
            distance: 0,
            point: v(30, 700, 0),
            normal: v(-1000, 0, 0),
            intersecting: true,
        }),
        raised: clear_outcome(v(20, 700, 0), v(0, 0, 0)),
        down: None,
        depen: v(0, 0, 0),
    };
    step_move(&cfg, &mut state, &mut position, &mut velocity, &casts);
    assert_eq!(velocity, v(0, 0, 0));
    assert_eq!(position, v(20, 0, 0));
    assert_ne!(state.last_step_up, 0);
}

/// Standing nearly still on a mover cancels to exactly the negative
/// platform velocity: no drift relative to the conveyor.
#[test]
fn standing_on_conveyor_does_not_drift() {
    let cfg = CharacterController::default();
    let mut state = CharacterControllerState::new(shape(), shape());
    state.grounded = Some(flat_ground());
    state.base_velocity = v(5, 0, 0);
    let mut position = v(0, 0, 0);
    let mut velocity = v(0, 0, 0);
    let casts = ahoy_kcc::kcc::GroundMoveCasts {
        first: None,
        depen: v(0, 0, 0),
        step: idle_step(position),
        snap: SnapCasts { up: None, down: None, depen: v(0, 0, 0) },
    };
    ahoy_kcc::kcc::ground_move(&cfg, &mut state, &mut position, &mut velocity, v(0, 0, 0), &casts, 16);
    assert_eq!(velocity, v(-5, 0, 0));
    assert_eq!(position, v(0, 0, 0));
}

/// A clear ground move advances the pose by the horizontal velocity over
/// the tick.
#[test]
fn clear_ground_move_advances_by_velocity() {
    let cfg = CharacterController::default();
    let mut state = CharacterControllerState::new(shape(), shape());
    state.grounded = Some(flat_ground());
    let mut position = v(0, 0, 0);
    let mut velocity = v(5000, 0, 0);
    let casts = ahoy_kcc::kcc::GroundMoveCasts {
        first: None,
        depen: v(0, 0, 0),
        step: idle_step(position),
        snap: SnapCasts { up: None, down: None, depen: v(0, 0, 0) },
    };
    ahoy_kcc::kcc::ground_move(&cfg, &mut state, &mut position, &mut velocity, v(0, 0, 0), &casts, 16);
    // 5.0 m/s over 16 ms
    assert_eq!(position, v(80, 0, 0));
    assert_eq!(velocity, v(5000, 0, 0));
}

/// Standing up under an obstruction keeps the character crouched.
#[test]
fn blocked_stand_up_stays_crouched() {
    let mut state = CharacterControllerState::new(shape(), shape());
    state.crouching = true;
    let input = AccumulatedInput::idle();
    let hits = vec![IntersectionHit { entity: 5, is_water: false }];
    handle_crouching(&mut state, &input, &hits);
    assert!(state.crouching);
}

#[test]
fn water_overlap_does_not_block_standing_up() {
    let mut state = CharacterControllerState::new(shape(), shape());
    state.crouching = true;
    let input = AccumulatedInput::idle();
    let hits = vec![IntersectionHit { entity: 5, is_water: true }];
    handle_crouching(&mut state, &input, &hits);
    assert!(!state.crouching);
}

/// Rising faster than the ungrounding threshold forces airborne even next
/// to the ground.
#[test]
fn fast_rise_forces_airborne() {
    let cfg = CharacterController::default();
    let mut state = CharacterControllerState::new(shape(), shape());
    let mut velocity = v(0, 11_000, 0); // over unground_speed = 10.0
    let water = WaterState::dry();
    update_grounded(
        &cfg,
        &mut state,
        &mut velocity,
        v(0, 0, 0),
        &water,
        Some(flat_ground()),
        None,
        16,
    );
    assert!(state.grounded.is_none());
    assert_eq!(velocity, v(0, 11_000, 0));
}

#[test]
fn walkable_probe_hit_grounds_and_zeroes_vertical_speed() {
    let cfg = CharacterController::default();
    let mut state = CharacterControllerState::new(shape(), shape());
    let mut velocity = v(3000, -2000, 0);
    let water = WaterState::dry();
    update_grounded(
        &cfg,
        &mut state,
        &mut velocity,
        v(0, 0, 0),
        &water,
        Some(flat_ground()),
        None,
        16,
    );
    assert!(state.grounded.is_some());
    assert_eq!(velocity, v(3000, 0, 0));
}

#[test]
fn steep_probe_hit_does_not_ground() {
    let cfg = CharacterController::default();
    let mut state = CharacterControllerState::new(shape(), shape());
    let mut velocity = v(0, -2000, 0);
    let water = WaterState::dry();
    let steep = CastHit {
        entity: 1,
        distance: 10,
        point: v(0, -900, 0),
        normal: v(700, 714, 0), // under min_walk_cos = 0.766
        intersecting: false,
    };
    update_grounded(&cfg, &mut state, &mut velocity, v(0, 0, 0), &water, Some(steep), None, 16);
    assert!(state.grounded.is_none());
}

#[test]
fn input_timers_age_and_clear_keeps_buffers() {
    let mut input = AccumulatedInput::idle();
    input.jumped = Some(10);
    input.crouched = true;
    input.swim_up = true;
    input.last_movement = Some(ahoy_kcc::math::Vec2 { x: 500, y: 500 });
    tick_timers(&mut input, 16);
    assert_eq!(input.jumped, Some(26));
    clear_accumulated_input(&mut input);
    assert_eq!(input.jumped, Some(26));
    assert!(!input.crouched);
    assert!(!input.swim_up);
    assert!(input.last_movement.is_none());
    let mut t = AccumulatedInput::idle();
    t.tac = Some(TIMER_MAX);
    tick_timers(&mut t, 1000);
    assert_eq!(t.tac, Some(TIMER_MAX));
}
