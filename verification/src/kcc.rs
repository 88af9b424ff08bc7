//! The per-tick movement pipeline: ground, air and water locomotion, and
//! the orchestrator that sequences every sub-system once per fixed tick.

use vstd::prelude::*;
use crate::math::{Vec3, fmul, mul_fp, lemma_fmul_mag, FP, CFG_LIMIT};
use crate::config::CharacterController;
use crate::state::{CharacterControllerState, tick_timer, Orientation};
use crate::sweep::{CastHit, PlatformInfo, IntersectionHit};
use crate::input::AccumulatedInput;
use crate::water::WaterState;
use crate::accel::{
    flat_drive_velocity_spec, ground_accelerate, air_accelerate, water_accelerate, clamp_norm,
    clamp_speed_spec, friction, validate_velocity, start_gravity, finish_gravity,
    calculate_wish_velocity, calculate_3d_wish_velocity,
};
use crate::step::{
    StepCasts, SnapCasts, step_move, snap_to_ground, depenetrate_character,
    step_result_position_spec, step_result_velocity_spec, step_used_spec, snap_position_spec,
    snap_step_down_spec, POS_WORK,
};
use crate::grounding::{update_grounded, handle_crouching};
use crate::jump::{handle_jump, JumpQueries};
use crate::ledge::{
    update_crane_state, update_mantle_state, handle_crane_movement, handle_mantle_movement,
    LedgeCasts, MantleCasts, CraneMoveCasts, MantleMoveQueries, neg_spec,
};

verus! {

/// The casts one ground-driven move consumes.
///
/// - `first`: a cast of the intended horizontal movement from the current
///   pose; no hit means the path is clear and no stepping is needed.
/// - `depen`: the depenetration offset after the clear direct move.
/// - `step`: the step resolver's casts when the path is blocked.
/// - `snap`: the ground snapper's casts after the move.
#[derive(Clone, Debug)]
pub struct GroundMoveCasts {
    pub first: Option<CastHit>,
    pub depen: Vec3,
    pub step: StepCasts,
    pub snap: SnapCasts,
}

impl GroundMoveCasts {
    pub open spec fn wf(self, cfg: CharacterController) -> bool {
        &&& match self.first {
            Some(h) => h.wf(),
            None => true,
        }
        &&& self.depen.in_range(CFG_LIMIT as int)
        &&& self.step.wf()
        &&& match self.step.down {
            Some(h) => h.distance <= cfg.step_size,
            None => true,
        }
        &&& self.snap.wf()
        &&& match self.snap.up {
            Some(h) => h.distance <= cfg.ground_distance,
            None => true,
        }
        &&& match self.snap.down {
            Some(h) => h.distance <= self.snap.up_travel(cfg) + cfg.step_size,
            None => true,
        }
    }
}

/// What one ground move yields: the state (contact list aside), the pose
/// and the velocity.
pub open spec fn ground_move_spec(
    cfg: CharacterController,
    state: CharacterControllerState,
    position: Vec3,
    velocity: Vec3,
    wish_velocity: Vec3,
    casts: GroundMoveCasts,
    dt: int,
) -> (CharacterControllerState, Vec3, Vec3) {
    let va0 = flat_drive_velocity_spec(cfg, velocity, wish_velocity, dt);
    let base = state.base_velocity;
    let v1 = Vec3 {
        x: (va0.x + base.x) as i64,
        y: (va0.y + base.y) as i64,
        z: (va0.z + base.z) as i64,
    };
    if v1.norm() < 10 {
        (state, position, crate::ledge::neg_spec(base))
    } else {
        let movement = Vec3 {
            x: fmul(v1.x as int, dt) as i64,
            y: 0,
            z: fmul(v1.z as int, dt) as i64,
        };
        match casts.first {
            None => {
                let moved = Vec3 {
                    x: (position.x + movement.x + casts.depen.x) as i64,
                    y: (position.y + casts.depen.y) as i64,
                    z: (position.z + movement.z + casts.depen.z) as i64,
                };
                (
                    CharacterControllerState {
                        last_step_down: snap_step_down_spec(
                            cfg,
                            state.last_step_down as int,
                            moved,
                            casts.snap,
                        ) as i64,
                        ..state
                    },
                    snap_position_spec(cfg, moved, casts.snap),
                    va0,
                )
            },
            Some(_) => {
                let st = crate::step::step_move_spec(cfg, state, position, v1, casts.step);
                (
                    CharacterControllerState {
                        last_step_down: snap_step_down_spec(
                            cfg,
                            st.0.last_step_down as int,
                            st.1,
                            casts.snap,
                        ) as i64,
                        ..st.0
                    },
                    snap_position_spec(cfg, st.1, casts.snap),
                    Vec3 {
                        x: (st.2.x - base.x) as i64,
                        y: (st.2.y - base.y) as i64,
                        z: (st.2.z - base.z) as i64,
                    },
                )
            },
        }
    }
}

/// The contacts one ground move records.
pub open spec fn ground_touches_spec(
    cfg: CharacterController,
    state: CharacterControllerState,
    position: Vec3,
    velocity: Vec3,
    wish_velocity: Vec3,
    casts: GroundMoveCasts,
    dt: int,
) -> Seq<crate::sweep::TouchingEntity> {
    let va0 = flat_drive_velocity_spec(cfg, velocity, wish_velocity, dt);
    let base = state.base_velocity;
    let v1 = Vec3 {
        x: (va0.x + base.x) as i64,
        y: (va0.y + base.y) as i64,
        z: (va0.z + base.z) as i64,
    };
    if v1.norm() < 10 {
        Seq::empty()
    } else {
        match casts.first {
            None => Seq::empty(),
            Some(_) => crate::step::step_touches_spec(cfg, position, casts.step),
        }
    }
}

/// Move along the ground: accelerate horizontally, fold the platform
/// velocity in, sweep (stepping over risers when blocked), fold the
/// platform velocity back out and snap to the ground. Standing nearly still
/// cancels to exactly the negative platform velocity so the character does
/// not drift on a mover.
#[verifier::rlimit(100)]
#[verifier::spinoff_prover]
pub fn ground_move(
    cfg: &CharacterController,
    state: &mut CharacterControllerState,
    position: &mut Vec3,
    velocity: &mut Vec3,
    wish_velocity: Vec3,
    casts: &GroundMoveCasts,
    dt: i64,
)
    requires
        cfg.wf(),
        old(state).wf(),
        old(position).in_range(POS_WORK as int),
        old(velocity).in_range(2_000_000),
        wish_velocity.in_range(2_000_000),
        casts.wf(*cfg),
        0 < dt <= 1_000,
    ensures
        final(state).wf(),
        final(position).in_range(703_000_000),
        final(velocity).in_range(60_000_000),
        final(state).orientation == old(state).orientation,
        ({
            let out = ground_move_spec(
                *cfg,
                *old(state),
                *old(position),
                *old(velocity),
                wish_velocity,
                *casts,
                dt as int,
            );
            &&& *final(state) == (CharacterControllerState {
                touching_entities: final(state).touching_entities,
                ..out.0
            })
            &&& *final(position) == out.1
            &&& *final(velocity) == out.2
        }),
        final(state).touching_entities@ == old(state).touching_entities@ + ground_touches_spec(
            *cfg,
            *old(state),
            *old(position),
            *old(velocity),
            wish_velocity,
            *casts,
            dt as int,
        ),
        ({
            let va0 = flat_drive_velocity_spec(*cfg, *old(velocity), wish_velocity, dt as int);
            let base = old(state).base_velocity;
            let v1 = Vec3 {
                x: (va0.x + base.x) as i64,
                y: (va0.y + base.y) as i64,
                z: (va0.z + base.z) as i64,
            };
            if v1.norm() < 10 {
                &&& *final(velocity) == neg_spec(base)
                &&& *final(position) == *old(position)
                &&& *final(state) == *old(state)
            } else {
                let movement = Vec3 {
                    x: fmul(v1.x as int, dt as int) as i64,
                    y: 0,
                    z: fmul(v1.z as int, dt as int) as i64,
                };
                match casts.first {
                    None => {
                        let moved = Vec3 {
                            x: (old(position).x + movement.x + casts.depen.x) as i64,
                            y: (old(position).y + casts.depen.y) as i64,
                            z: (old(position).z + movement.z + casts.depen.z) as i64,
                        };
                        &&& *final(velocity) == va0
                        &&& *final(position) == snap_position_spec(*cfg, moved, casts.snap)
                        &&& final(state).last_step_down == snap_step_down_spec(
                            *cfg,
                            old(state).last_step_down as int,
                            moved,
                            casts.snap,
                        )
                        &&& *final(state) == (CharacterControllerState {
                            last_step_down: final(state).last_step_down,
                            ..*old(state)
                        })
                    },
                    Some(_) => {
                        let pos_s = step_result_position_spec(*cfg, *old(position), casts.step);
                        let vel_s = step_result_velocity_spec(*cfg, *old(position), casts.step);
                        &&& final(velocity).x == vel_s.x - base.x
                        &&& final(velocity).y == vel_s.y - base.y
                        &&& final(velocity).z == vel_s.z - base.z
                        &&& *final(position) == snap_position_spec(*cfg, pos_s, casts.snap)
                        &&& final(state).last_step_up == (if step_used_spec(
                            *cfg,
                            *old(position),
                            casts.step,
                        ) {
                            0int
                        } else {
                            old(state).last_step_up as int
                        })
                        &&& final(state).last_step_down == snap_step_down_spec(
                            *cfg,
                            old(state).last_step_down as int,
                            pos_s,
                            casts.snap,
                        )
                        &&& final(state).grounded == old(state).grounded
                        &&& final(state).crane_height_left == old(state).crane_height_left
                        &&& final(state).mantle_progress == old(state).mantle_progress
                        &&& final(state).base_velocity == old(state).base_velocity
                        &&& final(state).crouching == old(state).crouching
                    },
                }
            }
        }),
{
    velocity.y = 0;
    ground_accelerate(cfg, velocity, wish_velocity, cfg.acceleration_hz, dt);
    velocity.y = 0;
    let drive = *velocity;
    *velocity = velocity.add(state.base_velocity);
    let speed = velocity.length();
    proof {
        crate::math::lemma_norm_sq_bound(*velocity, 41_000_000);
        crate::math::lemma_root_le(speed as int, velocity.norm_sq(), 41_000_000);
    }
    if speed < 10 {
        *velocity = state.base_velocity.neg();
        return ;
    }
    proof {
        crate::math::lemma_mul_mag(velocity.x as int, dt as int, 82_000_000, 1_000);
        crate::math::lemma_mul_mag(velocity.z as int, dt as int, 82_000_000, 1_000);
        crate::math::lemma_div_t_mag(velocity.x as int * dt as int, FP as int, 82_000_000int
            * 1_000);
        crate::math::lemma_div_t_mag(velocity.z as int * dt as int, FP as int, 82_000_000int
            * 1_000);
    }
    let movement = Vec3 { x: (velocity.x * dt) / FP, y: 0, z: (velocity.z * dt) / FP };
    match casts.first {
        None => {
            *position = position.add(movement);
            *velocity = drive;
            depenetrate_character(position, casts.depen);
            snap_to_ground(cfg, state, position, &casts.snap);
        },
        Some(_) => {
            step_move(cfg, state, position, velocity, &casts.step);
            *velocity = velocity.sub(state.base_velocity);
            snap_to_ground(cfg, state, position, &casts.snap);
        },
    }
}

/// What one air move yields.
pub open spec fn air_move_spec(
    cfg: CharacterController,
    state: CharacterControllerState,
    position: Vec3,
    velocity: Vec3,
    wish_velocity: Vec3,
    casts: StepCasts,
    dt: int,
) -> (CharacterControllerState, Vec3, Vec3) {
    let va = crate::accel::air_accelerate_spec(
        cfg,
        velocity,
        wish_velocity,
        cfg.air_acceleration_hz as int,
        dt,
    );
    let base = state.base_velocity;
    let v1 = Vec3 {
        x: (va.x + base.x) as i64,
        y: (va.y + base.y) as i64,
        z: (va.z + base.z) as i64,
    };
    let st = crate::step::step_move_spec(cfg, state, position, v1, casts);
    (
        st.0,
        st.1,
        Vec3 {
            x: (st.2.x - base.x) as i64,
            y: (st.2.y - base.y) as i64,
            z: (st.2.z - base.z) as i64,
        },
    )
}

/// Move through the air: quake acceleration against the lower air speed
/// ceiling, then the stepped sweep with the platform velocity folded around
/// it.
#[verifier::rlimit(100)]
#[verifier::spinoff_prover]
pub fn air_move(
    cfg: &CharacterController,
    state: &mut CharacterControllerState,
    position: &mut Vec3,
    velocity: &mut Vec3,
    wish_velocity: Vec3,
    casts: &StepCasts,
    dt: i64,
)
    requires
        cfg.wf(),
        old(state).wf(),
        old(position).in_range(POS_WORK as int),
        old(velocity).in_range(2_000_000),
        wish_velocity.in_range(2_000_000),
        casts.wf(),
        match casts.down {
            Some(h) => h.distance <= cfg.step_size,
            None => true,
        },
        0 < dt <= 1_000,
    ensures
        final(state).wf(),
        final(position).in_range((POS_WORK + 2 * CFG_LIMIT) as int),
        final(velocity).in_range(60_000_000),
        final(state).orientation == old(state).orientation,
        ({
            let out = air_move_spec(
                *cfg,
                *old(state),
                *old(position),
                *old(velocity),
                wish_velocity,
                *casts,
                dt as int,
            );
            &&& *final(state) == (CharacterControllerState {
                touching_entities: final(state).touching_entities,
                ..out.0
            })
            &&& *final(position) == out.1
            &&& *final(velocity) == out.2
        }),
        final(state).touching_entities@ == old(state).touching_entities@
            + crate::step::step_touches_spec(*cfg, *old(position), *casts),
{
    air_accelerate(cfg, velocity, wish_velocity, cfg.air_acceleration_hz, dt);
    *velocity = velocity.add(state.base_velocity);
    step_move(cfg, state, position, velocity, casts);
    *velocity = velocity.sub(state.base_velocity);
}

/// The wish velocity water movement actually accelerates toward: a swim-up
/// boost when requested, the whole intent clamped to the configured speed, a
/// slow sink when there is no intent at all, and the water slowdown factor.
pub open spec fn water_wish_spec(
    cfg: CharacterController,
    wish_velocity: Vec3,
    swim_up: bool,
) -> Vec3 {
    let w1 = if swim_up {
        Vec3 { x: wish_velocity.x, y: (wish_velocity.y + cfg.speed) as i64, z: wish_velocity.z }
    } else {
        wish_velocity
    };
    let w2 = clamp_speed_spec(cfg.speed as int, w1);
    let w3 = if w2 == Vec3::zero_spec() {
        Vec3 { x: 0, y: (0 - cfg.water_gravity) as i64, z: 0 }
    } else {
        w2
    };
    Vec3 {
        x: fmul(w3.x as int, cfg.water_slowdown as int) as i64,
        y: fmul(w3.y as int, cfg.water_slowdown as int) as i64,
        z: fmul(w3.z as int, cfg.water_slowdown as int) as i64,
    }
}

/// What one water move yields: the state (contact list aside), the input,
/// the pose and the velocity.
pub open spec fn water_move_spec(
    cfg: CharacterController,
    state: CharacterControllerState,
    input: AccumulatedInput,
    position: Vec3,
    velocity: Vec3,
    wish_velocity: Vec3,
    casts: StepCasts,
    dt: int,
) -> (CharacterControllerState, AccumulatedInput, Vec3, Vec3) {
    let wish = water_wish_spec(cfg, wish_velocity, input.swim_up);
    let va = crate::accel::ground_accelerate_spec(
        velocity,
        wish,
        cfg.water_acceleration_hz as int,
        dt,
    );
    let base = state.base_velocity;
    let v1 = Vec3 {
        x: (va.x + base.x) as i64,
        y: (va.y + base.y) as i64,
        z: (va.z + base.z) as i64,
    };
    let st = crate::step::step_move_spec(cfg, state, position, v1, casts);
    (
        st.0,
        AccumulatedInput { swim_up: false, ..input },
        st.1,
        Vec3 {
            x: (st.2.x - base.x) as i64,
            y: (st.2.y - base.y) as i64,
            z: (st.2.z - base.z) as i64,
        },
    )
}

/// Move through water: an upward boost on a buffered swim-up (consumed
/// here), the wish clamped so looking up and swimming up cannot stack, a
/// slow sink with no input, the water slowdown, then acceleration and the
/// stepped sweep.
#[verifier::rlimit(100)]
#[verifier::spinoff_prover]
pub fn water_move(
    cfg: &CharacterController,
    state: &mut CharacterControllerState,
    input: &mut AccumulatedInput,
    position: &mut Vec3,
    velocity: &mut Vec3,
    wish_velocity: Vec3,
    casts: &StepCasts,
    dt: i64,
)
    requires
        cfg.wf(),
        old(state).wf(),
        old(input).wf(),
        old(position).in_range(POS_WORK as int),
        old(velocity).in_range(2_000_000),
        wish_velocity.in_range(2_000_000),
        casts.wf(),
        match casts.down {
            Some(h) => h.distance <= cfg.step_size,
            None => true,
        },
        0 < dt <= 1_000,
    ensures
        final(state).wf(),
        final(input).wf(),
        final(position).in_range((POS_WORK + 2 * CFG_LIMIT) as int),
        final(velocity).in_range(60_000_000),
        !final(input).swim_up,
        final(state).orientation == old(state).orientation,
        *final(input) == (AccumulatedInput { swim_up: false, ..*old(input) }),
        ({
            let out = water_move_spec(
                *cfg,
                *old(state),
                *old(input),
                *old(position),
                *old(velocity),
                wish_velocity,
                *casts,
                dt as int,
            );
            &&& *final(state) == (CharacterControllerState {
                touching_entities: final(state).touching_entities,
                ..out.0
            })
            &&& *final(input) == out.1
            &&& *final(position) == out.2
            &&& *final(velocity) == out.3
        }),
        final(state).touching_entities@ == old(state).touching_entities@
            + crate::step::step_touches_spec(*cfg, *old(position), *casts),
{
    let boosted = if input.swim_up {
        input.swim_up = false;
        Vec3 { x: wish_velocity.x, y: wish_velocity.y + cfg.speed, z: wish_velocity.z }
    } else {
        input.swim_up = false;
        wish_velocity
    };
    let clamped = clamp_norm(boosted, cfg.speed);
    let sunk = if clamped.x == 0 && clamped.y == 0 && clamped.z == 0 {
        Vec3 { x: 0, y: 0 - cfg.water_gravity, z: 0 }
    } else {
        clamped
    };
    proof {
        lemma_fmul_mag(sunk.x as int, cfg.water_slowdown as int, CFG_LIMIT as int, FP as int);
        lemma_fmul_mag(sunk.y as int, cfg.water_slowdown as int, CFG_LIMIT as int, FP as int);
        lemma_fmul_mag(sunk.z as int, cfg.water_slowdown as int, CFG_LIMIT as int, FP as int);
    }
    let wish = Vec3 {
        x: mul_fp(sunk.x, cfg.water_slowdown),
        y: mul_fp(sunk.y, cfg.water_slowdown),
        z: mul_fp(sunk.z, cfg.water_slowdown),
    };
    water_accelerate(cfg, velocity, wish, cfg.water_acceleration_hz, dt);
    *velocity = velocity.add(state.base_velocity);
    step_move(cfg, state, position, velocity, casts);
    *velocity = velocity.sub(state.base_velocity);
}

/// Every collision-sweep answer one tick consumes, in pipeline order.
#[derive(Clone, Debug)]
pub struct TickQueries {
    /// Depenetration offset at the starting pose.
    pub depen: Vec3,
    /// Downward grounding probe at the start of the tick.
    pub ground_start: Option<CastHit>,
    /// Motion of the body the starting grounding transition concerns.
    pub platform_start: Option<PlatformInfo>,
    /// Overlaps of the standing shape at the current pose (crouch release).
    pub stand_hits: Vec<IntersectionHit>,
    /// The vault availability probe's casts.
    pub crane_probe: LedgeCasts,
    /// The mantle availability probe's casts.
    pub mantle_probe: MantleCasts,
    /// The active vault's casts.
    pub crane_move: CraneMoveCasts,
    /// The active mantle's queries.
    pub mantle_move: MantleMoveQueries,
    /// The jump resolver's queries.
    pub jump: JumpQueries,
    /// The free-movement casts (ground, air or water this tick).
    pub locomotion: GroundMoveCasts,
    /// Downward grounding probe after moving.
    pub ground_end: Option<CastHit>,
    /// Motion of the body the ending grounding transition concerns.
    pub platform_end: Option<PlatformInfo>,
}

impl TickQueries {
    pub open spec fn wf(self, cfg: CharacterController) -> bool {
        &&& self.depen.in_range(CFG_LIMIT as int)
        &&& match self.ground_start {
            Some(h) => h.wf(),
            None => true,
        }
        &&& match self.platform_start {
            Some(p) => p.wf(),
            None => true,
        }
        &&& self.crane_probe.wf()
        &&& self.crane_probe.lengths_ok(cfg.crane_height as int)
        &&& self.mantle_probe.wf()
        &&& self.mantle_probe.lengths_ok(cfg.mantle_height as int)
        &&& self.crane_move.wf()
        &&& self.mantle_move.wf()
        &&& self.jump.wf()
        &&& self.locomotion.wf(cfg)
        &&& match self.ground_end {
            Some(h) => h.wf(),
            None => true,
        }
        &&& match self.platform_end {
            Some(p) => p.wf(),
            None => true,
        }
    }
}

/// What one whole tick yields, stage by stage in the pipeline's order: the
/// state (contact list aside), the input, the pose, the velocity, and the
/// contact list rebuilt from this tick's slides alone.
pub open spec fn tick_spec(
    cfg: CharacterController,
    state0: CharacterControllerState,
    input0: AccumulatedInput,
    position0: Vec3,
    velocity0: Vec3,
    water: WaterState,
    cam_orientation: Option<Orientation>,
    body_orientation: Orientation,
    queries: TickQueries,
    dt: int,
) -> (CharacterControllerState, AccumulatedInput, Vec3, Vec3, Seq<crate::sweep::TouchingEntity>) {
    let pre = tick_prelude_spec(
        cfg,
        state0,
        input0,
        position0,
        velocity0,
        water,
        cam_orientation,
        body_orientation,
        queries,
        dt,
    );
    let wet = water.level.rank_spec() > 1;
    let branch = tick_branch_spec(cfg, pre.0, pre.1, pre.2, pre.3, water, pre.4, pre.5, queries, dt);
    let gr2 = crate::grounding::update_grounded_spec(
        cfg,
        branch.0,
        branch.3,
        branch.2,
        water,
        queries.ground_end,
        queries.platform_end,
        dt,
    );
    let vel_m = clamp_speed_spec(cfg.max_speed as int, gr2.1);
    let vel_n = if !wet {
        crate::accel::finish_gravity_spec(cfg, vel_m, dt)
    } else {
        vel_m
    };
    if gr2.0.grounded is Some {
        (
            CharacterControllerState { last_ground: 0, ..gr2.0 },
            branch.1,
            branch.2,
            Vec3 { x: vel_n.x, y: gr2.0.base_velocity.y, z: vel_n.z },
            branch.4,
        )
    } else {
        (gr2.0, branch.1, branch.2, vel_n, branch.4)
    }
}

/// The pre-movement stages of one tick: stopwatches, depenetration, the
/// grounding classification, the crouch toggle, the first gravity
/// half-step, the look orientation, the wish velocities and the climb
/// availability checks. Yields the state, the input, the depenetrated pose,
/// the velocity, and the two wish velocities at the branch point.
pub open spec fn tick_prelude_spec(
    cfg: CharacterController,
    state0: CharacterControllerState,
    input0: AccumulatedInput,
    position0: Vec3,
    velocity0: Vec3,
    water: WaterState,
    cam_orientation: Option<Orientation>,
    body_orientation: Orientation,
    queries: TickQueries,
    dt: int,
) -> (CharacterControllerState, AccumulatedInput, Vec3, Vec3, Vec3, Vec3) {
    let state_a = CharacterControllerState {
        last_ground: crate::input::tick_timer_spec(state0.last_ground as int, dt) as i64,
        last_tac: crate::input::tick_timer_spec(state0.last_tac as int, dt) as i64,
        last_step_up: crate::input::tick_timer_spec(state0.last_step_up as int, dt) as i64,
        last_step_down: crate::input::tick_timer_spec(state0.last_step_down as int, dt) as i64,
        ..state0
    };
    let pos_a = Vec3 {
        x: (position0.x + queries.depen.x) as i64,
        y: (position0.y + queries.depen.y) as i64,
        z: (position0.z + queries.depen.z) as i64,
    };
    let gr = crate::grounding::update_grounded_spec(
        cfg,
        state_a,
        velocity0,
        pos_a,
        water,
        queries.ground_start,
        queries.platform_start,
        dt,
    );
    let state_c = CharacterControllerState {
        crouching: crate::grounding::handle_crouching_spec(
            gr.0,
            input0.crouched,
            queries.stand_hits@,
        ),
        ..gr.0
    };
    let wet = water.level.rank_spec() > 1;
    let grav = if !wet {
        crate::accel::start_gravity_spec(cfg, state_c, gr.1, dt)
    } else {
        (state_c, gr.1)
    };
    let state_e = CharacterControllerState {
        orientation: (match cam_orientation {
            Some(o) => o,
            None => body_orientation,
        }),
        ..grav.0
    };
    let vel_e = grav.1;
    let wish = crate::accel::wish_velocity_spec(
        cfg,
        state_e.orientation,
        state_e.crouching,
        input0.last_movement,
    );
    let wish3 = crate::accel::wish_velocity_3d_spec(
        cfg,
        state_e.orientation,
        state_e.crouching,
        input0.last_movement,
    );
    let cr = crate::ledge::update_crane_state_spec(
        cfg,
        state_e,
        input0,
        wish,
        vel_e,
        queries.crane_probe,
    );
    let mn = crate::ledge::update_mantle_state_spec(cfg, cr.0, cr.1, wish, queries.mantle_probe);
    (mn.0, mn.1, pos_a, vel_e, wish, wish3)
}

/// The movement branch of one tick: the active vault, the active mantle, or
/// jump resolution, friction, validation and the dispatched locomotion.
pub open spec fn tick_branch_spec(
    cfg: CharacterController,
    state_g: CharacterControllerState,
    input_g: AccumulatedInput,
    pos_a: Vec3,
    vel_e: Vec3,
    water: WaterState,
    wish: Vec3,
    wish3: Vec3,
    queries: TickQueries,
    dt: int,
) -> (CharacterControllerState, AccumulatedInput, Vec3, Vec3, Seq<crate::sweep::TouchingEntity>) {
    let wet = water.level.rank_spec() > 1;
    if state_g.crane_height_left is Some {
        let out = crate::ledge::handle_crane_movement_spec(
            cfg,
            state_g,
            pos_a,
            vel_e,
            wish,
            queries.crane_move,
            dt,
        );
        (
            out.0,
            input_g,
            out.1,
            out.2,
            crate::ledge::crane_touches_spec(cfg, state_g, vel_e, wish, queries.crane_move, dt),
        )
    } else if state_g.mantle_progress is Some {
        let out = crate::ledge::handle_mantle_movement_spec(
            cfg,
            state_g,
            pos_a,
            vel_e,
            wish3,
            queries.mantle_move,
            dt,
        );
        (
            out.0,
            input_g,
            out.1,
            out.2,
            crate::ledge::mantle_touches_spec(cfg, state_g, wish3, queries.mantle_move),
        )
    } else {
        let jp = crate::jump::handle_jump_spec(
            cfg,
            state_g,
            input_g,
            vel_e,
            pos_a,
            wish,
            queries.jump,
            dt,
        );
        let vel_i = crate::accel::friction_applied_spec(cfg, jp.0, water, jp.2, dt);
        let vel_j = clamp_speed_spec(cfg.max_speed as int, vel_i);
        if wet {
            let out = water_move_spec(
                cfg,
                jp.0,
                jp.1,
                pos_a,
                vel_j,
                wish3,
                queries.locomotion.step,
                dt,
            );
            (
                out.0,
                out.1,
                out.2,
                out.3,
                crate::step::step_touches_spec(cfg, pos_a, queries.locomotion.step),
            )
        } else if jp.0.grounded is Some {
            let out = ground_move_spec(cfg, jp.0, pos_a, vel_j, wish, queries.locomotion, dt);
            (
                out.0,
                jp.1,
                out.1,
                out.2,
                ground_touches_spec(cfg, jp.0, pos_a, vel_j, wish, queries.locomotion, dt),
            )
        } else {
            let out = air_move_spec(cfg, jp.0, pos_a, vel_j, wish, queries.locomotion.step, dt);
            (
                out.0,
                jp.1,
                out.1,
                out.2,
                crate::step::step_touches_spec(cfg, pos_a, queries.locomotion.step),
            )
        }
    }
}

/// Run one fixed simulation tick, in the load-bearing order: clear the
/// per-tick contacts and age the stopwatches; depenetrate; classify
/// grounding; resolve the crouch toggle; apply the first gravity half-step
/// (unless submerged above the feet); recompute the look orientation from
/// the linked camera, falling back to the body; derive the wish velocities;
/// update vault then mantle availability (vault takes precedence); then
/// either advance the active vault or mantle, or resolve jumps and
/// wall-jumps, apply friction, validate the velocity and move through
/// water, along the ground or through the air; finally re-classify
/// grounding, validate again, apply the second gravity half-step, and while
/// grounded overwrite the vertical velocity with the platform's and reset
/// the grounded stopwatch.
///
/// The vault cast is consumed only when a vault is active this tick, and
/// likewise for the mantle and locomotion queries; unused entries are
/// ignored. On return the velocity is finite and no longer than
/// `max_speed` (while airborne), or its horizontal part is and its vertical
/// component equals the platform's (while grounded); the drive modes stay
/// mutually exclusive.
#[verifier::rlimit(100)]
#[verifier::spinoff_prover]
pub fn run_kcc(
    cfg: &CharacterController,
    state: &mut CharacterControllerState,
    input: &mut AccumulatedInput,
    position: &mut Vec3,
    velocity: &mut Vec3,
    water: &WaterState,
    cam_orientation: Option<Orientation>,
    body_orientation: Orientation,
    queries: &TickQueries,
    dt: i64,
)
    requires
        cfg.wf(),
        old(state).wf(),
        old(input).wf(),
        old(position).in_range(crate::math::COORD_LIMIT as int),
        old(velocity).in_range(2_000_000),
        water.wf(),
        match cam_orientation {
            Some(o) => o.wf(),
            None => true,
        },
        body_orientation.wf(),
        queries.wf(*cfg),
        0 < dt <= 1_000,
    ensures
        final(state).wf(),
        final(input).wf(),
        final(position).in_range(710_000_000),
        final(state).grounded is None ==> final(velocity).norm_sq() <= (cfg.max_speed as int) * (
        cfg.max_speed as int),
        final(state).grounded is Some ==> {
            &&& final(velocity).y == final(state).base_velocity.y
            &&& (final(velocity).x as int) * (final(velocity).x as int) + (final(velocity).z as int) * (final(velocity).z as int) <= (cfg.max_speed as int) * (
            cfg.max_speed as int)
            &&& final(state).last_ground == 0
        },
        final(velocity).in_range(2_000_000),
        water.level.rank_spec() > 1 ==> final(state).grounded is None,
        queries.ground_end is None ==> final(state).grounded is None,
        final(state).grounded is Some ==> final(state).grounded == queries.ground_end
            && queries.ground_end->Some_0.normal.y >= cfg.min_walk_cos,
        final(state).orientation == (match cam_orientation {
            Some(o) => o,
            None => body_orientation,
        }),
        ({
            let out = tick_spec(
                *cfg,
                *old(state),
                *old(input),
                *old(position),
                *old(velocity),
                *water,
                cam_orientation,
                body_orientation,
                *queries,
                dt as int,
            );
            &&& *final(state) == (CharacterControllerState {
                touching_entities: final(state).touching_entities,
                ..out.0
            })
            &&& *final(input) == out.1
            &&& *final(position) == out.2
            &&& *final(velocity) == out.3
            &&& final(state).touching_entities@ == out.4
        }),
{
    let w = tick_prelude(
        cfg,
        state,
        input,
        position,
        velocity,
        water,
        cam_orientation,
        body_orientation,
        queries,
        dt,
    );
    let wish_velocity = w.0;
    let wish_velocity_3d = w.1;
    let ghost pre = tick_prelude_spec(
        *cfg,
        *old(state),
        *old(input),
        *old(position),
        *old(velocity),
        *water,
        cam_orientation,
        body_orientation,
        *queries,
        dt as int,
    );
    let ghost wet = water.level.rank_spec() > 1;
    tick_move(
        cfg,
        state,
        input,
        position,
        velocity,
        water,
        wish_velocity,
        wish_velocity_3d,
        Ghost(pre),
        queries,
        dt,
    );
    let ghost br = tick_branch_spec(
        *cfg,
        pre.0,
        pre.1,
        pre.2,
        pre.3,
        *water,
        pre.4,
        pre.5,
        *queries,
        dt as int,
    );
    proof {
        assert(*state == (CharacterControllerState {
            touching_entities: state.touching_entities,
            ..br.0
        }));
        assert(*input == br.1);
        assert(*position == br.2);
        assert(*velocity == br.3);
        assert(state.touching_entities@ =~= br.4);
    }
    finish_tick(cfg, state, velocity, *position, water, queries.ground_end, queries.platform_end, dt);
    proof {
        let gr2 = crate::grounding::update_grounded_spec(
            *cfg,
            br.0,
            br.3,
            br.2,
            *water,
            queries.ground_end,
            queries.platform_end,
            dt as int,
        );
        assert(*state == (CharacterControllerState {
            touching_entities: state.touching_entities,
            ..(if gr2.0.grounded is Some {
                CharacterControllerState { last_ground: 0, ..gr2.0 }
            } else {
                gr2.0
            })
        }));
    }
}

/// The pre-movement stages of one tick, committed in order: contacts
/// cleared, stopwatches aged, depenetration, grounding, crouch, the first
/// gravity half-step, the look orientation and the climb availability
/// checks. Returns the two wish velocities at the branch point.
#[verifier::rlimit(100)]
#[verifier::spinoff_prover]
pub fn tick_prelude(
    cfg: &CharacterController,
    state: &mut CharacterControllerState,
    input: &mut AccumulatedInput,
    position: &mut Vec3,
    velocity: &mut Vec3,
    water: &WaterState,
    cam_orientation: Option<Orientation>,
    body_orientation: Orientation,
    queries: &TickQueries,
    dt: i64,
) -> (w: (Vec3, Vec3))
    requires
        cfg.wf(),
        old(state).wf(),
        old(input).wf(),
        old(position).in_range(crate::math::COORD_LIMIT as int),
        old(velocity).in_range(2_000_000),
        water.wf(),
        match cam_orientation {
            Some(o) => o.wf(),
            None => true,
        },
        body_orientation.wf(),
        queries.wf(*cfg),
        0 < dt <= 1_000,
    ensures
        ({
            let pre = tick_prelude_spec(
                *cfg,
                *old(state),
                *old(input),
                *old(position),
                *old(velocity),
                *water,
                cam_orientation,
                body_orientation,
                *queries,
                dt as int,
            );
            &&& *final(state) == (CharacterControllerState {
                touching_entities: final(state).touching_entities,
                ..pre.0
            })
            &&& *final(input) == pre.1
            &&& *final(position) == pre.2
            &&& *final(velocity) == pre.3
            &&& w.0 == pre.4
            &&& w.1 == pre.5
        }),
        final(state).touching_entities@ == Seq::<crate::sweep::TouchingEntity>::empty(),
        final(state).wf(),
        final(input).wf(),
        final(position).in_range(POS_WORK as int),
        final(velocity).in_range(2_000_000),
        w.0.in_range(2_000_000),
        w.1.in_range(2_000_000),
{
    let ghost s0 = *old(state);
    let ghost i0 = *old(input);
    let ghost p0 = *old(position);
    let ghost v0 = *old(velocity);
    state.touching_entities = Vec::new();
    state.last_ground = tick_timer(state.last_ground, dt);
    state.last_tac = tick_timer(state.last_tac, dt);
    state.last_step_up = tick_timer(state.last_step_up, dt);
    state.last_step_down = tick_timer(state.last_step_down, dt);
    let ghost state_a = (CharacterControllerState {
        last_ground: crate::input::tick_timer_spec(s0.last_ground as int, dt as int) as i64,
        last_tac: crate::input::tick_timer_spec(s0.last_tac as int, dt as int) as i64,
        last_step_up: crate::input::tick_timer_spec(s0.last_step_up as int, dt as int) as i64,
        last_step_down: crate::input::tick_timer_spec(s0.last_step_down as int, dt as int) as i64,
        ..s0
    });
    proof {
        assert(*state == (CharacterControllerState {
            touching_entities: state.touching_entities,
            ..state_a
        }));
        assert(state.touching_entities@ =~= Seq::<crate::sweep::TouchingEntity>::empty());
    }

    depenetrate_character(position, queries.depen);
    let ghost pos_a = (Vec3 {
        x: (p0.x + queries.depen.x) as i64,
        y: (p0.y + queries.depen.y) as i64,
        z: (p0.z + queries.depen.z) as i64,
    });
    update_grounded(
        cfg,
        state,
        velocity,
        *position,
        water,
        queries.ground_start,
        queries.platform_start,
        dt,
    );
    let ghost gr = crate::grounding::update_grounded_spec(
        *cfg,
        state_a,
        v0,
        pos_a,
        *water,
        queries.ground_start,
        queries.platform_start,
        dt as int,
    );
    proof {
        assert(*state == (CharacterControllerState {
            touching_entities: state.touching_entities,
            ..gr.0
        }));
        assert(*velocity == gr.1);
    }
    handle_crouching(state, input, &queries.stand_hits);
    let ghost state_c = (CharacterControllerState {
        crouching: crate::grounding::handle_crouching_spec(gr.0, i0.crouched, queries.stand_hits@),
        ..gr.0
    });
    proof {
        assert(*state == (CharacterControllerState {
            touching_entities: state.touching_entities,
            ..state_c
        }));
    }

    if !water.level.above_feet() {
        start_gravity(cfg, state, velocity, dt);
    }
    let ghost wet = water.level.rank_spec() > 1;
    let ghost grav = if !wet {
        crate::accel::start_gravity_spec(*cfg, state_c, gr.1, dt as int)
    } else {
        (state_c, gr.1)
    };
    proof {
        assert(*state == (CharacterControllerState {
            touching_entities: state.touching_entities,
            ..grav.0
        }));
        assert(*velocity == grav.1);
    }
    state.orientation = match cam_orientation {
        Some(o) => o,
        None => body_orientation,
    };
    let ghost state_e = (CharacterControllerState {
        orientation: (match cam_orientation {
            Some(o) => o,
            None => body_orientation,
        }),
        ..grav.0
    });

    let wish_velocity = calculate_wish_velocity(cfg, state, input);
    let wish_velocity_3d = calculate_3d_wish_velocity(cfg, state, input);
    proof {
        assert(wish_velocity == crate::accel::wish_velocity_spec(
            *cfg,
            state_e.orientation,
            state_e.crouching,
            i0.last_movement,
        ));
        assert(wish_velocity_3d == crate::accel::wish_velocity_3d_spec(
            *cfg,
            state_e.orientation,
            state_e.crouching,
            i0.last_movement,
        ));
    }
    update_crane_state(cfg, state, input, wish_velocity, *velocity, &queries.crane_probe);
    let ghost cr = crate::ledge::update_crane_state_spec(
        *cfg,
        state_e,
        i0,
        wish_velocity,
        grav.1,
        queries.crane_probe,
    );
    proof {
        assert(*state == (CharacterControllerState {
            touching_entities: state.touching_entities,
            ..cr.0
        }));
        assert(*input == cr.1);
    }
    update_mantle_state(cfg, state, input, wish_velocity, &queries.mantle_probe);
    let ghost mn = crate::ledge::update_mantle_state_spec(
        *cfg,
        cr.0,
        cr.1,
        wish_velocity,
        queries.mantle_probe,
    );
    proof {
        assert(*state == (CharacterControllerState {
            touching_entities: state.touching_entities,
            ..mn.0
        }));
        assert(*input == mn.1);
    }
    (wish_velocity, wish_velocity_3d)
}


/// The movement branch of one tick, committed in order: the active vault,
/// the active mantle, or jump resolution, friction, validation and the
/// dispatched locomotion.
#[verifier::rlimit(100)]
#[verifier::spinoff_prover]
pub fn tick_move(
    cfg: &CharacterController,
    state: &mut CharacterControllerState,
    input: &mut AccumulatedInput,
    position: &mut Vec3,
    velocity: &mut Vec3,
    water: &WaterState,
    wish_velocity: Vec3,
    wish_velocity_3d: Vec3,
    Ghost(pre): Ghost<(CharacterControllerState, AccumulatedInput, Vec3, Vec3, Vec3, Vec3)>,
    queries: &TickQueries,
    dt: i64,
)
    requires
        cfg.wf(),
        old(state).wf(),
        old(input).wf(),
        old(position).in_range(POS_WORK as int),
        old(velocity).in_range(2_000_000),
        water.wf(),
        wish_velocity.in_range(2_000_000),
        wish_velocity_3d.in_range(2_000_000),
        queries.wf(*cfg),
        0 < dt <= 1_000,
        *old(state) == (CharacterControllerState {
            touching_entities: old(state).touching_entities,
            ..pre.0
        }),
        *old(input) == pre.1,
        *old(position) == pre.2,
        *old(velocity) == pre.3,
        wish_velocity == pre.4,
        wish_velocity_3d == pre.5,
        old(state).touching_entities@ == Seq::<crate::sweep::TouchingEntity>::empty(),
    ensures
        final(state).wf(),
        final(input).wf(),
        final(position).in_range(703_000_000),
        final(velocity).in_range(60_000_000),
        ({
            let br = tick_branch_spec(
                *cfg,
                pre.0,
                pre.1,
                pre.2,
                pre.3,
                *water,
                pre.4,
                pre.5,
                *queries,
                dt as int,
            );
            &&& *final(state) == (CharacterControllerState {
                touching_entities: final(state).touching_entities,
                ..br.0
            })
            &&& *final(input) == br.1
            &&& *final(position) == br.2
            &&& *final(velocity) == br.3
            &&& final(state).touching_entities@ == br.4
        }),
{

    if state.crane_height_left.is_some() {
        handle_crane_movement(
            cfg,
            state,
            position,
            velocity,
            wish_velocity,
            &queries.crane_move,
            dt,
        );
        proof {
            let out = crate::ledge::handle_crane_movement_spec(
                *cfg,
                pre.0,
                pre.2,
                pre.3,
                wish_velocity,
                queries.crane_move,
                dt as int,
            );
            assert(*state == (CharacterControllerState {
                touching_entities: state.touching_entities,
                ..out.0
            }));
            assert(*position == out.1);
            assert(*velocity == out.2);
            assert(state.touching_entities@ =~= crate::ledge::crane_touches_spec(
                *cfg,
                pre.0,
                pre.3,
                wish_velocity,
                queries.crane_move,
                dt as int,
            ));
        }
    } else if state.mantle_progress.is_some() {
        handle_mantle_movement(
            cfg,
            state,
            position,
            velocity,
            wish_velocity_3d,
            &queries.mantle_move,
            dt,
        );
        proof {
            let out = crate::ledge::handle_mantle_movement_spec(
                *cfg,
                pre.0,
                pre.2,
                pre.3,
                wish_velocity_3d,
                queries.mantle_move,
                dt as int,
            );
            assert(*state == (CharacterControllerState {
                touching_entities: state.touching_entities,
                ..out.0
            }));
            assert(*position == out.1);
            assert(*velocity == out.2);
            assert(state.touching_entities@ =~= crate::ledge::mantle_touches_spec(
                *cfg,
                pre.0,
                wish_velocity_3d,
                queries.mantle_move,
            ));
        }
    } else {
        handle_jump(cfg, state, input, velocity, *position, wish_velocity, &queries.jump, dt);
        let ghost jp = crate::jump::handle_jump_spec(
            *cfg,
            pre.0,
            pre.1,
            pre.3,
            pre.2,
            wish_velocity,
            queries.jump,
            dt as int,
        );
        proof {
            assert(*state == (CharacterControllerState {
                touching_entities: state.touching_entities,
                ..jp.0
            }));
            assert(*input == jp.1);
            assert(*velocity == jp.2);
        }
        // Friction runs before any platform velocity is folded in, so a
        // conveyor does not slow a character standing still relative to it.
        friction(cfg, state, water, velocity, dt);
        let ghost vel_i = crate::accel::friction_applied_spec(*cfg, jp.0, *water, jp.2, dt as int);
        proof {
            assert(*velocity == vel_i);
        }
        validate_velocity(cfg, velocity);
        let ghost vel_j = clamp_speed_spec(cfg.max_speed as int, vel_i);
        proof {
            assert(*velocity == vel_j);
        }
        if water.level.above_feet() {
            water_move(
                cfg,
                state,
                input,
                position,
                velocity,
                wish_velocity_3d,
                &queries.locomotion.step,
                dt,
            );
            proof {
                let out = water_move_spec(
                    *cfg,
                    jp.0,
                    jp.1,
                    pre.2,
                    vel_j,
                    wish_velocity_3d,
                    queries.locomotion.step,
                    dt as int,
                );
                assert(*state == (CharacterControllerState {
                    touching_entities: state.touching_entities,
                    ..out.0
                }));
                assert(*input == out.1);
                assert(*position == out.2);
                assert(*velocity == out.3);
                assert(state.touching_entities@ =~= crate::step::step_touches_spec(
                    *cfg,
                    pre.2,
                    queries.locomotion.step,
                ));
            }
        } else if state.grounded.is_some() {
            ground_move(cfg, state, position, velocity, wish_velocity, &queries.locomotion, dt);
            proof {
                let out = ground_move_spec(
                    *cfg,
                    jp.0,
                    pre.2,
                    vel_j,
                    wish_velocity,
                    queries.locomotion,
                    dt as int,
                );
                assert(*state == (CharacterControllerState {
                    touching_entities: state.touching_entities,
                    ..out.0
                }));
                assert(*position == out.1);
                assert(*velocity == out.2);
                assert(state.touching_entities@ =~= ground_touches_spec(
                    *cfg,
                    jp.0,
                    pre.2,
                    vel_j,
                    wish_velocity,
                    queries.locomotion,
                    dt as int,
                ));
            }
        } else {
            air_move(cfg, state, position, velocity, wish_velocity, &queries.locomotion.step, dt);
            proof {
                let out = air_move_spec(
                    *cfg,
                    jp.0,
                    pre.2,
                    vel_j,
                    wish_velocity,
                    queries.locomotion.step,
                    dt as int,
                );
                assert(*state == (CharacterControllerState {
                    touching_entities: state.touching_entities,
                    ..out.0
                }));
                assert(*position == out.1);
                assert(*velocity == out.2);
                assert(state.touching_entities@ =~= crate::step::step_touches_spec(
                    *cfg,
                    pre.2,
                    queries.locomotion.step,
                ));
            }
        }
    }
}


/// The closing stages of one tick, committed in order: the second grounding
/// classification from the post-move pose, validation, the second gravity
/// half-step, and the grounded commit of the platform's vertical velocity.
#[verifier::rlimit(100)]
#[verifier::spinoff_prover]
pub fn finish_tick(
    cfg: &CharacterController,
    state: &mut CharacterControllerState,
    velocity: &mut Vec3,
    position: Vec3,
    water: &WaterState,
    ground_end: Option<crate::sweep::CastHit>,
    platform_end: Option<crate::sweep::PlatformInfo>,
    dt: i64,
)
    requires
        cfg.wf(),
        old(state).wf(),
        old(velocity).in_range(60_000_000),
        position.in_range(703_000_000),
        water.wf(),
        match ground_end {
            Some(h) => h.wf(),
            None => true,
        },
        match platform_end {
            Some(p) => p.wf(),
            None => true,
        },
        0 < dt <= 1_000,
    ensures
        final(state).wf(),
        final(velocity).in_range(2_000_000),
        final(state).grounded is None ==> final(velocity).norm_sq() <= (cfg.max_speed as int) * (
        cfg.max_speed as int),
        final(state).grounded is Some ==> {
            &&& final(velocity).y == final(state).base_velocity.y
            &&& (final(velocity).x as int) * (final(velocity).x as int) + (final(velocity).z as int) * (final(velocity).z as int) <= (cfg.max_speed as int) * (
            cfg.max_speed as int)
            &&& final(state).last_ground == 0
        },
        water.level.rank_spec() > 1 ==> final(state).grounded is None,
        ground_end is None ==> final(state).grounded is None,
        final(state).grounded is Some ==> final(state).grounded == ground_end
            && ground_end->Some_0.normal.y >= cfg.min_walk_cos,
        final(state).touching_entities == old(state).touching_entities,
        ({
            let gr2 = crate::grounding::update_grounded_spec(
                *cfg,
                *old(state),
                *old(velocity),
                position,
                *water,
                ground_end,
                platform_end,
                dt as int,
            );
            let vel_m = clamp_speed_spec(cfg.max_speed as int, gr2.1);
            let vel_n = if !(water.level.rank_spec() > 1) {
                crate::accel::finish_gravity_spec(*cfg, vel_m, dt as int)
            } else {
                vel_m
            };
            if gr2.0.grounded is Some {
                &&& *final(state) == (CharacterControllerState { last_ground: 0, ..gr2.0 })
                &&& *final(velocity) == (Vec3 {
                    x: vel_n.x,
                    y: gr2.0.base_velocity.y,
                    z: vel_n.z,
                })
            } else {
                &&& *final(state) == gr2.0
                &&& *final(velocity) == vel_n
            }
        }),
{
    let ghost wet = water.level.rank_spec() > 1;
    update_grounded(cfg, state, velocity, position, water, ground_end, platform_end, dt);
    let ghost gr2 = crate::grounding::update_grounded_spec(
        *cfg,
        *old(state),
        *old(velocity),
        position,
        *water,
        ground_end,
        platform_end,
        dt as int,
    );
    proof {
        assert(*state == (CharacterControllerState {
            touching_entities: state.touching_entities,
            ..gr2.0
        }));
        assert(*velocity == gr2.1);
    }
    validate_velocity(cfg, velocity);
    let ghost vel_m = clamp_speed_spec(cfg.max_speed as int, gr2.1);

    if !water.level.above_feet() {
        finish_gravity(cfg, velocity, dt);
    }
    let ghost vel_n = if !wet {
        crate::accel::finish_gravity_spec(*cfg, vel_m, dt as int)
    } else {
        vel_m
    };
    proof {
        assert(*velocity == vel_n);
    }
    if state.grounded.is_some() {
        let vx = velocity.x;
        let vz = velocity.z;
        proof {
            assert(vx as int * vx as int + velocity.y as int * velocity.y as int + vz as int
                * vz as int == velocity.norm_sq());
            assert(velocity.y as int * velocity.y as int >= 0) by (nonlinear_arith);
            assert(vx as int * vx as int >= 0) by (nonlinear_arith);
        }
        velocity.y = state.base_velocity.y;
        state.last_ground = 0;
    }
}

} // verus!