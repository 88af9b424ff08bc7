//! Buffered jumps with coyote time, and the airborne wall-jump ("tic-tac").

use vstd::prelude::*;
use crate::math::{
    Vec3, fmul, sqrt_floor, mul_fp, imin, imax, isqrt64, lemma_div_t_mag, lemma_fmul_mag,
    lemma_mul_mag, FP, CFG_LIMIT,
};
use crate::config::CharacterController;
use crate::state::{CharacterControllerState, tick_timer};
use crate::sweep::{CastHit, PlatformInfo};
use crate::input::{AccumulatedInput, tick_timer_spec};
use crate::grounding::set_grounded;
use crate::step::POS_WORK;

verus! {

/// The wall normal a wall-jump works against: the first hit when casting
/// along the current velocity, else along the wish velocity, else none.
pub open spec fn tac_normal_spec(vel_cast: Option<CastHit>, wish_cast: Option<CastHit>) -> Option<
    Vec3,
> {
    match vel_cast {
        Some(h) => Some(h.normal),
        None => match wish_cast {
            Some(h) => Some(h.normal),
            None => None,
        },
    }
}

/// Whether a wall-jump fires: the input must be buffered within its window,
/// the wish speed must exceed the minimum, the cooldown must have passed, a
/// wall must be found, it must not be a ceiling, and its angle to the wish
/// direction must lie within the configured cone.
pub open spec fn tac_accepts(
    cfg: CharacterController,
    state: CharacterControllerState,
    input: AccumulatedInput,
    wish_velocity: Vec3,
    vel_cast: Option<CastHit>,
    wish_cast: Option<CastHit>,
) -> bool {
    &&& match input.tac {
        Some(t) => t <= cfg.tac_input_buffer,
        None => false,
    }
    &&& wish_velocity.norm_sq() >= 100_000
    &&& state.last_tac >= cfg.tac_cooldown
    &&& match tac_normal_spec(vel_cast, wish_cast) {
        Some(n) => n.y >= -10 && -wish_velocity.unit_spec().dot_spec(n) <= cfg.max_tac_cos,
        None => false,
    }
}

/// The velocity after cancelling the component into the wall.
pub open spec fn tac_cancelled_velocity_spec(velocity: Vec3, n: Vec3) -> Vec3 {
    let d = velocity.dot_spec(n);
    let vd = if d <= 0 {
        d
    } else {
        0
    };
    Vec3 {
        x: (velocity.x - fmul(vd, n.x as int)) as i64,
        y: (velocity.y - fmul(vd, n.y as int)) as i64,
        z: (velocity.z - fmul(vd, n.z as int)) as i64,
    }
}

/// The wall-jump direction scaled by the spent energy: an upward bias plus
/// the wish direction redirected out of the wall, normalised, times the
/// accumulated groundedness energy (at most one unit) times the configured
/// power.
pub open spec fn tac_impulse_spec(
    cfg: CharacterController,
    tac_velocity: int,
    wish_velocity: Vec3,
    velocity: Vec3,
    n: Vec3,
) -> Vec3 {
    let wish_unit = wish_velocity.unit_spec();
    let wd = wish_unit.dot_spec(n);
    let wdm = if wd <= 0 {
        wd
    } else {
        0
    };
    let tac_wish = Vec3 {
        x: (wish_unit.x - fmul(wdm - FP, n.x as int)) as i64,
        y: wish_unit.y,
        z: (wish_unit.z - fmul(wdm - FP, n.z as int)) as i64,
    };
    let pre = Vec3 { x: tac_wish.x, y: (cfg.tac_jump_factor + tac_wish.y) as i64, z: tac_wish.z };
    let dir = pre.unit_spec();
    let d = velocity.dot_spec(n);
    let vd = if d <= 0 {
        d
    } else {
        0
    };
    let g0 = if tac_velocity >= vd {
        tac_velocity
    } else {
        vd
    };
    let g = if g0 <= FP {
        g0
    } else {
        FP as int
    };
    let k = fmul(g, cfg.tac_power as int);
    Vec3 {
        x: fmul(dir.x as int, k) as i64,
        y: fmul(dir.y as int, k) as i64,
        z: fmul(dir.z as int, k) as i64,
    }
}

/// What one wall-jump attempt yields: the state, the velocity and the
/// returned impulse.
pub open spec fn handle_tac_spec(
    cfg: CharacterController,
    state: CharacterControllerState,
    input: AccumulatedInput,
    velocity: Vec3,
    wish_velocity: Vec3,
    vel_cast: Option<CastHit>,
    wish_cast: Option<CastHit>,
) -> (CharacterControllerState, Vec3, Option<Vec3>) {
    if !tac_accepts(cfg, state, input, wish_velocity, vel_cast, wish_cast) {
        (state, velocity, None)
    } else {
        let n = tac_normal_spec(vel_cast, wish_cast)->Some_0;
        (
            CharacterControllerState { tac_velocity: 0, ..state },
            tac_cancelled_velocity_spec(velocity, n),
            Some(tac_impulse_spec(cfg, state.tac_velocity as int, wish_velocity, velocity, n)),
        )
    }
}

/// Attempt a wall-jump: find a wall along the current velocity (or, failing
/// that, the wish velocity), and when every gate of [`tac_accepts`] passes,
/// cancel the velocity into the wall, spend the stored groundedness energy
/// and return the redirect direction scaled by it. When any gate fails,
/// nothing changes and nothing is returned.
///
/// `vel_cast` is the cast of `velocity * dt` from the current pose;
/// `wish_cast` the cast of `wish_velocity * dt`.
pub fn handle_tac(
    cfg: &CharacterController,
    state: &mut CharacterControllerState,
    input: &AccumulatedInput,
    velocity: &mut Vec3,
    wish_velocity: Vec3,
    vel_cast: Option<CastHit>,
    wish_cast: Option<CastHit>,
) -> (r: Option<Vec3>)
    requires
        cfg.wf(),
        old(state).wf(),
        input.wf(),
        old(velocity).in_range(8_000_000),
        wish_velocity.in_range(2_000_000),
        match vel_cast {
            Some(h) => h.wf(),
            None => true,
        },
        match wish_cast {
            Some(h) => h.wf(),
            None => true,
        },
    ensures
        final(state).wf(),
        ({
            let out = handle_tac_spec(
                *cfg,
                *old(state),
                *input,
                *old(velocity),
                wish_velocity,
                vel_cast,
                wish_cast,
            );
            *final(state) == out.0 && *final(velocity) == out.1 && r == out.2
        }),
        r is Some <==> tac_accepts(*cfg, *old(state), *input, wish_velocity, vel_cast, wish_cast),
        r is None ==> *final(state) == *old(state) && *final(velocity) == *old(velocity),
        r is Some ==> {
            let n = tac_normal_spec(vel_cast, wish_cast)->Some_0;
            &&& *final(velocity) == tac_cancelled_velocity_spec(*old(velocity), n)
            &&& r == Some(
                tac_impulse_spec(
                    *cfg,
                    old(state).tac_velocity as int,
                    wish_velocity,
                    *old(velocity),
                    n,
                ),
            )
            &&& final(state).tac_velocity == 0
            &&& *final(state) == (CharacterControllerState { tac_velocity: 0, ..*old(state) })
        },
        final(velocity).in_range(40_000_000),
        match r {
            Some(v) => v.in_range(CFG_LIMIT as int),
            None => true,
        },
{
    let buffered = match input.tac {
        Some(t) => t <= cfg.tac_input_buffer,
        None => false,
    };
    if !buffered {
        return None;
    }
    let wish_sq = wish_velocity.norm_sq_i();
    if wish_sq < 100_000 || state.last_tac < cfg.tac_cooldown {
        return None;
    }
    let n = match vel_cast {
        Some(h) => h.normal,
        None => match wish_cast {
            Some(h) => h.normal,
            None => {
                return None;
            },
        },
    };
    if n.y < -10 {
        return None;
    }
    let wish_unit = wish_velocity.normalize_or_zero();
    let wish_dot = wish_unit.dot(n);
    if -wish_dot > cfg.max_tac_cos {
        return None;
    }
    proof {
        lemma_mul_mag(old(velocity).x as int, n.x as int, 8_000_000, 1_000);
        lemma_mul_mag(old(velocity).y as int, n.y as int, 8_000_000, 1_000);
        lemma_mul_mag(old(velocity).z as int, n.z as int, 8_000_000, 1_000);
        lemma_div_t_mag(
            (old(velocity).x as int) * (n.x as int) + (old(velocity).y as int) * (n.y as int) + (
            old(velocity).z as int) * (n.z as int),
            FP as int,
            3int * 8_000_000 * 1_000,
        );
    }
    let vel_dot = imin(velocity.dot(n), 0);
    proof {
        lemma_fmul_mag(vel_dot as int, n.x as int, 24_000_000, 1_000);
        lemma_fmul_mag(vel_dot as int, n.y as int, 24_000_000, 1_000);
        lemma_fmul_mag(vel_dot as int, n.z as int, 24_000_000, 1_000);
    }
    let cancelled = Vec3 {
        x: velocity.x - mul_fp(vel_dot, n.x),
        y: velocity.y - mul_fp(vel_dot, n.y),
        z: velocity.z - mul_fp(vel_dot, n.z),
    };
    *velocity = cancelled;
    let groundedness = imin(imax(state.tac_velocity, vel_dot), FP);
    state.tac_velocity = 0;
    let wdm = imin(wish_dot, 0);
    proof {
        lemma_fmul_mag(wdm as int - FP as int, n.x as int, 8_000, 1_000);
        lemma_fmul_mag(wdm as int - FP as int, n.z as int, 8_000, 1_000);
    }
    let tac_wish = Vec3 {
        x: wish_unit.x - mul_fp(wdm - FP, n.x),
        y: wish_unit.y,
        z: wish_unit.z - mul_fp(wdm - FP, n.z),
    };
    let pre = Vec3 { x: tac_wish.x, y: cfg.tac_jump_factor + tac_wish.y, z: tac_wish.z };
    let dir = pre.normalize_or_zero();
    proof {
        lemma_fmul_mag(groundedness as int, cfg.tac_power as int, FP as int, CFG_LIMIT as int);
        lemma_fmul_mag(dir.x as int, fmul(groundedness as int, cfg.tac_power as int), FP as int, CFG_LIMIT as int);
        lemma_fmul_mag(dir.y as int, fmul(groundedness as int, cfg.tac_power as int), FP as int, CFG_LIMIT as int);
        lemma_fmul_mag(dir.z as int, fmul(groundedness as int, cfg.tac_power as int), FP as int, CFG_LIMIT as int);
    }
    let k = mul_fp(groundedness, cfg.tac_power);
    Some(Vec3 { x: mul_fp(dir.x, k), y: mul_fp(dir.y, k), z: mul_fp(dir.z, k) })
}

/// The upward launch speed for the configured jump height: the speed a body
/// falling from `jump_height` under `gravity` reaches the ground with.
pub open spec fn jump_speed_spec(cfg: CharacterController) -> int {
    sqrt_floor(2 * cfg.jump_height * cfg.gravity)
}

/// The queries the jump resolver consumes: the two wall casts for the
/// airborne wall-jump, and the motion of the body the character leaves when
/// a grounded jump fires.
#[derive(Clone, Copy, PartialEq, Eq, Structural, Debug)]
pub struct JumpQueries {
    pub vel_cast: Option<CastHit>,
    pub wish_cast: Option<CastHit>,
    pub platform: Option<PlatformInfo>,
}

impl JumpQueries {
    pub open spec fn wf(self) -> bool {
        &&& match self.vel_cast {
            Some(h) => h.wf(),
            None => true,
        }
        &&& match self.wish_cast {
            Some(h) => h.wf(),
            None => true,
        }
        &&& match self.platform {
            Some(p) => p.wf(),
            None => true,
        }
    }
}

/// Whether the grounded/coyote jump path is taken (rather than the airborne
/// wall-jump path).
pub open spec fn jump_window_spec(cfg: CharacterController, state: CharacterControllerState) -> bool {
    !(state.grounded is None && state.last_ground > cfg.coyote_time)
}

/// What one jump resolution yields: the state, the input and the velocity.
pub open spec fn handle_jump_spec(
    cfg: CharacterController,
    state: CharacterControllerState,
    input: AccumulatedInput,
    velocity: Vec3,
    position: Vec3,
    wish_velocity: Vec3,
    queries: JumpQueries,
    dt: int,
) -> (CharacterControllerState, AccumulatedInput, Vec3) {
    if jump_window_spec(cfg, state) {
        match input.jumped {
            Some(t) => if t <= cfg.jump_input_buffer {
                let sg = crate::grounding::set_grounded_spec(
                    state,
                    velocity,
                    position,
                    None,
                    queries.platform,
                    dt,
                );
                let state2 = CharacterControllerState {
                    last_ground: cfg.coyote_time,
                    last_tac: 0,
                    ..sg.0
                };
                let vel2 = Vec3 {
                    x: sg.1.x,
                    y: (sg.1.y + jump_speed_spec(cfg) + sg.0.base_velocity.y) as i64,
                    z: sg.1.z,
                };
                let input2 = AccumulatedInput {
                    jumped: None,
                    tac: None,
                    craned: chained_crane_spec(cfg, input.craned),
                    ..input
                };
                (state2, input2, vel2)
            } else {
                (state, input, velocity)
            },
            None => (state, input, velocity),
        }
    } else {
        let tac = handle_tac_spec(
            cfg,
            state,
            input,
            velocity,
            wish_velocity,
            queries.vel_cast,
            queries.wish_cast,
        );
        match tac.2 {
            Some(dir) => {
                let state2 = CharacterControllerState { last_tac: 0, ..tac.0 };
                let fl = jump_speed_spec(cfg);
                let vel2 = Vec3 {
                    x: (tac.1.x + fmul(dir.x as int, fl)) as i64,
                    y: (tac.1.y + fmul(dir.y as int, fl) + state2.base_velocity.y) as i64,
                    z: (tac.1.z + fmul(dir.z as int, fl)) as i64,
                };
                let input2 = AccumulatedInput {
                    jumped: None,
                    tac: None,
                    craned: chained_crane_spec(cfg, input.craned),
                    ..input
                };
                (state2, input2, vel2)
            },
            None => (state, input, velocity),
        }
    }
}

/// Resolve a buffered jump or wall-jump.
///
/// Grounded (or within coyote time of the ground), a jump buffered within
/// `jump_input_buffer` clears grounding, parks the grounded stopwatch at
/// exactly `coyote_time` so the same input cannot fire twice, and launches
/// upward at the speed for `jump_height`, on top of the platform's vertical
/// velocity. Airborne beyond coyote time, a wall-jump may substitute; its
/// impulse is scaled by the same launch speed. Firing either consumes the
/// jump and tac buffers and delays a chained vault input.
pub fn handle_jump(
    cfg: &CharacterController,
    state: &mut CharacterControllerState,
    input: &mut AccumulatedInput,
    velocity: &mut Vec3,
    position: Vec3,
    wish_velocity: Vec3,
    queries: &JumpQueries,
    dt: i64,
)
    requires
        cfg.wf(),
        old(state).wf(),
        old(input).wf(),
        old(velocity).in_range(8_000_000),
        wish_velocity.in_range(2_000_000),
        position.in_range(POS_WORK as int),
        queries.wf(),
        0 < dt <= 1_000,
    ensures
        final(state).wf(),
        final(input).wf(),
        final(velocity).in_range(VEL_AFTER_JUMP as int),
        final(state).orientation == old(state).orientation,
        ({
            let out = handle_jump_spec(
                *cfg,
                *old(state),
                *old(input),
                *old(velocity),
                position,
                wish_velocity,
                *queries,
                dt as int,
            );
            *final(state) == out.0 && *final(input) == out.1 && *final(velocity) == out.2
        }),
        jump_window_spec(*cfg, *old(state)) ==> (match old(input).jumped {
            Some(t) => if t <= cfg.jump_input_buffer {
                let base = (match (old(state).grounded, queries.platform) {
                    (Some(o), Some(p)) => crate::grounding::platform_velocity_spec(
                        p,
                        Vec3 { x: position.x, y: o.point.y, z: position.z },
                        dt as int,
                    ),
                    _ => old(state).base_velocity,
                });
                &&& final(state).grounded is None
                &&& final(state).last_ground == cfg.coyote_time
                &&& final(state).last_tac == 0
                &&& final(input).jumped is None
                &&& final(input).tac is None
                &&& final(velocity).x == old(velocity).x
                &&& final(velocity).z == old(velocity).z
                &&& final(velocity).y == old(velocity).y + jump_speed_spec(*cfg) + base.y
                &&& final(state).base_velocity == base
                &&& *final(state) == (CharacterControllerState {
                    grounded: None,
                    base_velocity: final(state).base_velocity,
                    last_ground: final(state).last_ground,
                    last_tac: 0,
                    ..*old(state)
                })
                &&& final(input).craned == chained_crane_spec(*cfg, old(input).craned)
            } else {
                *final(state) == *old(state) && *final(input) == *old(input) && *final(velocity)
                    == *old(velocity)
            },
            None => *final(state) == *old(state) && *final(input) == *old(input) && *final(velocity) == *old(velocity),
        }),
        !jump_window_spec(*cfg, *old(state)) ==> (if tac_accepts(
            *cfg,
            *old(state),
            *old(input),
            wish_velocity,
            queries.vel_cast,
            queries.wish_cast,
        ) {
            let n = tac_normal_spec(queries.vel_cast, queries.wish_cast)->Some_0;
            let v1 = tac_cancelled_velocity_spec(*old(velocity), n);
            let dir = tac_impulse_spec(
                *cfg,
                old(state).tac_velocity as int,
                wish_velocity,
                *old(velocity),
                n,
            );
            &&& final(velocity).x == v1.x + fmul(dir.x as int, jump_speed_spec(*cfg))
            &&& final(velocity).y == v1.y + fmul(dir.y as int, jump_speed_spec(*cfg)) + old(state).base_velocity.y
            &&& final(velocity).z == v1.z + fmul(dir.z as int, jump_speed_spec(*cfg))
            &&& final(state).tac_velocity == 0
            &&& final(state).last_tac == 0
            &&& *final(state) == (CharacterControllerState {
                tac_velocity: 0,
                last_tac: 0,
                ..*old(state)
            })
            &&& final(state).grounded == old(state).grounded
            &&& final(state).last_ground == old(state).last_ground
            &&& final(input).jumped is None
            &&& final(input).tac is None
            &&& final(input).craned == chained_crane_spec(*cfg, old(input).craned)
        } else {
            *final(state) == *old(state) && *final(input) == *old(input) && *final(velocity)
                == *old(velocity)
        }),
{
    let coyote_jump = !(state.grounded.is_none() && state.last_ground > cfg.coyote_time);
    let jumpdir: Vec3;
    if !coyote_jump {
        match handle_tac(
            cfg,
            state,
            input,
            velocity,
            wish_velocity,
            queries.vel_cast,
            queries.wish_cast,
        ) {
            Some(dir) => {
                jumpdir = dir;
            },
            None => {
                return ;
            },
        }
    } else {
        let buffered = match input.jumped {
            Some(t) => t <= cfg.jump_input_buffer,
            None => false,
        };
        if !buffered {
            return ;
        }
        set_grounded(state, velocity, position, None, queries.platform, dt);
        state.last_ground = cfg.coyote_time;
        jumpdir = Vec3 { x: 0, y: FP, z: 0 };
    }
    state.last_tac = 0;
    input.jumped = None;
    input.tac = None;

    proof {
        assert(2 * cfg.jump_height as int * cfg.gravity as int >= 0) by (nonlinear_arith)
            requires
                cfg.jump_height >= 0,
                cfg.gravity >= 0,
        ;
    }
    let height_times_gravity = 2 * cfg.jump_height * cfg.gravity;
    let fl_mul = isqrt64(height_times_gravity as u64) as i64;
    proof {
        assert(fl_mul as int * fl_mul as int <= height_times_gravity as int);
        assert(fl_mul <= 63_246) by (nonlinear_arith)
            requires
                fl_mul >= 0,
                fl_mul as int * fl_mul as int <= 4_000_000_000,
        ;
        assert(fl_mul as int == sqrt_floor(height_times_gravity as int));
        lemma_fmul_mag(jumpdir.x as int, fl_mul as int, CFG_LIMIT as int, 63_246);
        lemma_fmul_mag(jumpdir.y as int, fl_mul as int, CFG_LIMIT as int, 63_246);
        lemma_fmul_mag(jumpdir.z as int, fl_mul as int, CFG_LIMIT as int, 63_246);
        vstd::arithmetic::div_mod::lemma_div_multiples_vanish(fl_mul as int, FP as int);
        assert(FP as int * fl_mul as int == fl_mul as int * FP as int) by (nonlinear_arith);
    }
    velocity.x = velocity.x + mul_fp(jumpdir.x, fl_mul);
    velocity.y = velocity.y + mul_fp(jumpdir.y, fl_mul) + state.base_velocity.y;
    velocity.z = velocity.z + mul_fp(jumpdir.z, fl_mul);
    if let Some(craned) = input.craned {
        let chain_delay = imax(cfg.crane_input_buffer - cfg.jump_crane_chain_time, 0);
        input.craned = Some(tick_timer(craned, chain_delay));
    }
}

/// Largest velocity component handed back by the jump resolver.
pub const VEL_AFTER_JUMP: i64 = 110_000_000;

/// What firing a jump does to a buffered vault input: it is aged so that
/// only `jump_crane_chain_time` of its buffer window remains, letting a
/// vault chained right after a jump still fire without re-triggering stale
/// input.
pub open spec fn chained_crane_spec(cfg: CharacterController, craned: Option<i64>) -> Option<i64> {
    let delay = if cfg.crane_input_buffer - cfg.jump_crane_chain_time >= 0 {
        cfg.crane_input_buffer - cfg.jump_crane_chain_time
    } else {
        0
    };
    match craned {
        Some(t) => Some(tick_timer_spec(t as int, delay) as i64),
        None => None,
    }
}

} // verus!
