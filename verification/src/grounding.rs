//! The grounding classifier, platform inheritance and the crouch resolver.

use vstd::prelude::*;
use crate::math::{Vec3, fmul, fdiv, iclamp, lemma_div_t_mag, lemma_mul_mag, FP, CFG_LIMIT};
use crate::config::CharacterController;
use crate::state::CharacterControllerState;
use crate::sweep::{CastHit, PlatformInfo, IntersectionHit};
use crate::water::WaterState;
use crate::input::AccumulatedInput;

verus! {

/// The implied displacement of the supporting body at the touch point over
/// one tick, to first order in the tick: the body's linear velocity plus its
/// angular velocity crossed with the touch point's offset from the centre of
/// mass, integrated over `dt`.
pub open spec fn platform_movement_spec(
    platform: PlatformInfo,
    touch: Vec3,
    dt: int,
) -> Vec3 {
    let r = Vec3 {
        x: (touch.x - platform.world_com.x) as i64,
        y: (touch.y - platform.world_com.y) as i64,
        z: (touch.z - platform.world_com.z) as i64,
    };
    let w = platform.angular_velocity.cross_spec(r);
    Vec3 {
        x: fmul(platform.linear_velocity.x + w.x, dt) as i64,
        y: fmul(platform.linear_velocity.y + w.y, dt) as i64,
        z: fmul(platform.linear_velocity.z + w.z, dt) as i64,
    }
}

/// The velocity inherited from a supporting body: its implied displacement
/// at the touch point divided by the tick, each component held inside the
/// configuration limit.
pub open spec fn platform_velocity_spec(platform: PlatformInfo, touch: Vec3, dt: int) -> Vec3 {
    let m = platform_movement_spec(platform, touch, dt);
    Vec3 {
        x: crate::camera::clamp_spec(fdiv(m.x as int, dt), -CFG_LIMIT as int, CFG_LIMIT as int)
            as i64,
        y: crate::camera::clamp_spec(fdiv(m.y as int, dt), -CFG_LIMIT as int, CFG_LIMIT as int)
            as i64,
        z: crate::camera::clamp_spec(fdiv(m.z as int, dt), -CFG_LIMIT as int, CFG_LIMIT as int)
            as i64,
    }
}

/// Sample a supporting body's rigid motion at the touch point and derive the
/// world-space displacement it implies over one tick.
pub fn calculate_platform_movement(
    ground: Vec3,
    platform: &PlatformInfo,
    position: Vec3,
    dt: i64,
) -> (m: Vec3)
    requires
        platform.wf(),
        ground.in_range(750_000_000),
        position.in_range(750_000_000),
        0 < dt <= 1_000,
    ensures
        m == platform_movement_spec(
            *platform,
            Vec3 { x: position.x, y: ground.y, z: position.z },
            dt as int,
        ),
        m.in_range(5_201_000_000_000),
{
    let touch = Vec3 { x: position.x, y: ground.y, z: position.z };
    let r = touch.sub(platform.world_com);
    let w = platform.angular_velocity.cross(r);
    let vx = platform.linear_velocity.x + w.x;
    let vy = platform.linear_velocity.y + w.y;
    let vz = platform.linear_velocity.z + w.z;
    proof {
        lemma_mul_mag(vx as int, dt as int, 5_201_000_000_000, 1_000);
        lemma_mul_mag(vy as int, dt as int, 5_201_000_000_000, 1_000);
        lemma_mul_mag(vz as int, dt as int, 5_201_000_000_000, 1_000);
        lemma_div_t_mag(vx as int * dt as int, FP as int, 5_201_000_000_000int * 1_000);
        lemma_div_t_mag(vy as int * dt as int, FP as int, 5_201_000_000_000int * 1_000);
        lemma_div_t_mag(vz as int * dt as int, FP as int, 5_201_000_000_000int * 1_000);
    }
    Vec3 { x: (vx * dt) / FP, y: (vy * dt) / FP, z: (vz * dt) / FP }
}

/// The inherited platform velocity at a touch point: the implied
/// displacement divided back by the tick, clamped into the configuration
/// limit.
pub fn inherited_platform_velocity(
    ground: Vec3,
    platform: &PlatformInfo,
    position: Vec3,
    dt: i64,
) -> (v: Vec3)
    requires
        platform.wf(),
        ground.in_range(750_000_000),
        position.in_range(750_000_000),
        0 < dt <= 1_000,
    ensures
        v == platform_velocity_spec(
            *platform,
            Vec3 { x: position.x, y: ground.y, z: position.z },
            dt as int,
        ),
        v.in_range(CFG_LIMIT as int),
{
    let m = calculate_platform_movement(ground, platform, position, dt);
    Vec3 {
        x: iclamp(crate::math::div_fp(m.x, dt), -CFG_LIMIT, CFG_LIMIT),
        y: iclamp(crate::math::div_fp(m.y, dt), -CFG_LIMIT, CFG_LIMIT),
        z: iclamp(crate::math::div_fp(m.z, dt), -CFG_LIMIT, CFG_LIMIT),
    }
}

/// What adopting a grounding contact does to the state and the velocity.
pub open spec fn set_grounded_spec(
    state: CharacterControllerState,
    velocity: Vec3,
    position: Vec3,
    new_ground: Option<CastHit>,
    platform: Option<PlatformInfo>,
    dt: int,
) -> (CharacterControllerState, Vec3) {
    let base = match (new_ground, state.grounded, platform) {
        (Some(h), _, Some(p)) => platform_velocity_spec(
            p,
            Vec3 { x: position.x, y: h.point.y, z: position.z },
            dt,
        ),
        (None, Some(o), Some(p)) => platform_velocity_spec(
            p,
            Vec3 { x: position.x, y: o.point.y, z: position.z },
            dt,
        ),
        _ => state.base_velocity,
    };
    match new_ground {
        Some(_) => (
            CharacterControllerState {
                grounded: new_ground,
                base_velocity: base,
                crane_height_left: None,
                mantle_progress: None,
                ..state
            },
            Vec3 { x: velocity.x, y: 0, z: velocity.z },
        ),
        None => (
            CharacterControllerState { grounded: None, base_velocity: base, ..state },
            velocity,
        ),
    }
}

/// Adopt a new grounding contact (or none). Grounding zeroes the vertical
/// velocity and cancels any vault or mantle in progress, keeping the drive
/// modes mutually exclusive; a transition on or off a moving body samples
/// that body's motion into the inherited platform velocity. `platform`
/// carries the motion of the entity whose ground contact the transition
/// concerns: the new contact's entity when there is one, else the old one's.
pub fn set_grounded(
    state: &mut CharacterControllerState,
    velocity: &mut Vec3,
    position: Vec3,
    new_ground: Option<CastHit>,
    platform: Option<PlatformInfo>,
    dt: i64,
)
    requires
        old(state).wf(),
        old(velocity).in_range(300_000_000),
        position.in_range(750_000_000),
        match new_ground {
            Some(h) => h.wf(),
            None => true,
        },
        match platform {
            Some(p) => p.wf(),
            None => true,
        },
        0 < dt <= 1_000,
    ensures
        final(state).wf(),
        final(state).grounded == new_ground,
        new_ground is Some ==> final(state).crane_height_left is None && final(state).mantle_progress is None && final(velocity).y == 0 && final(velocity).x == old(velocity).x
            && final(velocity).z == old(velocity).z,
        new_ground is None ==> *final(velocity) == *old(velocity) && final(state).crane_height_left
            == old(state).crane_height_left && final(state).mantle_progress == old(state).mantle_progress,
        final(state).base_velocity == (match (new_ground, old(state).grounded, platform) {
            (Some(h), _, Some(p)) => platform_velocity_spec(
                p,
                Vec3 { x: position.x, y: h.point.y, z: position.z },
                dt as int,
            ),
            (None, Some(o), Some(p)) => platform_velocity_spec(
                p,
                Vec3 { x: position.x, y: o.point.y, z: position.z },
                dt as int,
            ),
            _ => old(state).base_velocity,
        }),
        *final(state) == (CharacterControllerState {
            grounded: final(state).grounded,
            base_velocity: final(state).base_velocity,
            crane_height_left: final(state).crane_height_left,
            mantle_progress: final(state).mantle_progress,
            ..*old(state)
        }),
        *final(state) == set_grounded_spec(
            *old(state),
            *old(velocity),
            position,
            new_ground,
            platform,
            dt as int,
        ).0,
        *final(velocity) == set_grounded_spec(
            *old(state),
            *old(velocity),
            position,
            new_ground,
            platform,
            dt as int,
        ).1,
{
    match (new_ground, state.grounded, platform) {
        (Some(h), _, Some(p)) => {
            let v = inherited_platform_velocity(h.point, &p, position, dt);
            state.base_velocity = v;
        },
        (None, Some(o), Some(p)) => {
            let v = inherited_platform_velocity(o.point, &p, position, dt);
            state.base_velocity = v;
        },
        _ => {},
    }
    state.grounded = new_ground;
    if state.grounded.is_some() {
        velocity.y = 0;
        state.crane_height_left = None;
        state.mantle_progress = None;
    }
}

/// Whether the classifier would force the character airborne this tick: the
/// vertical velocity exceeds the ungrounding threshold, measured relative to
/// the supporting platform while grounded.
pub open spec fn moving_up_rapidly_spec(
    cfg: CharacterController,
    state: CharacterControllerState,
    velocity: Vec3,
) -> bool {
    if velocity.y > cfg.unground_speed && state.grounded is Some {
        velocity.y - state.base_velocity.y > cfg.unground_speed
    } else {
        velocity.y > cfg.unground_speed
    }
}

/// The contact the grounding classifier settles on: none while submerged
/// above the feet or rising past the ungrounding threshold, else the probe
/// hit when its slope is walkable.
pub open spec fn classified_ground_spec(
    cfg: CharacterController,
    state: CharacterControllerState,
    velocity: Vec3,
    water: WaterState,
    cast: Option<CastHit>,
) -> Option<CastHit> {
    if water.level.rank_spec() > 1 {
        None
    } else if moving_up_rapidly_spec(cfg, state, velocity) {
        None
    } else {
        match cast {
            Some(h) => if h.normal.y >= cfg.min_walk_cos {
                Some(h)
            } else {
                None
            },
            None => None,
        }
    }
}

/// What one grounding classification does to the state and the velocity.
pub open spec fn update_grounded_spec(
    cfg: CharacterController,
    state: CharacterControllerState,
    velocity: Vec3,
    position: Vec3,
    water: WaterState,
    cast: Option<CastHit>,
    platform: Option<PlatformInfo>,
    dt: int,
) -> (CharacterControllerState, Vec3) {
    set_grounded_spec(
        state,
        velocity,
        position,
        classified_ground_spec(cfg, state, velocity, water, cast),
        platform,
        dt,
    )
}

/// Classify grounding from a downward probe: submerged or rising faster
/// than the ungrounding threshold forces airborne; otherwise a probe hit on
/// a walkable slope grounds the character and anything else clears the
/// contact. `cast` is the downward cast by `ground_distance` (lengthened by
/// the platform's sinking over the tick while riding a descending body).
pub fn update_grounded(
    cfg: &CharacterController,
    state: &mut CharacterControllerState,
    velocity: &mut Vec3,
    position: Vec3,
    water: &WaterState,
    cast: Option<CastHit>,
    platform: Option<PlatformInfo>,
    dt: i64,
)
    requires
        cfg.wf(),
        old(state).wf(),
        old(velocity).in_range(300_000_000),
        position.in_range(750_000_000),
        match cast {
            Some(h) => h.wf(),
            None => true,
        },
        match platform {
            Some(p) => p.wf(),
            None => true,
        },
        0 < dt <= 1_000,
    ensures
        final(state).wf(),
        final(state).grounded == (if water.level.rank_spec() > 1 {
            None::<CastHit>
        } else if moving_up_rapidly_spec(*cfg, *old(state), *old(velocity)) {
            None::<CastHit>
        } else {
            match cast {
                Some(h) => if h.normal.y >= cfg.min_walk_cos {
                    Some(h)
                } else {
                    None::<CastHit>
                },
                None => None::<CastHit>,
            }
        }),
        final(state).grounded is Some ==> final(velocity).y == 0 && final(state).crane_height_left is None && final(state).mantle_progress is None,
        final(state).grounded is None ==> *final(velocity) == *old(velocity) && final(state).crane_height_left == old(state).crane_height_left && final(state).mantle_progress == old(state).mantle_progress,
        final(velocity).x == old(velocity).x && final(velocity).z == old(velocity).z,
        final(velocity).in_range(300_000_000),
        *final(state) == (CharacterControllerState {
            grounded: final(state).grounded,
            base_velocity: final(state).base_velocity,
            crane_height_left: final(state).crane_height_left,
            mantle_progress: final(state).mantle_progress,
            ..*old(state)
        }),
        *final(state) == update_grounded_spec(
            *cfg,
            *old(state),
            *old(velocity),
            position,
            *water,
            cast,
            platform,
            dt as int,
        ).0,
        *final(velocity) == update_grounded_spec(
            *cfg,
            *old(state),
            *old(velocity),
            position,
            *water,
            cast,
            platform,
            dt as int,
        ).1,
{
    if water.level.above_feet() {
        set_grounded(state, velocity, position, None, platform, dt);
        return ;
    }
    let y_vel = velocity.y;
    let mut moving_up_rapidly = y_vel > cfg.unground_speed;
    if moving_up_rapidly && state.grounded.is_some() {
        moving_up_rapidly = y_vel - state.base_velocity.y > cfg.unground_speed;
    }
    if moving_up_rapidly {
        set_grounded(state, velocity, position, None, platform, dt);
    } else {
        let walkable_hit = match cast {
            Some(h) => if h.normal.y >= cfg.min_walk_cos {
                Some(h)
            } else {
                None
            },
            None => None,
        };
        set_grounded(state, velocity, position, walkable_hit, platform, dt);
    }
}

/// Whether any overlapping collider other than water blocks the pose.
pub open spec fn any_blocking_spec(hits: Seq<IntersectionHit>) -> bool {
    exists|i: int| 0 <= i < hits.len() && !(#[trigger] hits[i]).is_water
}

/// What the crouch resolver leaves the crouch flag at.
pub open spec fn handle_crouching_spec(
    state: CharacterControllerState,
    crouched_input: bool,
    stand_hits: Seq<IntersectionHit>,
) -> bool {
    if crouched_input {
        true
    } else if state.crouching {
        any_blocking_spec(stand_hits)
    } else {
        false
    }
}

pub fn is_intersecting(hits: &Vec<IntersectionHit>) -> (r: bool)
    ensures
        r == any_blocking_spec(hits@),
        r == exists|i: int| 0 <= i < hits@.len() && !(#[trigger] hits@[i]).is_water,
{
    let mut k: usize = 0;
    while k < hits.len()
        invariant
            0 <= k <= hits@.len(),
            forall|i: int| 0 <= i < k ==> (#[trigger] hits@[i]).is_water,
        decreases hits@.len() - k,
    {
        if !hits[k].is_water {
            return true;
        }
        k = k + 1;
    }
    false
}

/// Resolve the crouch toggle. Held crouch input crouches immediately
/// (shrinking is always safe); releasing it stands the character up only
/// when a static intersection test of the standing shape at the current pose
/// (`stand_hits`) reports no blocking geometry — water never blocks.
pub fn handle_crouching(
    state: &mut CharacterControllerState,
    input: &AccumulatedInput,
    stand_hits: &Vec<IntersectionHit>,
)
    requires
        old(state).wf(),
    ensures
        final(state).wf(),
        input.crouched ==> final(state).crouching,
        !input.crouched && old(state).crouching ==> final(state).crouching == exists|i: int|
            0 <= i < stand_hits@.len() && !(#[trigger] stand_hits@[i]).is_water,
        !input.crouched && !old(state).crouching ==> !final(state).crouching,
        old(state).crouching && (exists|i: int|
            0 <= i < stand_hits@.len() && !(#[trigger] stand_hits@[i]).is_water)
            ==> final(state).crouching,
        *final(state) == (CharacterControllerState {
            crouching: handle_crouching_spec(*old(state), input.crouched, stand_hits@),
            ..*old(state)
        }),
{
    if input.crouched {
        state.crouching = true;
    } else if state.crouching {
        state.crouching = is_intersecting(stand_hits);
    }
}

} // verus!
