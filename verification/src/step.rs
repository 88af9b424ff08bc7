//! Committing swept motion: depenetration, move-and-slide bookkeeping, the
//! step resolver and the ground snapper.

use vstd::prelude::*;
use crate::math::{Vec3, div_t, dist_sq_xz, dist_sq_xz_spec, imin, lemma_div_t_mag, CFG_LIMIT};
use crate::config::CharacterController;
use crate::state::{CharacterControllerState, TAC_ENERGY_LIMIT};
use crate::sweep::{CastHit, MoveOutcome, TouchingEntity};

verus! {

/// Working bound on position components inside a tick.
pub const POS_WORK: i64 = 600_000_000;

/// Push the character out of any starting overlap: the depenetration offset
/// reported by the sweep service is added to the pose.
pub fn depenetrate_character(position: &mut Vec3, offset: Vec3)
    requires
        old(position).in_range(1_000_000_000),
        offset.in_range(CFG_LIMIT as int),
    ensures
        final(position).x == old(position).x + offset.x,
        final(position).y == old(position).y + offset.y,
        final(position).z == old(position).z + offset.z,
        final(position).in_range(1_000_000_000 + CFG_LIMIT),
{
    *position = position.add(offset);
}

/// The wall-jump energy after one slide: the stored energy decays by one
/// percent and the speed lost to the slide is added, saturating at
/// [`TAC_ENERGY_LIMIT`] (far beyond the single unit the wall-jump can
/// spend).
pub open spec fn tac_after_spec(t: int, lost: int) -> int {
    let v = div_t(t * 99, 100) + lost;
    if v <= TAC_ENERGY_LIMIT {
        v
    } else {
        TAC_ENERGY_LIMIT as int
    }
}

fn tac_after(t: i64, lost: i64) -> (r: i64)
    requires
        0 <= t <= TAC_ENERGY_LIMIT,
        0 <= lost <= 4_000_000_000,
    ensures
        r == tac_after_spec(t as int, lost as int),
        0 <= r <= TAC_ENERGY_LIMIT,
{
    proof {
        crate::math::lemma_mul_mag(t as int, 99, TAC_ENERGY_LIMIT as int, 99);
        lemma_div_t_mag(t as int * 99, 100, TAC_ENERGY_LIMIT as int * 99);
        assert(t as int * 99 >= 0) by (nonlinear_arith)
            requires
                t >= 0,
        ;
    }
    let decayed = (t * 99) / 100;
    imin(decayed + lost, TAC_ENERGY_LIMIT)
}

/// Append every contact of a slide to the per-tick contact list.
fn append_touches(state: &mut CharacterControllerState, touches: &Vec<TouchingEntity>)
    requires
        old(state).wf(),
        forall|i: int| 0 <= i < touches@.len() ==> (#[trigger] touches@[i]).wf(),
    ensures
        final(state).touching_entities@ == old(state).touching_entities@ + touches@,
        *final(state) == (CharacterControllerState {
            touching_entities: final(state).touching_entities,
            ..*old(state)
        }),
        final(state).wf(),
{
    let mut k: usize = 0;
    while k < touches.len()
        invariant
            0 <= k <= touches@.len(),
            forall|i: int| 0 <= i < touches@.len() ==> (#[trigger] touches@[i]).wf(),
            state.touching_entities@ == old(state).touching_entities@ + touches@.subrange(
                0,
                k as int,
            ),
            *state == (CharacterControllerState {
                touching_entities: state.touching_entities,
                ..*old(state)
            }),
            old(state).wf(),
            forall|i: int|
                0 <= i < state.touching_entities@.len() ==> (
                #[trigger] state.touching_entities@[i]).wf(),
        decreases touches@.len() - k,
    {
        let t = touches[k];
        state.touching_entities.push(t);
        k = k + 1;
        proof {
            assert(state.touching_entities@ == old(state).touching_entities@ + touches@.subrange(
                0,
                k as int,
            ));
        }
    }
    proof {
        assert(touches@.subrange(0, touches@.len() as int) == touches@);
    }
}

/// Commit one move-and-slide outcome: adopt the slid pose and projected
/// velocity, add the speed lost to the slide to the wall-jump energy (after
/// its one-percent decay), and record every contact of the slide.
pub fn move_character(
    state: &mut CharacterControllerState,
    position: &mut Vec3,
    velocity: &mut Vec3,
    outcome: &MoveOutcome,
)
    requires
        old(state).wf(),
        old(velocity).in_range(300_000_000),
        outcome.wf(),
    ensures
        final(state).wf(),
        *final(position) == outcome.position,
        *final(velocity) == outcome.velocity,
        final(state).tac_velocity == tac_after_spec(
            old(state).tac_velocity as int,
            (Vec3 {
                x: (old(velocity).x - outcome.velocity.x) as i64,
                y: (old(velocity).y - outcome.velocity.y) as i64,
                z: (old(velocity).z - outcome.velocity.z) as i64,
            }).norm(),
        ),
        final(state).touching_entities@ == old(state).touching_entities@ + outcome.touches@,
        *final(state) == (CharacterControllerState {
            tac_velocity: final(state).tac_velocity,
            touching_entities: final(state).touching_entities,
            ..*old(state)
        }),
{
    let lost_vec = velocity.sub(outcome.velocity);
    let lost = lost_vec.length();
    let t = tac_after(state.tac_velocity, lost);
    state.tac_velocity = t;
    append_touches(state, &outcome.touches);
    *position = outcome.position;
    *velocity = outcome.velocity;
}

/// The casts the step resolver consumes, in the order the resolver asks for
/// them. All sweeps use the active collider and the current filter.
///
/// - `direct`: the move-and-slide of the current velocity from the current
///   pose over the tick.
/// - `up`: a cast straight up by `step_size` from the original pose.
/// - `clearance`: a cast from the raised pose along the (unit) original
///   velocity by `min_step_ledge_space`.
/// - `raised`: the move-and-slide of the original velocity from the raised
///   pose.
/// - `down`: a cast straight down by `step_size` from the raised slide's end
///   pose.
/// - `depen`: the depenetration offset at the stepped-down pose.
#[derive(Clone, Debug)]
pub struct StepCasts {
    pub direct: MoveOutcome,
    pub up: Option<CastHit>,
    pub clearance: Option<CastHit>,
    pub raised: MoveOutcome,
    pub down: Option<CastHit>,
    pub depen: Vec3,
}

impl StepCasts {
    pub open spec fn wf(self) -> bool {
        &&& self.direct.wf()
        &&& match self.up {
            Some(h) => h.wf(),
            None => true,
        }
        &&& match self.clearance {
            Some(h) => h.wf(),
            None => true,
        }
        &&& self.raised.wf()
        &&& match self.down {
            Some(h) => h.wf(),
            None => true,
        }
        &&& self.depen.in_range(CFG_LIMIT as int)
    }

    /// Whether the step-up-and-over attempt is accepted at all: the raised
    /// pose must have horizontal clearance and the downward cast must land
    /// on a walkable slope.
    pub open spec fn step_accepted(self, cfg: CharacterController) -> bool {
        &&& self.clearance is None
        &&& match self.down {
            Some(h) => h.normal.y >= cfg.min_walk_cos,
            None => false,
        }
    }

    /// The pose the accepted step ends in: the raised slide's end, stepped
    /// back down and depenetrated.
    pub open spec fn stepped_position(self) -> Vec3 {
        let down_dist = match self.down {
            Some(h) => h.distance as int,
            None => 0,
        };
        Vec3 {
            x: (self.raised.position.x + self.depen.x) as i64,
            y: (self.raised.position.y - down_dist + self.depen.y) as i64,
            z: (self.raised.position.z + self.depen.z) as i64,
        }
    }
}

/// Where the step resolver leaves the character.
pub open spec fn step_result_position_spec(cfg: CharacterController, pos0: Vec3, casts: StepCasts) -> Vec3 {
    if !casts.step_accepted(cfg) {
        casts.direct.position
    } else {
        let st = casts.stepped_position();
        if dist_sq_xz_spec(casts.direct.position, pos0) >= dist_sq_xz_spec(st, pos0) {
            casts.direct.position
        } else {
            st
        }
    }
}

/// Whether the step resolver adopts the stepped outcome.
pub open spec fn step_used_spec(cfg: CharacterController, pos0: Vec3, casts: StepCasts) -> bool {
    casts.step_accepted(cfg) && dist_sq_xz_spec(casts.direct.position, pos0) < dist_sq_xz_spec(
        casts.stepped_position(),
        pos0,
    )
}

/// The velocity the step resolver leaves the character with.
pub open spec fn step_result_velocity_spec(cfg: CharacterController, pos0: Vec3, casts: StepCasts) -> Vec3 {
    if step_used_spec(cfg, pos0, casts) {
        Vec3 {
            x: casts.raised.velocity.x,
            y: casts.direct.velocity.y,
            z: casts.raised.velocity.z,
        }
    } else {
        casts.direct.velocity
    }
}

/// The wall-jump energy after the step resolver's slides: the direct slide
/// always charges it; the raised slide charges it too once the raised pose
/// has clearance.
pub open spec fn step_tac_spec(
    cfg: CharacterController,
    tac: int,
    velocity: Vec3,
    casts: StepCasts,
) -> int {
    let t1 = tac_after_spec(
        tac,
        (Vec3 {
            x: (velocity.x - casts.direct.velocity.x) as i64,
            y: (velocity.y - casts.direct.velocity.y) as i64,
            z: (velocity.z - casts.direct.velocity.z) as i64,
        }).norm(),
    );
    if casts.clearance is Some {
        t1
    } else {
        tac_after_spec(
            t1,
            (Vec3 {
                x: (velocity.x - casts.raised.velocity.x) as i64,
                y: (velocity.y - casts.raised.velocity.y) as i64,
                z: (velocity.z - casts.raised.velocity.z) as i64,
            }).norm(),
        )
    }
}

/// The contacts the step resolver records: those of whichever slide's
/// outcome it adopts.
pub open spec fn step_touches_spec(
    cfg: CharacterController,
    pos0: Vec3,
    casts: StepCasts,
) -> Seq<TouchingEntity> {
    if step_used_spec(cfg, pos0, casts) {
        casts.raised.touches@
    } else {
        casts.direct.touches@
    }
}

/// What the step resolver yields: the state (contact list aside), the pose
/// and the velocity.
pub open spec fn step_move_spec(
    cfg: CharacterController,
    state: CharacterControllerState,
    pos0: Vec3,
    velocity: Vec3,
    casts: StepCasts,
) -> (CharacterControllerState, Vec3, Vec3) {
    (
        CharacterControllerState {
            tac_velocity: step_tac_spec(cfg, state.tac_velocity as int, velocity, casts) as i64,
            last_step_up: (if step_used_spec(cfg, pos0, casts) {
                0int
            } else {
                state.last_step_up as int
            }) as i64,
            ..state
        },
        step_result_position_spec(cfg, pos0, casts),
        step_result_velocity_spec(cfg, pos0, casts),
    )
}

/// Stepping onto a riser the resolver accepts and adopts preserves the
/// horizontal speed whole: the adopted velocity's horizontal components are
/// exactly those of the slide over the raised pose (only the vertical
/// component keeps the direct slide's value, so the step adds no upward
/// launch).
pub proof fn lemma_adopted_step_preserves_horizontal_velocity(
    cfg: CharacterController,
    pos0: Vec3,
    casts: StepCasts,
)
    requires
        step_used_spec(cfg, pos0, casts),
    ensures
        step_result_velocity_spec(cfg, pos0, casts).x == casts.raised.velocity.x,
        step_result_velocity_spec(cfg, pos0, casts).z == casts.raised.velocity.z,
        step_result_velocity_spec(cfg, pos0, casts).y == casts.direct.velocity.y,
{
}

/// A riser the resolver rejects (no clearance upstairs, or no walkable
/// landing under the raised slide) leaves only the blocked direct slide:
/// there is no further advance into the obstacle beyond what that slide
/// allowed.
pub proof fn lemma_rejected_step_keeps_direct_outcome(
    cfg: CharacterController,
    pos0: Vec3,
    casts: StepCasts,
)
    requires
        !casts.step_accepted(cfg),
    ensures
        step_result_position_spec(cfg, pos0, casts) == casts.direct.position,
        step_result_velocity_spec(cfg, pos0, casts) == casts.direct.velocity,
{
}

/// Resolve a desired move with stepping: slide the direct path, then try a
/// step-up-slide-step-down from the original pose; reject the step when the
/// raised pose lacks clearance or the step lands on a slope too steep to
/// walk; of the two accepted outcomes adopt whichever travelled further
/// horizontally, and reset the step-up stopwatch when the stepped one wins.
pub fn step_move(
    cfg: &CharacterController,
    state: &mut CharacterControllerState,
    position: &mut Vec3,
    velocity: &mut Vec3,
    casts: &StepCasts,
)
    requires
        cfg.wf(),
        old(state).wf(),
        old(position).in_range(POS_WORK as int),
        old(velocity).in_range(300_000_000),
        casts.wf(),
        match casts.down {
            Some(h) => h.distance <= cfg.step_size,
            None => true,
        },
    ensures
        final(state).wf(),
        final(position).in_range((POS_WORK + 2 * CFG_LIMIT) as int),
        ({
            let out = step_move_spec(*cfg, *old(state), *old(position), *old(velocity), *casts);
            &&& *final(state) == (CharacterControllerState {
                touching_entities: final(state).touching_entities,
                ..out.0
            })
            &&& *final(position) == out.1
            &&& *final(velocity) == out.2
        }),
        final(state).touching_entities@ == old(state).touching_entities@ + step_touches_spec(
            *cfg,
            *old(position),
            *casts,
        ),
        *final(position) == step_result_position_spec(*cfg, *old(position), *casts),
        *final(velocity) == step_result_velocity_spec(*cfg, *old(position), *casts),
        final(state).last_step_up == (if step_used_spec(*cfg, *old(position), *casts) {
            0int
        } else {
            old(state).last_step_up as int
        }),
        !casts.step_accepted(*cfg) ==> *final(position) == casts.direct.position
            && *final(velocity) == casts.direct.velocity
            && final(state).last_step_up == old(state).last_step_up,
        casts.step_accepted(*cfg) ==> {
            let stepped = casts.stepped_position();
            if dist_sq_xz_spec(casts.direct.position, *old(position)) >= dist_sq_xz_spec(
                stepped,
                *old(position),
            ) {
                &&& *final(position) == casts.direct.position
                &&& *final(velocity) == casts.direct.velocity
                &&& final(state).last_step_up == old(state).last_step_up
            } else {
                &&& *final(position) == stepped
                &&& final(velocity).x == casts.raised.velocity.x
                &&& final(velocity).y == casts.direct.velocity.y
                &&& final(velocity).z == casts.raised.velocity.z
                &&& final(state).last_step_up == 0
            }
        },
        casts.clearance is Some ==> final(state).touching_entities@
            == old(state).touching_entities@ + casts.direct.touches@,
        casts.clearance is None && !casts.step_accepted(*cfg) ==> final(state).touching_entities@
            == old(state).touching_entities@ + casts.direct.touches@,
        step_used_spec(*cfg, *old(position), *casts) ==> final(state).touching_entities@
            == old(state).touching_entities@ + casts.raised.touches@,
        casts.step_accepted(*cfg) && !step_used_spec(*cfg, *old(position), *casts) ==> final(state).touching_entities@ == old(state).touching_entities@ + casts.direct.touches@,
        final(velocity).in_range(300_000_000),
        *final(state) == (CharacterControllerState {
            tac_velocity: final(state).tac_velocity,
            touching_entities: final(state).touching_entities,
            last_step_up: final(state).last_step_up,
            ..*old(state)
        }),
{
    // Direct slide bookkeeping (the slide itself happened in the sweep
    // service; its lost speed always charges the wall-jump energy).
    let lost_direct = velocity.sub(casts.direct.velocity).length();
    let tac1 = tac_after(state.tac_velocity, lost_direct);

    if casts.clearance.is_some() {
        // Not enough space to stand upstairs: keep the direct outcome.
        state.tac_velocity = tac1;
        append_touches(state, &casts.direct.touches);
        *position = casts.direct.position;
        *velocity = casts.direct.velocity;
        return ;
    }
    // The raised slide ran; charge its lost speed as well.
    let lost_raised = velocity.sub(casts.raised.velocity).length();
    let tac2 = tac_after(tac1, lost_raised);

    let walkable = match casts.down {
        Some(h) => h.normal.y >= cfg.min_walk_cos,
        None => false,
    };
    if !walkable {
        // Falling or sliding off the step: keep the direct outcome.
        state.tac_velocity = tac2;
        append_touches(state, &casts.direct.touches);
        *position = casts.direct.position;
        *velocity = casts.direct.velocity;
        return ;
    }
    let down_dist = match casts.down {
        Some(h) => h.distance,
        None => 0,
    };
    let stepped = Vec3 {
        x: casts.raised.position.x + casts.depen.x,
        y: casts.raised.position.y - down_dist + casts.depen.y,
        z: casts.raised.position.z + casts.depen.z,
    };
    let down_travel = dist_sq_xz(casts.direct.position, *position);
    let up_travel = dist_sq_xz(stepped, *position);
    if down_travel >= up_travel {
        state.tac_velocity = tac2;
        append_touches(state, &casts.direct.touches);
        *position = casts.direct.position;
        *velocity = casts.direct.velocity;
    } else {
        state.tac_velocity = tac2;
        append_touches(state, &casts.raised.touches);
        *position = stepped;
        *velocity = Vec3 {
            x: casts.raised.velocity.x,
            y: casts.direct.velocity.y,
            z: casts.raised.velocity.z,
        };
        state.last_step_up = 0;
    }
}

/// The casts the ground snapper consumes.
///
/// - `up`: a cast straight up by `ground_distance` from the current pose.
/// - `down`: a cast straight down by `up_travel + step_size` from the raised
///   point.
/// - `depen`: the depenetration offset at the snapped pose.
#[derive(Clone, Copy, PartialEq, Eq, Structural, Debug)]
pub struct SnapCasts {
    pub up: Option<CastHit>,
    pub down: Option<CastHit>,
    pub depen: Vec3,
}

impl SnapCasts {
    pub open spec fn wf(self) -> bool {
        &&& match self.up {
            Some(h) => h.wf(),
            None => true,
        }
        &&& match self.down {
            Some(h) => h.wf(),
            None => true,
        }
        &&& self.depen.in_range(CFG_LIMIT as int)
    }

    /// How far the probe rises before casting down.
    pub open spec fn up_travel(self, cfg: CharacterController) -> int {
        match self.up {
            Some(h) => h.distance as int,
            None => cfg.ground_distance as int,
        }
    }

    /// Whether the downward probe found walkable ground the character
    /// should be glued to: a clean (non-intersecting) hit on a walkable
    /// slope, strictly farther than the hover distance.
    pub open spec fn snaps(self, cfg: CharacterController) -> bool {
        match self.down {
            Some(h) => !h.intersecting && h.normal.y >= cfg.min_walk_cos && h.distance
                > cfg.ground_distance,
            None => false,
        }
    }
}

/// Where the ground snapper leaves the character.
pub open spec fn snap_position_spec(cfg: CharacterController, pos: Vec3, casts: SnapCasts) -> Vec3 {
    if !casts.snaps(cfg) {
        pos
    } else {
        let down_dist = match casts.down {
            Some(h) => h.distance as int,
            None => 0int,
        };
        Vec3 {
            x: (pos.x + casts.depen.x) as i64,
            y: (pos.y + casts.up_travel(cfg) - down_dist + casts.depen.y) as i64,
            z: (pos.z + casts.depen.z) as i64,
        }
    }
}

/// The step-down stopwatch after the ground snapper.
pub open spec fn snap_step_down_spec(
    cfg: CharacterController,
    old_t: int,
    pos: Vec3,
    casts: SnapCasts,
) -> int {
    if !casts.snaps(cfg) {
        old_t
    } else {
        let down_dist = match casts.down {
            Some(h) => h.distance as int,
            None => 0int,
        };
        let dropped_y = pos.y + casts.up_travel(cfg) - down_dist;
        if pos.y - dropped_y > cfg.step_down_detection_distance {
            0int
        } else {
            old_t
        }
    }
}

/// Glue a grounded character to uneven ground after a move: probe up by
/// `ground_distance`, then down from the raised point; when the probe finds
/// walkable ground farther than the hover distance, drop the pose onto it
/// and depenetrate, resetting the step-down stopwatch when the drop exceeds
/// the detection distance.
pub fn snap_to_ground(
    cfg: &CharacterController,
    state: &mut CharacterControllerState,
    position: &mut Vec3,
    casts: &SnapCasts,
)
    requires
        cfg.wf(),
        old(state).wf(),
        old(position).in_range(700_000_000),
        casts.wf(),
        match casts.up {
            Some(h) => h.distance <= cfg.ground_distance,
            None => true,
        },
        match casts.down {
            Some(h) => h.distance <= casts.up_travel(*cfg) + cfg.step_size,
            None => true,
        },
    ensures
        final(state).wf(),
        *final(state) == (CharacterControllerState {
            last_step_down: snap_step_down_spec(
                *cfg,
                old(state).last_step_down as int,
                *old(position),
                *casts,
            ) as i64,
            ..*old(state)
        }),
        *final(position) == snap_position_spec(*cfg, *old(position), *casts),
        final(state).last_step_down == snap_step_down_spec(
            *cfg,
            old(state).last_step_down as int,
            *old(position),
            *casts,
        ),
        *final(state) == (CharacterControllerState {
            last_step_down: final(state).last_step_down,
            ..*old(state)
        }),
        !casts.snaps(*cfg) ==> *final(position) == *old(position) && *final(state) == *old(state),
        casts.snaps(*cfg) ==> {
            let down_dist = match casts.down {
                Some(h) => h.distance as int,
                None => 0,
            };
            let dropped_y = old(position).y + casts.up_travel(*cfg) - down_dist;
            &&& final(position).x == old(position).x + casts.depen.x
            &&& final(position).y == dropped_y + casts.depen.y
            &&& final(position).z == old(position).z + casts.depen.z
            &&& final(state).last_step_down == (if old(position).y - dropped_y
                > cfg.step_down_detection_distance {
                0
            } else {
                old(state).last_step_down as int
            })
            &&& *final(state) == (CharacterControllerState {
                last_step_down: final(state).last_step_down,
                ..*old(state)
            })
        },
        final(position).in_range(703_000_000),
{
    let up_dist = match casts.up {
        Some(h) => h.distance,
        None => cfg.ground_distance,
    };
    let hit = match casts.down {
        Some(h) => h,
        None => {
            return ;
        },
    };
    if hit.intersecting || hit.normal.y < cfg.min_walk_cos || hit.distance <= cfg.ground_distance {
        return ;
    }
    let original_y = position.y;
    let new_y = position.y + up_dist - hit.distance;
    position.y = new_y;
    if original_y - new_y > cfg.step_down_detection_distance {
        state.last_step_down = 0;
    }
    depenetrate_character(position, casts.depen);
}

} // verus!
