//! Ledge climbing: the fast vault ("crane") and the slower hand-mantle.
//!
//! Both follow the same two-phase pattern: a pure availability probe that
//! commits nothing, and a multi-tick commit that climbs a swept cast at a
//! time. The probes consume a fixed sequence of casts; the structures below
//! document where each cast is taken from, and the probe functions decide.

use vstd::prelude::*;
use crate::math::{Vec3, mag, fmul, mul_fp, imin, imax, lemma_fmul_mag, FP, CFG_LIMIT};
use crate::config::CharacterController;
use crate::state::{CharacterControllerState, MantleProgress};
use crate::sweep::{CastHit, MoveOutcome, PlatformInfo, WallContact};
use crate::input::AccumulatedInput;
use crate::step::POS_WORK;

verus! {

/// The direction a ledge probe reaches in: the wish direction when there is
/// wish, else the direction of the flattened fallback vector (the current
/// velocity for a vault, the look direction for a mantle), else nothing.
pub open spec fn ledge_wish_dir_spec(wish_velocity: Vec3, fallback: Vec3) -> Option<Vec3> {
    if wish_velocity != Vec3::zero_spec() {
        Some(wish_velocity.unit_spec())
    } else if fallback.flat_spec() != Vec3::zero_spec() {
        Some(fallback.flat_spec().unit_spec())
    } else {
        None
    }
}

/// The negation of a unit vector.
pub open spec fn neg_spec(v: Vec3) -> Vec3 {
    Vec3 { x: (-(v.x as int)) as i64, y: (-(v.y as int)) as i64, z: (-(v.z as int)) as i64 }
}

/// The casts a vault probe consumes, in order. All use the active collider.
///
/// - `wall`: from the current pose along the wish direction by the minimum
///   ledge depth.
/// - `up`: from the current pose straight up by the maximum climb height.
/// - `down`: from the raised pose moved one ledge depth past the wall,
///   straight down by the raised distance (finds the ledge top).
/// - `clearance`: from the current pose lifted by the ledge height, toward
///   the wall by the ledge depth (landing room for the full climb).
/// - `final_down`: from that landing pose straight down by the ledge height
///   (the landing surface; missing means the climb passed through
///   geometry).
#[derive(Clone, Copy, PartialEq, Eq, Structural, Debug)]
pub struct LedgeCasts {
    pub wall: Option<CastHit>,
    pub up: Option<CastHit>,
    pub down: Option<CastHit>,
    pub clearance: Option<CastHit>,
    pub final_down: Option<CastHit>,
}

impl LedgeCasts {
    pub open spec fn wf(self) -> bool {
        &&& match self.wall {
            Some(h) => h.wf(),
            None => true,
        }
        &&& match self.up {
            Some(h) => h.wf(),
            None => true,
        }
        &&& match self.down {
            Some(h) => h.wf(),
            None => true,
        }
        &&& match self.clearance {
            Some(h) => h.wf(),
            None => true,
        }
        &&& match self.final_down {
            Some(h) => h.wf(),
            None => true,
        }
    }

    /// The probe casts never travel beyond their cast lengths.
    pub open spec fn lengths_ok(self, max_height: int) -> bool {
        &&& match self.up {
            Some(h) => h.distance <= max_height,
            None => true,
        }
        &&& match (self.down, self.up) {
            (Some(d), Some(u)) => d.distance <= u.distance,
            (Some(d), None) => d.distance <= max_height,
            _ => true,
        }
    }

    /// How far the probe rises.
    pub open spec fn up_travel(self, max_height: int) -> int {
        match self.up {
            Some(h) => h.distance as int,
            None => max_height,
        }
    }
}

/// What the ledge probe concludes: the climbable ledge height, if the wall,
/// the headroom, the landing room and the landing slope all qualify.
pub open spec fn ledge_probe_spec(
    cfg: CharacterController,
    wish_velocity: Vec3,
    fallback: Vec3,
    min_cos: int,
    max_height: int,
    casts: LedgeCasts,
) -> Option<int> {
    match ledge_wish_dir_spec(wish_velocity, fallback) {
        None => None,
        Some(wd) => match casts.wall {
            None => None,
            Some(wh) => {
                let wn = wh.normal.flat_spec().unit_spec();
                if neg_spec(wn).dot_spec(wd) < min_cos {
                    None
                } else {
                    match casts.down {
                        None => None,
                        Some(dh) => {
                            let ledge_height = casts.up_travel(max_height) - dh.distance;
                            if casts.clearance is Some {
                                None
                            } else {
                                match casts.final_down {
                                    None => None,
                                    Some(fh) => if fh.normal.y < cfg.min_walk_cos {
                                        None
                                    } else {
                                        Some(ledge_height)
                                    },
                                }
                            }
                        },
                    }
                }
            },
        },
    }
}

/// Probe for a climbable ledge: find a wall within the angle cone, measure
/// the ledge height by rising and casting back down past the wall, and
/// accept only when the full simulated climb has landing room and lands on
/// a walkable slope. Commits nothing.
pub fn available_ledge_height(
    cfg: &CharacterController,
    wish_velocity: Vec3,
    fallback: Vec3,
    min_cos: i64,
    max_height: i64,
    casts: &LedgeCasts,
) -> (r: Option<i64>)
    requires
        cfg.wf(),
        wish_velocity.in_range(2_000_000),
        fallback.in_range(300_000_000),
        0 <= min_cos <= FP,
        0 <= max_height <= CFG_LIMIT,
        casts.wf(),
        casts.lengths_ok(max_height as int),
    ensures
        r == (match ledge_probe_spec(
            *cfg,
            wish_velocity,
            fallback,
            min_cos as int,
            max_height as int,
            *casts,
        ) {
            Some(h) => Some(h as i64),
            None => None::<i64>,
        }),
        match r {
            Some(h) => 0 <= h <= max_height,
            None => true,
        },
{
    let wish_dir = if !(wish_velocity.x == 0 && wish_velocity.y == 0 && wish_velocity.z == 0) {
        wish_velocity.normalize_or_zero()
    } else {
        let f = fallback.flat();
        if f.x == 0 && f.y == 0 && f.z == 0 {
            return None;
        }
        f.normalize_or_zero()
    };
    let wall_hit = match casts.wall {
        Some(h) => h,
        None => {
            return None;
        },
    };
    let wall_normal = wall_hit.normal.flat().normalize_or_zero();
    let against = wall_normal.neg().dot(wish_dir);
    if against < min_cos {
        return None;
    }
    let up_dist = match casts.up {
        Some(h) => h.distance,
        None => max_height,
    };
    let down_dist = match casts.down {
        Some(h) => h.distance,
        None => {
            return None;
        },
    };
    let ledge_height = up_dist - down_dist;
    if casts.clearance.is_some() {
        return None;
    }
    let final_hit = match casts.final_down {
        Some(h) => h,
        None => {
            return None;
        },
    };
    if final_hit.normal.y < cfg.min_walk_cos {
        return None;
    }
    Some(ledge_height)
}

/// Probe for a vaultable ledge with the vault geometry: the minimum vault
/// ledge depth, the vault angle cone and the maximum vault height.
pub fn available_crane_height(
    cfg: &CharacterController,
    wish_velocity: Vec3,
    velocity: Vec3,
    casts: &LedgeCasts,
) -> (r: Option<i64>)
    requires
        cfg.wf(),
        wish_velocity.in_range(2_000_000),
        velocity.in_range(300_000_000),
        casts.wf(),
        casts.lengths_ok(cfg.crane_height as int),
    ensures
        r == (match ledge_probe_spec(
            *cfg,
            wish_velocity,
            velocity,
            cfg.min_crane_cos as int,
            cfg.crane_height as int,
            *casts,
        ) {
            Some(h) => Some(h as i64),
            None => None::<i64>,
        }),
        match r {
            Some(h) => 0 <= h <= cfg.crane_height,
            None => true,
        },
{
    available_ledge_height(
        cfg,
        wish_velocity,
        velocity,
        cfg.min_crane_cos,
        cfg.crane_height,
        casts,
    )
}

/// The casts a mantle probe consumes, in order. The upward, downward and
/// clearance casts use the small hand probe shape, not the body.
///
/// - `wall`: from the current pose along the wish direction by twice the
///   skin width.
/// - `depen`: the depenetration offset after moving onto the wall.
/// - `up`: from the wall pose straight up by the mantle height (hands).
/// - `down`: from the raised pose moved a hand's reach past the wall,
///   straight down by the raised distance (hands).
/// - `clearance`: from the wall pose lifted by the ledge height, toward the
///   wall by the hand reach (hands).
/// - `final_down`: from that landing pose straight down by the ledge height
///   (hands).
#[derive(Clone, Copy, PartialEq, Eq, Structural, Debug)]
pub struct MantleCasts {
    pub wall: Option<CastHit>,
    pub depen: Vec3,
    pub up: Option<CastHit>,
    pub down: Option<CastHit>,
    pub clearance: Option<CastHit>,
    pub final_down: Option<CastHit>,
}

impl MantleCasts {
    pub open spec fn wf(self) -> bool {
        &&& match self.wall {
            Some(h) => h.wf(),
            None => true,
        }
        &&& self.depen.in_range(CFG_LIMIT as int)
        &&& match self.up {
            Some(h) => h.wf(),
            None => true,
        }
        &&& match self.down {
            Some(h) => h.wf(),
            None => true,
        }
        &&& match self.clearance {
            Some(h) => h.wf(),
            None => true,
        }
        &&& match self.final_down {
            Some(h) => h.wf(),
            None => true,
        }
    }

    /// The probe casts never travel beyond their cast lengths.
    pub open spec fn lengths_ok(self, max_height: int) -> bool {
        &&& match self.up {
            Some(h) => h.distance <= max_height,
            None => true,
        }
        &&& match (self.down, self.up) {
            (Some(d), Some(u)) => d.distance <= u.distance,
            (Some(d), None) => d.distance <= max_height,
            _ => true,
        }
    }

    /// How far the hands rise.
    pub open spec fn up_travel(self, max_height: int) -> int {
        match self.up {
            Some(h) => h.distance as int,
            None => max_height,
        }
    }
}

/// What the mantle probe concludes: the full mantle record, if the wall,
/// the hand probes, the landing room and the landing slope all qualify and
/// the remaining climb (ledge height less the body height, plus the
/// pull-up allowance) is not negative.
pub open spec fn mantle_probe_spec(
    cfg: CharacterController,
    state: CharacterControllerState,
    wish_velocity: Vec3,
    casts: MantleCasts,
) -> Option<MantleProgress> {
    match ledge_wish_dir_spec(wish_velocity, state.orientation.forward) {
        None => None,
        Some(wd) => match casts.wall {
            None => None,
            Some(wh) => {
                let wn = wh.normal;
                if neg_spec(wn).dot_spec(wd) < cfg.min_mantle_cos {
                    None
                } else {
                    match casts.down {
                        None => None,
                        Some(dh) => {
                            let ledge_height = casts.up_travel(cfg.mantle_height as int)
                                - dh.distance;
                            if casts.clearance is Some {
                                None
                            } else {
                                match casts.final_down {
                                    None => None,
                                    Some(fh) => if fh.normal.y < cfg.min_walk_cos {
                                        None
                                    } else {
                                        let height_left = ledge_height
                                            - state.collider_spec().head_spec()
                                            + cfg.climb_pull_up_height;
                                        if height_left < 0 {
                                            None
                                        } else {
                                            Some(
                                                MantleProgress {
                                                    wall_normal: wn,
                                                    ledge_position: fh.point,
                                                    height_left: height_left as i64,
                                                    wall_entity: fh.entity,
                                                },
                                            )
                                        }
                                    },
                                }
                            }
                        },
                    }
                }
            },
        },
    }
}

/// Probe for a mantleable ledge with the hand geometry: reach for a wall
/// within the mantle cone, measure the ledge with the hand probe shape, and
/// accept only a geometrically consistent full climb whose remaining height
/// is non-negative. Commits nothing.
pub fn available_mantle_height(
    cfg: &CharacterController,
    state: &CharacterControllerState,
    wish_velocity: Vec3,
    casts: &MantleCasts,
) -> (r: Option<MantleProgress>)
    requires
        cfg.wf(),
        state.wf(),
        wish_velocity.in_range(2_000_000),
        casts.wf(),
        casts.lengths_ok(cfg.mantle_height as int),
    ensures
        r == mantle_probe_spec(*cfg, *state, wish_velocity, *casts),
        match r {
            Some(mp) => mp.wf() && mp.height_left >= 0,
            None => true,
        },
{
    let wish_dir = if !(wish_velocity.x == 0 && wish_velocity.y == 0 && wish_velocity.z == 0) {
        wish_velocity.normalize_or_zero()
    } else {
        let f = state.orientation.forward.flat();
        if f.x == 0 && f.y == 0 && f.z == 0 {
            return None;
        }
        f.normalize_or_zero()
    };
    let wall_hit = match casts.wall {
        Some(h) => h,
        None => {
            return None;
        },
    };
    let wall_normal = wall_hit.normal;
    let against = wall_normal.neg().dot(wish_dir);
    if against < cfg.min_mantle_cos {
        return None;
    }
    let up_dist = match casts.up {
        Some(h) => h.distance,
        None => cfg.mantle_height,
    };
    let down_dist = match casts.down {
        Some(h) => h.distance,
        None => {
            return None;
        },
    };
    let ledge_height = up_dist - down_dist;
    if casts.clearance.is_some() {
        return None;
    }
    let final_hit = match casts.final_down {
        Some(h) => h,
        None => {
            return None;
        },
    };
    if final_hit.normal.y < cfg.min_walk_cos {
        return None;
    }
    let head = state.pos_to_head_dist();
    let height_left = ledge_height - head + cfg.climb_pull_up_height;
    if height_left < 0 {
        return None;
    }
    Some(
        MantleProgress {
            wall_normal,
            ledge_position: final_hit.point,
            height_left,
            wall_entity: final_hit.entity,
        },
    )
}

/// Whether a buffered vault input makes the vault probe run this tick (an
/// active mantle re-probes every tick without input).
pub open spec fn crane_probe_eligible(
    cfg: CharacterController,
    state: CharacterControllerState,
    input: AccumulatedInput,
) -> bool {
    state.mantle_progress is Some || (match input.craned {
        Some(t) => t <= cfg.crane_input_buffer,
        None => false,
    })
}

/// What one vault-availability check does to the state and the input.
pub open spec fn update_crane_state_spec(
    cfg: CharacterController,
    state: CharacterControllerState,
    input: AccumulatedInput,
    wish_velocity: Vec3,
    velocity: Vec3,
    casts: LedgeCasts,
) -> (CharacterControllerState, AccumulatedInput) {
    if !crane_probe_eligible(cfg, state, input) {
        (state, input)
    } else {
        match ledge_probe_spec(
            cfg,
            wish_velocity,
            velocity,
            cfg.min_crane_cos as int,
            cfg.crane_height as int,
            casts,
        ) {
            None => (CharacterControllerState { crane_height_left: None, ..state }, input),
            Some(h) => (
                CharacterControllerState {
                    crane_height_left: Some(h as i64),
                    mantle_progress: None,
                    grounded: None,
                    ..state
                },
                AccumulatedInput {
                    craned: None,
                    jumped: None,
                    mantled: None,
                    tac: None,
                    climb_down: None,
                    ..input
                },
            ),
        }
    }
}

/// Check vault availability and start one when the probe succeeds. Starting
/// a vault consumes every climb-related buffered input (so the landing
/// frame cannot re-trigger them), cancels any mantle and leaves the ground:
/// the drive modes stay mutually exclusive. A failed probe clears any
/// remaining vault height.
pub fn update_crane_state(
    cfg: &CharacterController,
    state: &mut CharacterControllerState,
    input: &mut AccumulatedInput,
    wish_velocity: Vec3,
    velocity: Vec3,
    casts: &LedgeCasts,
)
    requires
        cfg.wf(),
        old(state).wf(),
        old(input).wf(),
        wish_velocity.in_range(2_000_000),
        velocity.in_range(300_000_000),
        casts.wf(),
        casts.lengths_ok(cfg.crane_height as int),
    ensures
        final(state).wf(),
        final(input).wf(),
        ({
            let out = update_crane_state_spec(
                *cfg,
                *old(state),
                *old(input),
                wish_velocity,
                velocity,
                *casts,
            );
            *final(state) == out.0 && *final(input) == out.1
        }),
        !crane_probe_eligible(*cfg, *old(state), *old(input)) ==> *final(state) == *old(state)
            && *final(input) == *old(input),
        crane_probe_eligible(*cfg, *old(state), *old(input)) ==> (match ledge_probe_spec(
            *cfg,
            wish_velocity,
            velocity,
            cfg.min_crane_cos as int,
            cfg.crane_height as int,
            *casts,
        ) {
            None => *final(state) == (CharacterControllerState {
                crane_height_left: None,
                ..*old(state)
            }) && *final(input) == *old(input),
            Some(h) => {
                &&& final(state).crane_height_left == Some(h as i64)
                &&& final(state).mantle_progress is None
                &&& final(state).grounded is None
                &&& final(input).craned is None
                &&& final(input).jumped is None
                &&& final(input).mantled is None
                &&& final(input).tac is None
                &&& final(input).climb_down is None
                &&& *final(state) == (CharacterControllerState {
                    crane_height_left: final(state).crane_height_left,
                    mantle_progress: None,
                    grounded: None,
                    ..*old(state)
                })
                &&& *final(input) == (AccumulatedInput {
                    craned: None,
                    jumped: None,
                    mantled: None,
                    tac: None,
                    climb_down: None,
                    ..*old(input)
                })
            },
        }),
{
    if state.mantle_progress.is_none() {
        let buffered = match input.craned {
            Some(t) => t <= cfg.crane_input_buffer,
            None => false,
        };
        if !buffered {
            return ;
        }
    }
    match available_crane_height(cfg, wish_velocity, velocity, casts) {
        None => {
            state.crane_height_left = None;
        },
        Some(crane_height) => {
            input.craned = None;
            input.jumped = None;
            input.mantled = None;
            input.tac = None;
            input.climb_down = None;
            state.mantle_progress = None;
            state.grounded = None;
            state.crane_height_left = Some(crane_height);
        },
    }
}

/// What one mantle-availability check does to the state and the input.
pub open spec fn update_mantle_state_spec(
    cfg: CharacterController,
    state: CharacterControllerState,
    input: AccumulatedInput,
    wish_velocity: Vec3,
    casts: MantleCasts,
) -> (CharacterControllerState, AccumulatedInput) {
    if state.crane_height_left is Some {
        (CharacterControllerState { mantle_progress: None, ..state }, input)
    } else if state.mantle_progress is Some {
        match input.jumped {
            Some(_) => (
                CharacterControllerState { mantle_progress: None, ..state },
                AccumulatedInput { jumped: None, ..input },
            ),
            None => (state, input),
        }
    } else {
        let buffered = match input.mantled {
            Some(t) => t <= cfg.mantle_input_buffer,
            None => false,
        };
        if !buffered {
            (state, input)
        } else {
            match mantle_probe_spec(cfg, state, wish_velocity, casts) {
                None => (state, input),
                Some(mp) => (
                    CharacterControllerState {
                        mantle_progress: Some(mp),
                        grounded: None,
                        ..state
                    },
                    AccumulatedInput {
                        craned: None,
                        mantled: None,
                        jumped: None,
                        tac: None,
                        climb_down: None,
                        ..input
                    },
                ),
            }
        }
    }
}

/// Check mantle availability and start one when the probe succeeds. An
/// active vault suppresses mantling; a buffered jump releases an active
/// mantle; otherwise a buffered mantle input within its window runs the
/// probe, and success consumes the climb inputs, leaves the ground and
/// records the mantle.
pub fn update_mantle_state(
    cfg: &CharacterController,
    state: &mut CharacterControllerState,
    input: &mut AccumulatedInput,
    wish_velocity: Vec3,
    casts: &MantleCasts,
)
    requires
        cfg.wf(),
        old(state).wf(),
        old(input).wf(),
        wish_velocity.in_range(2_000_000),
        casts.wf(),
        casts.lengths_ok(cfg.mantle_height as int),
    ensures
        final(state).wf(),
        final(input).wf(),
        ({
            let out = update_mantle_state_spec(*cfg, *old(state), *old(input), wish_velocity, *casts);
            *final(state) == out.0 && *final(input) == out.1
        }),
        old(state).crane_height_left is Some ==> *final(state) == (CharacterControllerState {
            mantle_progress: None,
            ..*old(state)
        }) && *final(input) == *old(input),
        old(state).crane_height_left is None && old(state).mantle_progress is Some ==> (match old(input).jumped {
            Some(_) => *final(state) == (CharacterControllerState {
                mantle_progress: None,
                ..*old(state)
            }) && *final(input) == (AccumulatedInput { jumped: None, ..*old(input) }),
            None => *final(state) == *old(state) && *final(input) == *old(input),
        }),
        old(state).crane_height_left is None && old(state).mantle_progress is None ==> {
            let buffered = match old(input).mantled {
                Some(t) => t <= cfg.mantle_input_buffer,
                None => false,
            };
            if !buffered {
                *final(state) == *old(state) && *final(input) == *old(input)
            } else {
                match mantle_probe_spec(*cfg, *old(state), wish_velocity, *casts) {
                    None => *final(state) == *old(state) && *final(input) == *old(input),
                    Some(mp) => {
                        &&& final(state).mantle_progress == Some(mp)
                        &&& final(state).grounded is None
                        &&& *final(state) == (CharacterControllerState {
                            mantle_progress: Some(mp),
                            grounded: None,
                            ..*old(state)
                        })
                        &&& *final(input) == (AccumulatedInput {
                            craned: None,
                            mantled: None,
                            jumped: None,
                            tac: None,
                            climb_down: None,
                            ..*old(input)
                        })
                    },
                }
            }
        },
{
    if state.crane_height_left.is_some() {
        state.mantle_progress = None;
        return ;
    }
    if state.mantle_progress.is_some() {
        if input.jumped.is_some() {
            input.jumped = None;
            state.mantle_progress = None;
        }
        return ;
    }
    let buffered = match input.mantled {
        Some(t) => t <= cfg.mantle_input_buffer,
        None => false,
    };
    if !buffered {
        return ;
    }
    match available_mantle_height(cfg, state, wish_velocity, casts) {
        None => {},
        Some(mp) => {
            input.craned = None;
            input.mantled = None;
            input.jumped = None;
            input.tac = None;
            input.climb_down = None;
            state.grounded = None;
            state.mantle_progress = Some(mp);
        },
    }
}

/// Whether a contact counts as a wall: its surface is too steep to stand
/// on, in either direction.
pub open spec fn is_wall_spec(cfg: CharacterController, c: WallContact) -> bool {
    mag(c.normal.y as int) < cfg.min_walk_cos
}

/// The wall the intersection sweep settles on: walking the contacts in
/// order, a too-steep contact replaces the running choice whenever its
/// penetration is no larger.
pub open spec fn closest_wall_spec(cfg: CharacterController, contacts: Seq<WallContact>) -> Option<
    WallContact,
>
    decreases contacts.len(),
{
    if contacts.len() == 0 {
        None
    } else {
        let prev = closest_wall_spec(cfg, contacts.drop_last());
        let c = contacts.last();
        if is_wall_spec(cfg, c) && (match prev {
            Some(p) => p.penetration >= c.penetration,
            None => true,
        }) {
            Some(c)
        } else {
            prev
        }
    }
}

/// The nearest qualifying wall among the contacts of a static intersection
/// sweep: of the contacts whose surface is too steep to stand on, the one
/// with the smallest penetration (the last such on ties).
pub fn closest_wall_normal(cfg: &CharacterController, contacts: &Vec<WallContact>) -> (r: Option<
    WallContact,
>)
    requires
        cfg.wf(),
        forall|i: int| 0 <= i < contacts@.len() ==> (#[trigger] contacts@[i]).wf(),
    ensures
        r == closest_wall_spec(*cfg, contacts@),
        r is Some <==> exists|i: int|
            0 <= i < contacts@.len() && is_wall_spec(*cfg, #[trigger] contacts@[i]),
        match r {
            Some(c) => {
                &&& exists|i: int| 0 <= i < contacts@.len() && #[trigger] contacts@[i] == c
                &&& is_wall_spec(*cfg, c)
                &&& forall|i: int|
                    0 <= i < contacts@.len() && is_wall_spec(*cfg, #[trigger] contacts@[i])
                        ==> c.penetration <= contacts@[i].penetration
                &&& c.wf()
            },
            None => true,
        },
{
    let mut closest: Option<WallContact> = None;
    let mut k: usize = 0;
    proof {
        assert(contacts@.subrange(0, 0) =~= Seq::<WallContact>::empty());
    }
    while k < contacts.len()
        invariant
            0 <= k <= contacts@.len(),
            forall|i: int| 0 <= i < contacts@.len() ==> (#[trigger] contacts@[i]).wf(),
            closest == closest_wall_spec(*cfg, contacts@.subrange(0, k as int)),
            closest is Some <==> exists|i: int|
                0 <= i < k && is_wall_spec(*cfg, #[trigger] contacts@[i]),
            match closest {
                Some(c) => {
                    &&& exists|i: int| 0 <= i < k && #[trigger] contacts@[i] == c
                    &&& is_wall_spec(*cfg, c)
                    &&& forall|i: int|
                        0 <= i < k && is_wall_spec(*cfg, #[trigger] contacts@[i])
                            ==> c.penetration <= contacts@[i].penetration
                    &&& c.wf()
                },
                None => true,
            },
        decreases contacts@.len() - k,
    {
        let c = contacts[k];
        let ny = if c.normal.y >= 0 {
            c.normal.y
        } else {
            -c.normal.y
        };
        if ny < cfg.min_walk_cos {
            let replace = match closest {
                Some(cur) => cur.penetration >= c.penetration,
                None => true,
            };
            if replace {
                closest = Some(c);
            }
        }
        k = k + 1;
        proof {
            assert(contacts@.subrange(0, k as int).drop_last() =~= contacts@.subrange(
                0,
                k as int - 1,
            ));
            assert(contacts@.subrange(0, k as int).last() == contacts@[k as int - 1]);
        }
    }
    proof {
        assert(contacts@.subrange(0, contacts@.len() as int) =~= contacts@);
    }
    closest
}

/// The length of the vertical vault cast this tick.
pub open spec fn crane_cast_len_spec(cfg: CharacterController, height_left: int, dt: int) -> int {
    let step = fmul(cfg.crane_speed as int, dt);
    if step <= height_left {
        step
    } else {
        height_left
    }
}

/// The casts the vault commit consumes, in order.
///
/// - `wall`: from the current pose along the wish direction by the minimum
///   vault ledge depth.
/// - `top`: from the current pose straight up by the vertical vault step.
/// - `slide`: the move-and-slide of the inherited platform velocity from
///   the raised pose over the tick.
/// - `exit`: from the slid pose along the (unit) drive velocity by the
///   minimum vault ledge depth.
/// - `depen`: the depenetration offset after climbing out over the ledge.
#[derive(Clone, Debug)]
pub struct CraneMoveCasts {
    pub wall: Option<CastHit>,
    pub top: Option<CastHit>,
    pub slide: MoveOutcome,
    pub exit: Option<CastHit>,
    pub depen: Vec3,
}

impl CraneMoveCasts {
    pub open spec fn wf(self) -> bool {
        &&& match self.wall {
            Some(h) => h.wf(),
            None => true,
        }
        &&& match self.top {
            Some(h) => h.wf() && h.distance <= CFG_LIMIT,
            None => true,
        }
        &&& self.slide.wf()
        &&& match self.exit {
            Some(h) => h.wf(),
            None => true,
        }
        &&& self.depen.in_range(CFG_LIMIT as int)
    }
}

/// What one vault tick yields: the state (contact list aside), the pose and
/// the velocity.
pub open spec fn handle_crane_movement_spec(
    cfg: CharacterController,
    state: CharacterControllerState,
    position: Vec3,
    velocity: Vec3,
    wish_velocity: Vec3,
    casts: CraneMoveCasts,
    dt: int,
) -> (CharacterControllerState, Vec3, Vec3) {
    match state.crane_height_left {
        None => (state, position, velocity),
        Some(h0) => {
            let base = state.base_velocity;
            let va0 = crate::accel::flat_drive_velocity_spec(cfg, velocity, wish_velocity, dt);
            let v1 = Vec3 {
                x: (va0.x + base.x) as i64,
                y: (va0.y + base.y) as i64,
                z: (va0.z + base.z) as i64,
            };
            if v1 == Vec3::zero_spec() {
                (CharacterControllerState { crane_height_left: None, ..state }, position, va0)
            } else {
                let vel_dir = v1.unit_spec();
                let wish_dir = if wish_velocity != Vec3::zero_spec() {
                    wish_velocity.unit_spec()
                } else {
                    vel_dir
                };
                let wall_ok = match casts.wall {
                    Some(wh) => neg_spec(wh.normal.flat_spec().unit_spec()).dot_spec(wish_dir)
                        >= cfg.min_crane_cos,
                    None => false,
                };
                if !wall_ok {
                    (CharacterControllerState { crane_height_left: None, ..state }, position, va0)
                } else {
                    let cast_len = crane_cast_len_spec(cfg, h0 as int, dt);
                    let travel = match casts.top {
                        Some(t) => t.distance as int,
                        None => cast_len,
                    };
                    let h1 = match casts.top {
                        Some(t) => 0int,
                        None => if h0 - travel >= 0 {
                            h0 - travel
                        } else {
                            0int
                        },
                    };
                    let tac = crate::step::tac_after_spec(
                        state.tac_velocity as int,
                        (Vec3 {
                            x: (base.x - casts.slide.velocity.x) as i64,
                            y: (base.y - casts.slide.velocity.y) as i64,
                            z: (base.z - casts.slide.velocity.z) as i64,
                        }).norm(),
                    );
                    let climb_out = casts.exit is None;
                    let k = fmul(v1.norm(), dt);
                    let pos1 = if climb_out {
                        Vec3 {
                            x: (casts.slide.position.x + fmul(vel_dir.x as int, k)
                                + casts.depen.x) as i64,
                            y: (casts.slide.position.y + fmul(vel_dir.y as int, k)
                                + casts.depen.y) as i64,
                            z: (casts.slide.position.z + fmul(vel_dir.z as int, k)
                                + casts.depen.z) as i64,
                        }
                    } else {
                        casts.slide.position
                    };
                    let crane1 = if h1 != 0 && !climb_out {
                        Some(h1 as i64)
                    } else {
                        None::<i64>
                    };
                    (
                        CharacterControllerState {
                            crane_height_left: crane1,
                            last_step_up: 0,
                            tac_velocity: tac as i64,
                            ..state
                        },
                        pos1,
                        va0,
                    )
                }
            }
        },
    }
}

/// The contacts one vault tick records: the platform slide's, once the
/// climb executes.
pub open spec fn crane_touches_spec(
    cfg: CharacterController,
    state: CharacterControllerState,
    velocity: Vec3,
    wish_velocity: Vec3,
    casts: CraneMoveCasts,
    dt: int,
) -> Seq<crate::sweep::TouchingEntity> {
    match state.crane_height_left {
        None => Seq::empty(),
        Some(h0) => {
            let base = state.base_velocity;
            let va0 = crate::accel::flat_drive_velocity_spec(cfg, velocity, wish_velocity, dt);
            let v1 = Vec3 {
                x: (va0.x + base.x) as i64,
                y: (va0.y + base.y) as i64,
                z: (va0.z + base.z) as i64,
            };
            if v1 == Vec3::zero_spec() {
                Seq::empty()
            } else {
                let vel_dir = v1.unit_spec();
                let wish_dir = if wish_velocity != Vec3::zero_spec() {
                    wish_velocity.unit_spec()
                } else {
                    vel_dir
                };
                let wall_ok = match casts.wall {
                    Some(wh) => neg_spec(wh.normal.flat_spec().unit_spec()).dot_spec(wish_dir)
                        >= cfg.min_crane_cos,
                    None => false,
                };
                if !wall_ok {
                    Seq::empty()
                } else {
                    casts.slide.touches@
                }
            }
        },
    }
}

/// Advance an active vault by one tick: re-find the closest qualifying wall
/// along the wish direction, rise by the vault speed capped by the
/// remaining height (a swept cast, never a teleport), ride the platform
/// slide, and on reaching the top climb out over the ledge. Any failed
/// check aborts the vault back to free movement.
pub fn handle_crane_movement(
    cfg: &CharacterController,
    state: &mut CharacterControllerState,
    position: &mut Vec3,
    velocity: &mut Vec3,
    wish_velocity: Vec3,
    casts: &CraneMoveCasts,
    dt: i64,
)
    requires
        cfg.wf(),
        old(state).wf(),
        old(position).in_range(POS_WORK as int),
        old(velocity).in_range(2_000_000),
        wish_velocity.in_range(2_000_000),
        casts.wf(),
        0 < dt <= 1_000,
    ensures
        final(state).wf(),
        final(position).in_range(700_000_000),
        final(velocity).in_range(60_000_000),
        final(state).orientation == old(state).orientation,
        ({
            let out = handle_crane_movement_spec(
                *cfg,
                *old(state),
                *old(position),
                *old(velocity),
                wish_velocity,
                *casts,
                dt as int,
            );
            &&& *final(state) == (CharacterControllerState {
                touching_entities: final(state).touching_entities,
                ..out.0
            })
            &&& *final(position) == out.1
            &&& *final(velocity) == out.2
        }),
        final(state).touching_entities@ == old(state).touching_entities@ + crane_touches_spec(
            *cfg,
            *old(state),
            *old(velocity),
            wish_velocity,
            *casts,
            dt as int,
        ),
        old(state).crane_height_left is None ==> *final(state) == *old(state) && *final(position)
            == *old(position) && *final(velocity) == *old(velocity),
        old(state).crane_height_left is Some ==> {
            let h0 = old(state).crane_height_left->Some_0;
            let base = old(state).base_velocity;
            let va0 = crate::accel::flat_drive_velocity_spec(*cfg, *old(velocity), wish_velocity, dt as int);
            let v1 = Vec3 {
                x: (va0.x + base.x) as i64,
                y: (va0.y + base.y) as i64,
                z: (va0.z + base.z) as i64,
            };
            &&& *final(velocity) == va0
            &&& (v1 == Vec3::zero_spec() ==> final(state).crane_height_left is None && *final(position) == *old(position) && *final(state) == (CharacterControllerState {
                crane_height_left: None,
                ..*old(state)
            }))
            &&& (v1 != Vec3::zero_spec() ==> {
                let vel_dir = v1.unit_spec();
                let wish_dir = if wish_velocity != Vec3::zero_spec() {
                    wish_velocity.unit_spec()
                } else {
                    vel_dir
                };
                let wall_ok = match casts.wall {
                    Some(wh) => neg_spec(wh.normal.flat_spec().unit_spec()).dot_spec(wish_dir)
                        >= cfg.min_crane_cos,
                    None => false,
                };
                if !wall_ok {
                    &&& final(state).crane_height_left is None
                    &&& *final(position) == *old(position)
                    &&& *final(state) == (CharacterControllerState {
                        crane_height_left: None,
                        ..*old(state)
                    })
                } else {
                    let cast_len = crane_cast_len_spec(*cfg, h0 as int, dt as int);
                    let travel = match casts.top {
                        Some(t) => t.distance as int,
                        None => cast_len,
                    };
                    let h1 = match casts.top {
                        Some(t) => 0int,
                        None => if h0 - travel >= 0 {
                            h0 - travel
                        } else {
                            0int
                        },
                    };
                    let climb_out = casts.exit is None;
                    let k = fmul(v1.norm(), dt as int);
                    &&& 0 <= travel
                    &&& (match casts.top {
                        Some(t) => t.distance <= cast_len ==> travel <= cast_len && travel <= h0,
                        None => travel <= cast_len && travel <= h0,
                    })
                    &&& final(state).last_step_up == 0
                    &&& final(state).tac_velocity == crate::step::tac_after_spec(
                        old(state).tac_velocity as int,
                        (Vec3 {
                            x: (base.x - casts.slide.velocity.x) as i64,
                            y: (base.y - casts.slide.velocity.y) as i64,
                            z: (base.z - casts.slide.velocity.z) as i64,
                        }).norm(),
                    )
                    &&& final(state).touching_entities@ == old(state).touching_entities@
                        + casts.slide.touches@
                    &&& final(state).crane_height_left == (if h1 != 0 && !climb_out {
                        Some(h1 as i64)
                    } else {
                        None::<i64>
                    })
                    &&& *final(position) == (if climb_out {
                        Vec3 {
                            x: (casts.slide.position.x + fmul(vel_dir.x as int, k)
                                + casts.depen.x) as i64,
                            y: (casts.slide.position.y + fmul(vel_dir.y as int, k)
                                + casts.depen.y) as i64,
                            z: (casts.slide.position.z + fmul(vel_dir.z as int, k)
                                + casts.depen.z) as i64,
                        }
                    } else {
                        casts.slide.position
                    })
                }
            })
        },
{
    let h0 = match state.crane_height_left {
        Some(h) => h,
        None => {
            return ;
        },
    };
    velocity.y = 0;
    crate::accel::ground_accelerate(cfg, velocity, wish_velocity, cfg.acceleration_hz, dt);
    velocity.y = 0;
    let drive = *velocity;
    *velocity = velocity.add(state.base_velocity);
    let speed = velocity.length();
    if speed == 0 {
        state.crane_height_left = None;
        *velocity = drive;
        return ;
    }
    let vel_dir = velocity.normalize_or_zero();
    let wish_dir = if !(wish_velocity.x == 0 && wish_velocity.y == 0 && wish_velocity.z == 0) {
        wish_velocity.normalize_or_zero()
    } else {
        vel_dir
    };
    *velocity = drive;
    let wall_ok = match casts.wall {
        Some(wh) => {
            let wn = wh.normal.flat().normalize_or_zero();
            wn.neg().dot(wish_dir) >= cfg.min_crane_cos
        },
        None => false,
    };
    if !wall_ok {
        state.crane_height_left = None;
        return ;
    }
    proof {
        lemma_fmul_mag(cfg.crane_speed as int, dt as int, CFG_LIMIT as int, 1_000);
    }
    let step = mul_fp(cfg.crane_speed, dt);
    let cast_len = imin(step, h0);
    let travel = match casts.top {
        Some(t) => t.distance,
        None => cast_len,
    };
    proof {
        assert(fmul(cfg.crane_speed as int, dt as int) >= 0) by {
            assert(cfg.crane_speed as int * dt as int >= 0) by (nonlinear_arith)
                requires
                    cfg.crane_speed >= 0,
                    dt >= 0,
            ;
        };
    }
    position.y = position.y + travel;
    let stash = *velocity;
    *velocity = state.base_velocity;
    crate::step::move_character(state, position, velocity, &casts.slide);
    *velocity = stash;
    let h1 = match casts.top {
        Some(_) => 0,
        None => imax(h0 - travel, 0),
    };
    state.crane_height_left = Some(h1);
    state.last_step_up = 0;
    proof {
        crate::math::lemma_norm_sq_bound(
            Vec3 {
                x: (drive.x + old(state).base_velocity.x) as i64,
                y: (drive.y + old(state).base_velocity.y) as i64,
                z: (drive.z + old(state).base_velocity.z) as i64,
            },
            41_000_000,
        );
        crate::math::lemma_root_le(
            speed as int,
            (Vec3 {
                x: (drive.x + old(state).base_velocity.x) as i64,
                y: (drive.y + old(state).base_velocity.y) as i64,
                z: (drive.z + old(state).base_velocity.z) as i64,
            }).norm_sq(),
            41_000_000,
        );
        lemma_fmul_mag(speed as int, dt as int, 82_000_000, 1_000);
        lemma_fmul_mag(vel_dir.x as int, fmul(speed as int, dt as int), 1_000, 82_000_000);
        lemma_fmul_mag(vel_dir.y as int, fmul(speed as int, dt as int), 1_000, 82_000_000);
        lemma_fmul_mag(vel_dir.z as int, fmul(speed as int, dt as int), 1_000, 82_000_000);
    }
    if h1 != 0 {
        if casts.exit.is_none() {
            let k = mul_fp(speed, dt);
            let disp = vel_dir.scale(k);
            *position = position.add(disp);
            crate::step::depenetrate_character(position, casts.depen);
            state.crane_height_left = None;
        }
        return ;
    }
    if casts.exit.is_some() {
        state.crane_height_left = None;
        return ;
    }
    let k = mul_fp(speed, dt);
    let disp = vel_dir.scale(k);
    *position = position.add(disp);
    crate::step::depenetrate_character(position, casts.depen);
    state.crane_height_left = None;
}

/// The queries the mantle commit consumes, in order.
///
/// - `contacts`: the contacts of a static intersection sweep around the
///   character within twice the skin width, to re-find the gripped wall.
/// - `wall_cast`: from the current pose into the found wall by twice the
///   skin width.
/// - `platform`: the motion of the wall entity that cast hit, when it is a
///   moving body.
/// - `top`: from the current pose along the vertical climb step (up when
///   climbing, down when lowering), by the step's magnitude.
/// - `slide`: the move-and-slide of the climb velocity plus the inherited
///   platform velocity from the current pose over the tick.
#[derive(Clone, Debug)]
pub struct MantleMoveQueries {
    pub contacts: Vec<WallContact>,
    pub wall_cast: Option<CastHit>,
    pub platform: Option<PlatformInfo>,
    pub top: Option<CastHit>,
    pub slide: MoveOutcome,
}

impl MantleMoveQueries {
    pub open spec fn wf(self) -> bool {
        &&& forall|i: int| 0 <= i < self.contacts@.len() ==> (#[trigger] self.contacts@[i]).wf()
        &&& match self.wall_cast {
            Some(h) => h.wf(),
            None => true,
        }
        &&& match self.platform {
            Some(p) => p.wf(),
            None => true,
        }
        &&& match self.top {
            Some(h) => h.wf() && h.distance <= 200_000_000,
            None => true,
        }
        &&& self.slide.wf()
    }
}

/// The signed vertical climb step a mantle asks for this tick: the mantle
/// speed scaled by the look-direction factor and the tick, capped by the
/// remaining height, and floored so the hands never rise above the grab
/// space below the ledge top.
pub open spec fn mantle_climb_spec(
    cfg: CharacterController,
    m: MantleProgress,
    wish_velocity: Vec3,
    dt: int,
) -> int {
    let wish_dir = wish_velocity.unit_spec();
    let wy = crate::accel::rescale_climb_cos_spec(wish_dir.y as int);
    let step = fmul(fmul(cfg.mantle_speed as int, dt), wy);
    let climb0 = if step <= m.height_left {
        step
    } else {
        m.height_left as int
    };
    let size_y = cfg.min_ledge_grab_space.size_y();
    if m.height_left - climb0 > cfg.mantle_height - size_y {
        m.height_left - cfg.mantle_height + size_y
    } else {
        climb0
    }
}

/// What one mantle tick yields: the state (contact list aside), the pose
/// and the velocity.
pub open spec fn handle_mantle_movement_spec(
    cfg: CharacterController,
    state: CharacterControllerState,
    position: Vec3,
    velocity: Vec3,
    wish_velocity: Vec3,
    queries: MantleMoveQueries,
    dt: int,
) -> (CharacterControllerState, Vec3, Vec3) {
    match state.mantle_progress {
        None => (state, position, velocity),
        Some(m) => {
            if wish_velocity == Vec3::zero_spec() {
                (state, position, Vec3::zero_spec())
            } else if closest_wall_spec(cfg, queries.contacts@) is None
                || queries.wall_cast is None {
                (
                    CharacterControllerState { mantle_progress: None, ..state },
                    position,
                    Vec3::zero_spec(),
                )
            } else {
                let wall = closest_wall_spec(cfg, queries.contacts@)->Some_0;
                let hit = queries.wall_cast->Some_0;
                let base1 = match queries.platform {
                    Some(p) => crate::grounding::platform_velocity_spec(
                        p,
                        Vec3 { x: position.x, y: m.ledge_position.y, z: position.z },
                        dt,
                    ),
                    None => state.base_velocity,
                };
                let climb = mantle_climb_spec(cfg, m, wish_velocity, dt);
                let sign: int = if climb >= 0 {
                    1
                } else {
                    -1
                };
                let travel = match queries.top {
                    Some(t) => t.distance * sign,
                    None => climb,
                };
                let vy = crate::camera::clamp_spec(
                    crate::math::fdiv(travel, dt),
                    -crate::accel::VEL_WORK as int,
                    crate::accel::VEL_WORK as int,
                );
                let vset = Vec3 { x: base1.x, y: (vy + base1.y) as i64, z: base1.z };
                let tac = crate::step::tac_after_spec(
                    state.tac_velocity as int,
                    (Vec3 {
                        x: (vset.x - queries.slide.velocity.x) as i64,
                        y: (vset.y - queries.slide.velocity.y) as i64,
                        z: (vset.z - queries.slide.velocity.z) as i64,
                    }).norm(),
                );
                let mp = MantleProgress {
                    wall_normal: wall.normal,
                    ledge_position: hit.point,
                    height_left: crate::camera::clamp_spec(
                        m.height_left - travel,
                        -100_000_000,
                        100_000_000,
                    ) as i64,
                    wall_entity: hit.entity,
                };
                (
                    CharacterControllerState {
                        mantle_progress: Some(mp),
                        base_velocity: base1,
                        tac_velocity: tac as i64,
                        last_step_up: (if climb > 0 {
                            0int
                        } else {
                            state.last_step_up as int
                        }) as i64,
                        last_step_down: (if climb > 0 {
                            state.last_step_down as int
                        } else {
                            0int
                        }) as i64,
                        ..state
                    },
                    queries.slide.position,
                    Vec3 {
                        x: (queries.slide.velocity.x - base1.x) as i64,
                        y: (queries.slide.velocity.y - base1.y) as i64,
                        z: (queries.slide.velocity.z - base1.z) as i64,
                    },
                )
            }
        },
    }
}

/// The contacts one mantle tick records: the climb slide's, once the climb
/// executes.
pub open spec fn mantle_touches_spec(
    cfg: CharacterController,
    state: CharacterControllerState,
    wish_velocity: Vec3,
    queries: MantleMoveQueries,
) -> Seq<crate::sweep::TouchingEntity> {
    match state.mantle_progress {
        None => Seq::empty(),
        Some(m) => {
            if wish_velocity == Vec3::zero_spec() {
                Seq::empty()
            } else if closest_wall_spec(cfg, queries.contacts@) is None
                || queries.wall_cast is None {
                Seq::empty()
            } else {
                queries.slide.touches@
            }
        },
    }
}

/// Advance an active mantle by one tick: track the gripped wall from a
/// fresh intersection sweep, inherit the wall's motion, and climb a swept
/// vertical step scaled by where the character looks (looking down climbs
/// back out). Losing the wall aborts the mantle; the drive velocity is
/// entirely the climb, so free horizontal movement is suppressed. The climb
/// velocity and the stored height are held inside the working ranges.
pub fn handle_mantle_movement(
    cfg: &CharacterController,
    state: &mut CharacterControllerState,
    position: &mut Vec3,
    velocity: &mut Vec3,
    wish_velocity: Vec3,
    queries: &MantleMoveQueries,
    dt: i64,
)
    requires
        cfg.wf(),
        old(state).wf(),
        old(position).in_range(POS_WORK as int),
        old(velocity).in_range(2_000_000),
        wish_velocity.in_range(2_000_000),
        queries.wf(),
        0 < dt <= 1_000,
    ensures
        final(state).wf(),
        final(position).in_range(POS_WORK as int),
        final(velocity).in_range(60_000_000),
        final(state).orientation == old(state).orientation,
        ({
            let out = handle_mantle_movement_spec(
                *cfg,
                *old(state),
                *old(position),
                *old(velocity),
                wish_velocity,
                *queries,
                dt as int,
            );
            &&& *final(state) == (CharacterControllerState {
                touching_entities: final(state).touching_entities,
                ..out.0
            })
            &&& *final(position) == out.1
            &&& *final(velocity) == out.2
        }),
        final(state).touching_entities@ == old(state).touching_entities@ + mantle_touches_spec(
            *cfg,
            *old(state),
            wish_velocity,
            *queries,
        ),
        old(state).mantle_progress is None ==> *final(state) == *old(state) && *final(position)
            == *old(position) && *final(velocity) == *old(velocity),
        old(state).mantle_progress is Some ==> {
            let m = old(state).mantle_progress->Some_0;
            if wish_velocity == Vec3::zero_spec() {
                *final(velocity) == Vec3::zero_spec() && *final(state) == *old(state) && *final(position) == *old(position)
            } else if closest_wall_spec(*cfg, queries.contacts@) is None || queries.wall_cast is None {
                &&& *final(velocity) == Vec3::zero_spec()
                &&& *final(position) == *old(position)
                &&& *final(state) == (CharacterControllerState {
                    mantle_progress: None,
                    ..*old(state)
                })
            } else {
                let wall = closest_wall_spec(*cfg, queries.contacts@)->Some_0;
                let hit = queries.wall_cast->Some_0;
                let base1 = match queries.platform {
                    Some(p) => crate::grounding::platform_velocity_spec(
                        p,
                        Vec3 {
                            x: old(position).x,
                            y: m.ledge_position.y,
                            z: old(position).z,
                        },
                        dt as int,
                    ),
                    None => old(state).base_velocity,
                };
                let climb = mantle_climb_spec(*cfg, m, wish_velocity, dt as int);
                let sign: int = if climb >= 0 {
                    1
                } else {
                    -1
                };
                let travel = match queries.top {
                    Some(t) => t.distance * sign,
                    None => climb,
                };
                let vy = crate::camera::clamp_spec(
                    crate::math::fdiv(travel, dt as int),
                    -crate::accel::VEL_WORK as int,
                    crate::accel::VEL_WORK as int,
                );
                let vset = Vec3 {
                    x: base1.x,
                    y: (vy + base1.y) as i64,
                    z: base1.z,
                };
                &&& *final(position) == queries.slide.position
                &&& final(velocity).x == queries.slide.velocity.x - base1.x
                &&& final(velocity).y == queries.slide.velocity.y - base1.y
                &&& final(velocity).z == queries.slide.velocity.z - base1.z
                &&& final(state).base_velocity == base1
                &&& final(state).mantle_progress == Some(
                    MantleProgress {
                        wall_normal: wall.normal,
                        ledge_position: hit.point,
                        height_left: crate::camera::clamp_spec(
                            m.height_left - travel,
                            -100_000_000,
                            100_000_000,
                        ) as i64,
                        wall_entity: hit.entity,
                    },
                )
                &&& final(state).touching_entities@ == old(state).touching_entities@
                    + queries.slide.touches@
                &&& final(state).tac_velocity == crate::step::tac_after_spec(
                    old(state).tac_velocity as int,
                    (Vec3 {
                        x: (vset.x - queries.slide.velocity.x) as i64,
                        y: (vset.y - queries.slide.velocity.y) as i64,
                        z: (vset.z - queries.slide.velocity.z) as i64,
                    }).norm(),
                )
                &&& (climb > 0 ==> final(state).last_step_up == 0 && final(state).last_step_down
                    == old(state).last_step_down)
                &&& (climb <= 0 ==> final(state).last_step_down == 0 && final(state).last_step_up
                    == old(state).last_step_up)
                &&& (match queries.top {
                    Some(t) => travel == t.distance * sign,
                    None => travel == climb,
                })
            }
        },
{
    let m = match state.mantle_progress {
        Some(m) => m,
        None => {
            return ;
        },
    };
    *velocity = Vec3::zero();
    if wish_velocity.x == 0 && wish_velocity.y == 0 && wish_velocity.z == 0 {
        return ;
    }
    let wish_dir = wish_velocity.normalize_or_zero();
    let wall = match closest_wall_normal(cfg, &queries.contacts) {
        Some(c) => c,
        None => {
            state.mantle_progress = None;
            return ;
        },
    };
    let hit = match queries.wall_cast {
        Some(h) => h,
        None => {
            state.mantle_progress = None;
            return ;
        },
    };
    if let Some(p) = queries.platform {
        let v = crate::grounding::inherited_platform_velocity(
            m.ledge_position,
            &p,
            *position,
            dt,
        );
        state.base_velocity = v;
    }
    let wy = crate::accel::rescale_climb_cos(wish_dir.y);
    proof {
        lemma_fmul_mag(cfg.mantle_speed as int, dt as int, CFG_LIMIT as int, 1_000);
        lemma_fmul_mag(fmul(cfg.mantle_speed as int, dt as int), wy as int, CFG_LIMIT as int, FP as int);
    }
    let step = mul_fp(mul_fp(cfg.mantle_speed, dt), wy);
    let climb0 = imin(step, m.height_left);
    let size_y = 2 * cfg.min_ledge_grab_space.half_y;
    let climb = if m.height_left - climb0 > cfg.mantle_height - size_y {
        m.height_left - cfg.mantle_height + size_y
    } else {
        climb0
    };
    let sign: i64 = if climb >= 0 {
        1
    } else {
        -1
    };
    let travel = match queries.top {
        Some(t) => if sign >= 0 {
            t.distance
        } else {
            -t.distance
        },
        None => climb,
    };
    proof {
        match queries.top {
            Some(t) => {
                assert(t.distance as int * 1 == t.distance as int) by (nonlinear_arith);
                assert(t.distance as int * (-1) == -(t.distance as int)) by (nonlinear_arith);
            },
            None => {},
        }
    }
    let vy = crate::math::iclamp(
        crate::math::div_fp(travel, dt),
        -crate::accel::VEL_WORK,
        crate::accel::VEL_WORK,
    );
    let vset = Vec3 {
        x: state.base_velocity.x,
        y: vy + state.base_velocity.y,
        z: state.base_velocity.z,
    };
    *velocity = vset;
    crate::step::move_character(state, position, velocity, &queries.slide);
    *velocity = velocity.sub(state.base_velocity);
    let new_height = crate::math::iclamp(m.height_left - travel, -100_000_000, 100_000_000);
    state.mantle_progress = Some(
        MantleProgress {
            wall_normal: wall.normal,
            ledge_position: hit.point,
            height_left: new_height,
            wall_entity: hit.entity,
        },
    );
    if climb > 0 {
        state.last_step_up = 0;
    } else {
        state.last_step_down = 0;
    }
}

} // verus!
