//! The mutable per-character record carried across ticks.

use vstd::prelude::*;
use crate::math::{Vec3, COORD_LIMIT, CFG_LIMIT, FP};
use crate::sweep::{CastHit, TouchingEntity};

verus! {

/// Saturation point of the per-character stopwatches, in milliseconds.
pub const TIMER_MAX: i64 = 1_000_000_000;

/// Upper bound kept on the accumulated wall-jump energy.
pub const TAC_ENERGY_LIMIT: i64 = 1_000_000_000;

/// Advance a stopwatch by `dt` milliseconds, saturating at [`TIMER_MAX`].
pub fn tick_timer(t: i64, dt: i64) -> (r: i64)
    requires
        0 <= t <= TIMER_MAX,
        0 <= dt <= 1_000_000,
    ensures
        r == if t + dt <= TIMER_MAX {
            t + dt
        } else {
            TIMER_MAX as int
        },
        0 <= r <= TIMER_MAX,
{
    if t + dt <= TIMER_MAX {
        t + dt
    } else {
        TIMER_MAX
    }
}

/// The character's collision silhouette, summarised by the quantities the
/// movement logic reads. The vertical offset shifts the shape's centre
/// relative to the body origin (the crouching shape hangs low so the feet
/// stay put).
#[derive(Clone, Copy, PartialEq, Eq, Structural, Debug)]
pub enum ColliderShape {
    Capsule { half_length: i64, radius: i64, offset_y: i64 },
    Cylinder { half_height: i64, radius: i64, offset_y: i64 },
}

impl ColliderShape {
    pub open spec fn wf(self) -> bool {
        match self {
            ColliderShape::Capsule { half_length, radius, offset_y } => {
                &&& 0 <= half_length <= CFG_LIMIT
                &&& 0 <= radius <= CFG_LIMIT
                &&& -(2 * CFG_LIMIT) <= offset_y <= 2 * CFG_LIMIT
            },
            ColliderShape::Cylinder { half_height, radius, offset_y } => {
                &&& 0 <= half_height <= CFG_LIMIT
                &&& 0 <= radius <= CFG_LIMIT
                &&& -(2 * CFG_LIMIT) <= offset_y <= 2 * CFG_LIMIT
            },
        }
    }

    /// The top of the shape, relative to the body origin.
    pub open spec fn head_spec(self) -> int {
        match self {
            ColliderShape::Capsule { half_length, radius, offset_y } => offset_y + half_length
                + radius,
            ColliderShape::Cylinder { half_height, radius: _, offset_y } => offset_y + half_height,
        }
    }

    /// The bottom of the shape, relative to the body origin.
    pub open spec fn feet_spec(self) -> int {
        match self {
            ColliderShape::Capsule { half_length, radius, offset_y } => offset_y - half_length
                - radius,
            ColliderShape::Cylinder { half_height, radius: _, offset_y } => offset_y - half_height,
        }
    }

    /// The horizontal reach of the shape.
    pub open spec fn radius_spec(self) -> int {
        match self {
            ColliderShape::Capsule { half_length: _, radius, offset_y: _ } => radius as int,
            ColliderShape::Cylinder { half_height: _, radius, offset_y: _ } => radius as int,
        }
    }

    /// The full vertical extent of the shape.
    pub open spec fn height_spec(self) -> int {
        self.head_spec() - self.feet_spec()
    }
}

/// The look orientation used for wish-direction computation: the forward and
/// right basis vectors of the linked camera (or of the body when unlinked),
/// unit length in fixed point.
#[derive(Clone, Copy, PartialEq, Eq, Structural, Debug)]
pub struct Orientation {
    pub forward: Vec3,
    pub right: Vec3,
}

impl Orientation {
    pub open spec fn wf(self) -> bool {
        &&& self.forward.in_range(FP as int)
        &&& self.right.in_range(FP as int)
    }

    /// Level basis looking along negative z.
    pub fn identity() -> (r: Orientation)
        ensures
            r.forward == (Vec3 { x: 0i64, y: 0i64, z: -1000i64 }),
            r.right == (Vec3 { x: 1000i64, y: 0i64, z: 0i64 }),
            r.wf(),
    {
        Orientation {
            forward: Vec3 { x: 0, y: 0, z: -1000 },
            right: Vec3 { x: 1000, y: 0, z: 0 },
        }
    }
}

/// An in-progress hand-mantle: what is left to climb and the wall being
/// gripped.
#[derive(Clone, Copy, PartialEq, Eq, Structural, Debug)]
pub struct MantleProgress {
    /// The gripped wall's outward normal.
    pub wall_normal: Vec3,
    /// The ledge contact point in world space.
    pub ledge_position: Vec3,
    /// The climb height still to cover; drains toward zero.
    pub height_left: i64,
    /// The entity of the gripped wall.
    pub wall_entity: u64,
}

impl MantleProgress {
    pub open spec fn wf(self) -> bool {
        &&& self.wall_normal.in_range(FP as int)
        &&& self.ledge_position.in_range(COORD_LIMIT as int)
        &&& -100_000_000 <= self.height_left <= 100_000_000
    }
}

/// Mutable controller state, updated only by the per-tick pipeline.
#[derive(Clone, Debug)]
pub struct CharacterControllerState {
    /// The look orientation recomputed each tick.
    pub orientation: Orientation,
    /// Velocity inherited from the supporting or gripped body.
    pub base_velocity: Vec3,
    /// The silhouette used while standing.
    pub standing_collider: ColliderShape,
    /// The silhouette used while crouching.
    pub crouching_collider: ColliderShape,
    /// The supporting contact, if any.
    pub grounded: Option<CastHit>,
    /// Whether the crouching silhouette is active.
    pub crouching: bool,
    /// Collision momentum lost to sliding, stored for wall-jumps and decayed
    /// one percent per slide.
    pub tac_velocity: i64,
    /// Contacts of the current tick; cleared and rebuilt every tick.
    pub touching_entities: Vec<TouchingEntity>,
    /// Milliseconds since the character was last grounded.
    pub last_ground: i64,
    /// Milliseconds since the last wall-jump.
    pub last_tac: i64,
    /// Milliseconds since the last step up.
    pub last_step_up: i64,
    /// Milliseconds since the last step down.
    pub last_step_down: i64,
    /// Remaining vault height while a vault is active.
    pub crane_height_left: Option<i64>,
    /// The in-progress hand-mantle, if any.
    pub mantle_progress: Option<MantleProgress>,
}

impl CharacterControllerState {
    /// Grounded, vaulting and mantling are mutually exclusive drive modes.
    pub open spec fn modes_exclusive(self) -> bool {
        &&& !(self.grounded is Some && self.crane_height_left is Some)
        &&& !(self.grounded is Some && self.mantle_progress is Some)
        &&& !(self.crane_height_left is Some && self.mantle_progress is Some)
    }

    pub open spec fn wf(self) -> bool {
        &&& self.orientation.wf()
        &&& self.base_velocity.in_range(CFG_LIMIT as int)
        &&& self.standing_collider.wf()
        &&& self.crouching_collider.wf()
        &&& match self.grounded {
            Some(hit) => hit.wf(),
            None => true,
        }
        &&& 0 <= self.tac_velocity <= TAC_ENERGY_LIMIT
        &&& forall|i: int|
            0 <= i < self.touching_entities@.len() ==> (#[trigger] self.touching_entities@[i]).wf()
        &&& 0 <= self.last_ground <= TIMER_MAX
        &&& 0 <= self.last_tac <= TIMER_MAX
        &&& 0 <= self.last_step_up <= TIMER_MAX
        &&& 0 <= self.last_step_down <= TIMER_MAX
        &&& match self.crane_height_left {
            Some(h) => 0 <= h <= CFG_LIMIT,
            None => true,
        }
        &&& match self.mantle_progress {
            Some(p) => p.wf(),
            None => true,
        }
        &&& self.modes_exclusive()
    }

    /// A fresh state: airborne, standing, every stopwatch saturated.
    pub fn new(standing: ColliderShape, crouching: ColliderShape) -> (r: Self)
        requires
            standing.wf(),
            crouching.wf(),
        ensures
            r.wf(),
            r.standing_collider == standing,
            r.crouching_collider == crouching,
            r.grounded is None,
            r.crane_height_left is None,
            r.mantle_progress is None,
            !r.crouching,
            r.base_velocity == Vec3::zero_spec(),
            r.tac_velocity == 0,
            r.last_ground == TIMER_MAX,
            r.last_tac == TIMER_MAX,
            r.last_step_up == TIMER_MAX,
            r.last_step_down == TIMER_MAX,
            r.touching_entities@.len() == 0,
    {
        CharacterControllerState {
            orientation: Orientation::identity(),
            base_velocity: Vec3::zero(),
            standing_collider: standing,
            crouching_collider: crouching,
            grounded: None,
            crouching: false,
            tac_velocity: 0,
            touching_entities: Vec::new(),
            last_ground: TIMER_MAX,
            last_tac: TIMER_MAX,
            last_step_up: TIMER_MAX,
            last_step_down: TIMER_MAX,
            crane_height_left: None,
            mantle_progress: None,
        }
    }

    /// The silhouette selected by the crouch flag.
    pub open spec fn collider_spec(self) -> ColliderShape {
        if self.crouching {
            self.crouching_collider
        } else {
            self.standing_collider
        }
    }

    /// The silhouette active this tick: exactly one of standing or crouching.
    pub fn collider(&self) -> (r: ColliderShape)
        ensures
            r == self.collider_spec(),
    {
        if self.crouching {
            self.crouching_collider
        } else {
            self.standing_collider
        }
    }

    /// Distance from the body origin to the top of the active silhouette.
    pub fn pos_to_head_dist(&self) -> (r: i64)
        requires
            self.wf(),
        ensures
            r == self.collider_spec().head_spec(),
            -(4 * CFG_LIMIT) <= r <= 4 * CFG_LIMIT,
    {
        match self.collider() {
            ColliderShape::Capsule { half_length, radius, offset_y } => offset_y + half_length
                + radius,
            ColliderShape::Cylinder { half_height, radius: _, offset_y } => offset_y + half_height,
        }
    }

    /// Distance from the body origin to the bottom of the active silhouette.
    pub fn pos_to_feet_dist(&self) -> (r: i64)
        requires
            self.wf(),
        ensures
            r == self.collider_spec().feet_spec(),
            -(4 * CFG_LIMIT) <= r <= 4 * CFG_LIMIT,
    {
        match self.collider() {
            ColliderShape::Capsule { half_length, radius, offset_y } => offset_y - half_length
                - radius,
            ColliderShape::Cylinder { half_height, radius: _, offset_y } => offset_y - half_height,
        }
    }

    /// The horizontal reach of the active silhouette.
    pub fn radius(&self) -> (r: i64)
        requires
            self.wf(),
        ensures
            r == self.collider_spec().radius_spec(),
            0 <= r <= CFG_LIMIT,
    {
        match self.collider() {
            ColliderShape::Capsule { half_length: _, radius, offset_y: _ } => radius,
            ColliderShape::Cylinder { half_height: _, radius, offset_y: _ } => radius,
        }
    }
}

/// Grounded, vaulting and mantling are never simultaneously active: every
/// well-formed controller state keeps the three drive modes mutually
/// exclusive, and every verified mutation preserves well-formedness.
pub proof fn lemma_drive_modes_exclusive(state: CharacterControllerState)
    requires
        state.wf(),
    ensures
        !(state.grounded is Some && state.crane_height_left is Some),
        !(state.grounded is Some && state.mantle_progress is Some),
        !(state.crane_height_left is Some && state.mantle_progress is Some),
{
}

/// Build the crouching silhouette from the standing one, as done once when a
/// character is attached: a capsule keeps its radius and shortens its segment
/// to fit `crouch_height`; any other shape is scaled vertically. Either way
/// the result hangs at an offset that keeps the feet level with the standing
/// shape's feet.
pub fn derive_crouching_collider(standing: ColliderShape, crouch_height: i64) -> (r: ColliderShape)
    requires
        standing.wf(),
        0 <= crouch_height <= CFG_LIMIT,
        standing.height_spec() >= 1,
        match standing {
            ColliderShape::Capsule { offset_y, .. } => offset_y == 0,
            ColliderShape::Cylinder { offset_y, .. } => offset_y == 0,
        },
    ensures
        r.wf(),
        r.radius_spec() == standing.radius_spec(),
        match (standing, r) {
            (
                ColliderShape::Capsule { half_length: _, radius, offset_y: _ },
                ColliderShape::Capsule { half_length: hl, radius: r2, offset_y: off },
            ) => {
                &&& r2 == radius
                &&& hl == (if crouch_height - radius >= 0 {
                    (crouch_height - radius) / 2
                } else {
                    0
                })
                &&& off == crate::math::div_t(crouch_height - standing.height_spec(), 2)
            },
            (
                ColliderShape::Cylinder { half_height: _, radius, offset_y: _ },
                ColliderShape::Cylinder { half_height: hh, radius: r2, offset_y: off },
            ) => {
                &&& r2 == radius
                &&& hh == crouch_height / 2
                &&& off == crate::math::div_t(crouch_height - standing.height_spec(), 2)
            },
            _ => false,
        },
{
    match standing {
        ColliderShape::Capsule { half_length, radius, offset_y: _ } => {
            let standing_height = 2 * half_length + 2 * radius;
            let new_height = if crouch_height - radius >= 0 {
                crouch_height - radius
            } else {
                0
            };
            ColliderShape::Capsule {
                half_length: new_height / 2,
                radius,
                offset_y: (crouch_height - standing_height) / 2,
            }
        },
        ColliderShape::Cylinder { half_height, radius, offset_y: _ } => {
            let standing_height = 2 * half_height;
            ColliderShape::Cylinder {
                half_height: crouch_height / 2,
                radius,
                offset_y: (crouch_height - standing_height) / 2,
            }
        },
    }
}

} // verus!
