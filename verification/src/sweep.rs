//! Plain-value results of the collision-sweep service.
//!
//! The sweep service (depenetration, directional casts, combined
//! move-and-slide, static intersection tests) is an outside geometric
//! collaborator. Its answers reach the controller as the types below; every
//! decision the controller takes on them is verified, for every answer the
//! well-formedness bounds admit.

use vstd::prelude::*;
use crate::math::{Vec3, COORD_LIMIT, VEL_LIMIT, CFG_LIMIT, FP};

verus! {

/// The result of a directional cast: the first surface hit when sweeping the
/// active collider along a displacement.
#[derive(Clone, Copy, PartialEq, Eq, Structural, Debug)]
pub struct CastHit {
    /// The entity of the collider that was hit.
    pub entity: u64,
    /// How far the shape could travel before the hit, keeping its skin width.
    pub distance: i64,
    /// The hit point on the hit shape, in world space.
    pub point: Vec3,
    /// The outward surface normal at the hit point, unit length.
    pub normal: Vec3,
    /// Whether the shape already started inside the hit collider.
    pub intersecting: bool,
}

impl CastHit {
    pub open spec fn wf(self) -> bool {
        &&& 0 <= self.distance <= COORD_LIMIT
        &&& self.point.in_range(COORD_LIMIT as int)
        &&& self.normal.in_range(FP as int)
    }
}

/// One contact reported during a move-and-slide, kept for the per-tick
/// contact list that downstream force application consumes.
#[derive(Clone, Copy, PartialEq, Eq, Structural, Debug)]
pub struct TouchingEntity {
    /// The entity of the collider that was touched.
    pub entity: u64,
    /// The travel distance that still keeps the skin width.
    pub distance: i64,
    /// The hit point in world space.
    pub point: Vec3,
    /// The outward surface normal at the hit point.
    pub normal: Vec3,
    /// The character's position at the time of the contact.
    pub character_position: Vec3,
    /// The character's velocity at the time of the contact.
    pub character_velocity: Vec3,
    /// The raw distance to the collision, ignoring skin width.
    pub collision_distance: i64,
}

impl TouchingEntity {
    pub open spec fn wf(self) -> bool {
        &&& 0 <= self.distance <= COORD_LIMIT
        &&& self.point.in_range(COORD_LIMIT as int)
        &&& self.normal.in_range(FP as int)
        &&& self.character_position.in_range(COORD_LIMIT as int)
        &&& self.character_velocity.in_range(VEL_LIMIT as int)
        &&& 0 <= self.collision_distance <= COORD_LIMIT
    }
}

/// The result of a combined move-and-slide: the final pose, the velocity
/// projected along the contact planes, and every contact on the way.
#[derive(Clone, Debug)]
pub struct MoveOutcome {
    /// Where the shape ended up.
    pub position: Vec3,
    /// The velocity after sliding along every contact plane.
    pub velocity: Vec3,
    /// Every contact reported during the slide, in order.
    pub touches: Vec<TouchingEntity>,
}

impl MoveOutcome {
    pub open spec fn wf(self) -> bool {
        &&& self.position.in_range(COORD_LIMIT as int)
        &&& self.velocity.in_range(VEL_LIMIT as int)
        &&& forall|i: int| 0 <= i < self.touches@.len() ==> (#[trigger] self.touches@[i]).wf()
    }
}

/// The sampled motion state of a supporting or gripped body, for platform
/// inheritance.
#[derive(Clone, Copy, PartialEq, Eq, Structural, Debug)]
pub struct PlatformInfo {
    /// The body's centre of mass in world space.
    pub world_com: Vec3,
    /// The body's linear velocity.
    pub linear_velocity: Vec3,
    /// The body's angular velocity (scaled-axis form).
    pub angular_velocity: Vec3,
}

impl PlatformInfo {
    pub open spec fn wf(self) -> bool {
        &&& self.world_com.in_range(COORD_LIMIT as int)
        &&& self.linear_velocity.in_range(CFG_LIMIT as int)
        &&& self.angular_velocity.in_range(CFG_LIMIT as int)
    }
}

/// One contact from a static intersection sweep around the character, used
/// to find the nearest wall while mantling.
#[derive(Clone, Copy, PartialEq, Eq, Structural, Debug)]
pub struct WallContact {
    /// The contact point in world space.
    pub point: Vec3,
    /// The outward surface normal at the contact, unit length.
    pub normal: Vec3,
    /// How deep the shapes overlap at this contact.
    pub penetration: i64,
}

impl WallContact {
    pub open spec fn wf(self) -> bool {
        &&& self.point.in_range(COORD_LIMIT as int)
        &&& self.normal.in_range(FP as int)
        &&& 0 <= self.penetration <= COORD_LIMIT
    }
}

/// One collider currently overlapping the character's shape, from a static
/// intersection test.
#[derive(Clone, Copy, PartialEq, Eq, Structural, Debug)]
pub struct IntersectionHit {
    /// The overlapping entity.
    pub entity: u64,
    /// Whether that entity is a water volume (water never blocks standing up).
    pub is_water: bool,
}

} // verus!
