//! The camera link and look-angle handling.

use vstd::prelude::*;
use crate::math::{Vec2, div_t, mag};
use crate::config::CharacterController;
use crate::state::CharacterControllerState;

verus! {

/// Highest pitch magnitude, in milliradians: a hair under a quarter turn.
pub const PITCH_LIMIT: i64 = 1_560;

/// Marks a camera as belonging to a character (holds the character entity).
#[derive(Clone, Copy, PartialEq, Eq, Structural, Debug)]
pub struct CharacterControllerCameraOf(pub u64);

/// The character's side of the camera link (holds the camera entity).
#[derive(Clone, Copy, PartialEq, Eq, Structural, Debug)]
pub struct CharacterControllerCamera(u64);

impl CharacterControllerCamera {
    /// The linked camera entity.
    pub closed spec fn entity_spec(self) -> u64 {
        self.0
    }

    /// Link to the given camera entity.
    pub fn link(camera: u64) -> (r: CharacterControllerCamera)
        ensures
            r.entity_spec() == camera,
    {
        CharacterControllerCamera(camera)
    }

    /// The linked camera entity.
    pub fn get(self) -> (r: u64)
        ensures
            r == self.entity_spec(),
    {
        self.0
    }
}

/// The camera's look angles, in milliradians.
#[derive(Clone, Copy, PartialEq, Eq, Structural, Debug)]
pub struct LookAngles {
    pub yaw: i64,
    pub pitch: i64,
}

impl LookAngles {
    pub open spec fn wf(self) -> bool {
        &&& -10_000_000 <= self.yaw <= 10_000_000
        &&& -PITCH_LIMIT <= self.pitch <= PITCH_LIMIT
    }
}

/// One milliradian step per 0.0573 degrees: converts a rotation input given
/// in millidegrees to milliradians (truncating).
pub open spec fn mdeg_to_mrad(d: int) -> int {
    div_t(d * 3_141_593, 180_000_000)
}

/// Apply a rotation input to the look angles: the input (in millidegrees,
/// screen sense) is negated, yaw accumulates (held inside a wide working
/// range) and pitch is clamped just inside straight up and straight down.
pub fn rotate_camera(angles: &mut LookAngles, delta: Vec2)
    requires
        old(angles).wf(),
        mag(delta.x as int) <= 2_000_000_000,
        mag(delta.y as int) <= 2_000_000_000,
    ensures
        final(angles).wf(),
        final(angles).yaw == clamp_spec(
            old(angles).yaw + mdeg_to_mrad(-delta.x),
            -10_000_000,
            10_000_000,
        ),
        final(angles).pitch == clamp_spec(
            old(angles).pitch + mdeg_to_mrad(-delta.y),
            -PITCH_LIMIT as int,
            PITCH_LIMIT as int,
        ),
{
    proof {
        crate::math::lemma_mul_mag(-delta.x as int, 3_141_593, 2_000_000_000, 3_141_593);
        crate::math::lemma_div_t_mag(
            (-delta.x as int) * 3_141_593,
            180_000_000,
            2_000_000_000int * 3_141_593,
        );
        crate::math::lemma_mul_mag(-delta.y as int, 3_141_593, 2_000_000_000, 3_141_593);
        crate::math::lemma_div_t_mag(
            (-delta.y as int) * 3_141_593,
            180_000_000,
            2_000_000_000int * 3_141_593,
        );
    }
    let dyaw: i64 = ((-delta.x) * 3_141_593) / 180_000_000;
    let dpitch: i64 = ((-delta.y) * 3_141_593) / 180_000_000;
    angles.yaw = crate::math::iclamp(angles.yaw + dyaw, -10_000_000, 10_000_000);
    angles.pitch = crate::math::iclamp(angles.pitch + dpitch, -PITCH_LIMIT, PITCH_LIMIT);
}

/// Where `a` lands when forced into `[lo, hi]`.
pub open spec fn clamp_spec(a: int, lo: int, hi: int) -> int {
    if a < lo {
        lo
    } else if a > hi {
        hi
    } else {
        a
    }
}

/// The world-space height of the camera above the character's position: the
/// configured view height measured from the feet of the shape the character
/// spawned with.
pub fn camera_height(cfg: &CharacterController, state: &CharacterControllerState) -> (r: i64)
    requires
        cfg.wf(),
        state.wf(),
    ensures
        r == (if state.crouching {
            cfg.crouch_view_height as int
        } else {
            cfg.standing_view_height as int
        }) - div_t(state.standing_collider.height_spec(), 2),
        mag(r as int) <= 3 * crate::math::CFG_LIMIT,
{
    let height = match state.standing_collider {
        crate::state::ColliderShape::Capsule { half_length, radius, offset_y: _ } => 2
            * half_length + 2 * radius,
        crate::state::ColliderShape::Cylinder { half_height, radius: _, offset_y: _ } => 2
            * half_height,
    };
    let view_height = if state.crouching {
        cfg.crouch_view_height
    } else {
        cfg.standing_view_height
    };
    view_height - height / 2
}

} // verus!
