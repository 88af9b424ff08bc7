//! Forces on the dynamic bodies the character touches.
//!
//! The controller never mutates other bodies; it reports its contacts, and
//! a downstream force-application pass turns each into an impulse at the
//! touch point. The impulse computed here is the character's momentum into
//! the touched surface: its velocity projected onto the inward surface
//! direction, times its mass.

use vstd::prelude::*;
use crate::math::{Vec3, fmul, lemma_fmul_mag, lemma_div_t_mag, lemma_mul_mag, FP, CFG_LIMIT};
use crate::sweep::TouchingEntity;

verus! {

/// The impulse one contact applies to the touched body: the character's
/// velocity into the surface (along the negated contact normal), scaled by
/// the character's mass.
pub open spec fn touch_impulse_spec(touch: TouchingEntity, mass: int) -> Vec3 {
    let d = Vec3 {
        x: (-(touch.normal.x as int)) as i64,
        y: (-(touch.normal.y as int)) as i64,
        z: (-(touch.normal.z as int)) as i64,
    };
    let k = d.dot_spec(touch.character_velocity);
    Vec3 {
        x: fmul(fmul(d.x as int, k), mass) as i64,
        y: fmul(fmul(d.y as int, k), mass) as i64,
        z: fmul(fmul(d.z as int, k), mass) as i64,
    }
}

/// Compute the impulse a contact applies to the touched dynamic body, for
/// the force-application pass to consume.
pub fn touch_impulse(touch: &TouchingEntity, mass: i64) -> (r: Vec3)
    requires
        touch.wf(),
        0 <= mass <= CFG_LIMIT,
    ensures
        r == touch_impulse_spec(*touch, mass as int),
        r.in_range(15_000_000_000_000),
{
    let d = touch.normal.neg();
    proof {
        lemma_mul_mag(d.x as int, touch.character_velocity.x as int, 1_000, 4_000_000);
        lemma_mul_mag(d.y as int, touch.character_velocity.y as int, 1_000, 4_000_000);
        lemma_mul_mag(d.z as int, touch.character_velocity.z as int, 1_000, 4_000_000);
        lemma_div_t_mag(
            d.x as int * touch.character_velocity.x as int + d.y as int
                * touch.character_velocity.y as int + d.z as int
                * touch.character_velocity.z as int,
            FP as int,
            3int * 1_000 * 4_000_000,
        );
    }
    let k = d.dot(touch.character_velocity);
    proof {
        lemma_fmul_mag(d.x as int, k as int, 1_000, 12_000_000);
        lemma_fmul_mag(d.y as int, k as int, 1_000, 12_000_000);
        lemma_fmul_mag(d.z as int, k as int, 1_000, 12_000_000);
        lemma_fmul_mag(fmul(d.x as int, k as int), mass as int, 12_000_000, CFG_LIMIT as int);
        lemma_fmul_mag(fmul(d.y as int, k as int), mass as int, 12_000_000, CFG_LIMIT as int);
        lemma_fmul_mag(fmul(d.z as int, k as int), mass as int, 12_000_000, CFG_LIMIT as int);
    }
    Vec3 {
        x: crate::math::mul_fp(crate::math::mul_fp(d.x, k), mass),
        y: crate::math::mul_fp(crate::math::mul_fp(d.y, k), mass),
        z: crate::math::mul_fp(crate::math::mul_fp(d.z, k), mass),
    }
}

} // verus!
