//! Acceleration models, friction, gravity half-steps and velocity
//! validation.

use vstd::prelude::*;
use crate::math::{
    Vec3, Vec2, mag, div_t, fmul, mul_fp, imax, imin, lemma_div_t_mag, lemma_fmul_mag,
    lemma_mul_mag, FP, CFG_LIMIT,
};
use crate::config::CharacterController;
use crate::state::CharacterControllerState;
use crate::water::WaterState;
use crate::input::AccumulatedInput;

verus! {

/// Working bound on velocity components between validation passes.
pub const VEL_WORK: i64 = 200_000_000;

/// What the speed clamp yields: the velocity unchanged while its squared
/// norm fits, else every component scaled by `max / (norm + 1)`.
pub open spec fn clamp_speed_spec(max: int, v: Vec3) -> Vec3 {
    if v.norm_sq() <= max * max {
        v
    } else {
        Vec3 {
            x: div_t((v.x as int) * max, v.norm() + 1) as i64,
            y: div_t((v.y as int) * max, v.norm() + 1) as i64,
            z: div_t((v.z as int) * max, v.norm() + 1) as i64,
        }
    }
}

proof fn lemma_comp_le(x: int, n: int, max: int)
    by (nonlinear_arith)
    requires
        max >= 0,
        x * x <= n,
        n <= max * max,
    ensures
        mag(x) <= max,
{
}

proof fn lemma_clamp_comp(x: int, max: int, l: int)
    requires
        max >= 0,
        l >= 0,
        mag(x) <= l,
    ensures
        mag(div_t(x * max, l + 1)) * (l + 1) <= mag(x) * max,
        mag(div_t(x * max, l + 1)) <= max,
{
    let t = div_t(x * max, l + 1);
    assert(mag(x * max) == mag(x) * max) by (nonlinear_arith)
        requires
            max >= 0,
    ;
    assert(mag(t) == mag(x) * max / (l + 1));
    vstd::arithmetic::div_mod::lemma_fundamental_div_mod(mag(x) * max, l + 1);
    vstd::arithmetic::div_mod::lemma_mod_bound(mag(x) * max, l + 1);
    assert(mag(t) * (l + 1) <= mag(x) * max);
    assert(mag(x) * max <= l * max) by (nonlinear_arith)
        requires
            mag(x) <= l,
            max >= 0,
    ;
    assert(l * max <= (l + 1) * max) by (nonlinear_arith)
        requires
            max >= 0,
    ;
    assert(mag(t) * (l + 1) <= (l + 1) * max);
    assert(mag(t) <= max) by (nonlinear_arith)
        requires
            mag(t) * (l + 1) <= (l + 1) * max,
            l + 1 >= 1,
    ;
}

proof fn lemma_clamp_norm(v: Vec3, max: int, l: int, r: Vec3)
    requires
        max >= 0,
        l >= 0,
        v.norm_sq() < (l + 1) * (l + 1),
        mag(v.x as int) <= l,
        mag(v.y as int) <= l,
        mag(v.z as int) <= l,
        r.x == div_t((v.x as int) * max, l + 1),
        r.y == div_t((v.y as int) * max, l + 1),
        r.z == div_t((v.z as int) * max, l + 1),
    ensures
        r.norm_sq() <= max * max,
{
    lemma_clamp_comp(v.x as int, max, l);
    lemma_clamp_comp(v.y as int, max, l);
    lemma_clamp_comp(v.z as int, max, l);
    let tx = r.x as int;
    let ty = r.y as int;
    let tz = r.z as int;
    let b = l + 1;
    assert(tx * tx * (b * b) <= (v.x as int) * (v.x as int) * (max * max)) by (nonlinear_arith)
        requires
            mag(tx) * b <= mag(v.x as int) * max,
            b >= 1,
            max >= 0,
    ;
    assert(ty * ty * (b * b) <= (v.y as int) * (v.y as int) * (max * max)) by (nonlinear_arith)
        requires
            mag(ty) * b <= mag(v.y as int) * max,
            b >= 1,
            max >= 0,
    ;
    assert(tz * tz * (b * b) <= (v.z as int) * (v.z as int) * (max * max)) by (nonlinear_arith)
        requires
            mag(tz) * b <= mag(v.z as int) * max,
            b >= 1,
            max >= 0,
    ;
    assert(r.norm_sq() * (b * b) <= v.norm_sq() * (max * max)) by (nonlinear_arith)
        requires
            tx * tx * (b * b) <= (v.x as int) * (v.x as int) * (max * max),
            ty * ty * (b * b) <= (v.y as int) * (v.y as int) * (max * max),
            tz * tz * (b * b) <= (v.z as int) * (v.z as int) * (max * max),
            r.norm_sq() == tx * tx + ty * ty + tz * tz,
            v.norm_sq() == (v.x as int) * (v.x as int) + (v.y as int) * (v.y as int) + (
            v.z as int) * (v.z as int),
    ;
    assert(v.norm_sq() * (max * max) <= ((b * b) - 1) * (max * max)) by (nonlinear_arith)
        requires
            v.norm_sq() <= (b * b) - 1,
            max >= 0,
    ;
    assert(b * b >= 1) by (nonlinear_arith)
        requires
            b >= 1,
    ;
    assert(tx * tx >= 0) by (nonlinear_arith);
    assert(ty * ty >= 0) by (nonlinear_arith);
    assert(tz * tz >= 0) by (nonlinear_arith);
    assert(max * max >= 0) by (nonlinear_arith);
    assert(r.norm_sq() <= max * max) by (nonlinear_arith)
        requires
            r.norm_sq() * (b * b) <= ((b * b) - 1) * (max * max),
            b * b >= 1,
            max * max >= 0,
            r.norm_sq() >= 0,
    ;
}

/// Replace the velocity by the nearest one whose length does not exceed
/// `max_speed`. Integer velocities are always finite; this pass keeps them
/// inside the configured speed cap as well.
pub fn validate_velocity(cfg: &CharacterController, velocity: &mut Vec3)
    requires
        cfg.wf(),
        old(velocity).in_range(VEL_WORK as int),
    ensures
        *final(velocity) == clamp_speed_spec(cfg.max_speed as int, *old(velocity)),
        final(velocity).norm_sq() <= (cfg.max_speed as int) * (cfg.max_speed as int),
        final(velocity).in_range(cfg.max_speed as int),
        final(velocity).in_range(VEL_WORK as int),
        old(velocity).norm_sq() <= (cfg.max_speed as int) * (cfg.max_speed as int)
            ==> *final(velocity) == *old(velocity),
{
    let r = clamp_norm(*velocity, cfg.max_speed);
    *velocity = r;
}

/// Force a vector's length under `max`: unchanged while it fits, else
/// scaled down just below the cap.
pub fn clamp_norm(v: Vec3, max: i64) -> (r: Vec3)
    requires
        0 <= max <= CFG_LIMIT,
        v.in_range(VEL_WORK as int),
    ensures
        r == clamp_speed_spec(max as int, v),
        r.norm_sq() <= (max as int) * (max as int),
        r.in_range(max as int),
        r.in_range(VEL_WORK as int),
        v.norm_sq() <= (max as int) * (max as int) ==> r == v,
{
    let s = v.norm_sq_i();
    proof {
        assert(max as int * max as int <= 1_000_000_000_000) by (nonlinear_arith)
            requires
                0 <= max <= 1_000_000i64,
        ;
    }
    if s <= max * max {
        proof {
            assert(v.norm_sq() >= 0);
            assert(v.x as int * v.x as int >= 0) by (nonlinear_arith);
            assert(v.y as int * v.y as int >= 0) by (nonlinear_arith);
            assert(v.z as int * v.z as int >= 0) by (nonlinear_arith);
            lemma_comp_le(v.x as int, v.norm_sq(), max as int);
            lemma_comp_le(v.y as int, v.norm_sq(), max as int);
            lemma_comp_le(v.z as int, v.norm_sq(), max as int);
        }
        v
    } else {
        let l = v.length();
        proof {
            assert(v.norm_sq() < (l as int + 1) * (l as int + 1));
            lemma_clamp_comp(v.x as int, max as int, l as int);
            lemma_clamp_comp(v.y as int, max as int, l as int);
            lemma_clamp_comp(v.z as int, max as int, l as int);
            lemma_mul_mag(v.x as int, max as int, VEL_WORK as int, CFG_LIMIT as int);
            lemma_mul_mag(v.y as int, max as int, VEL_WORK as int, CFG_LIMIT as int);
            lemma_mul_mag(v.z as int, max as int, VEL_WORK as int, CFG_LIMIT as int);
        }
        let r = Vec3 {
            x: (v.x * max) / (l + 1),
            y: (v.y * max) / (l + 1),
            z: (v.z * max) / (l + 1),
        };
        proof {
            lemma_clamp_norm(v, max as int, l as int, r);
        }
        r
    }
}

/// The scalar speed gained by one acceleration step: the deficit toward
/// `cap` along the wish direction, closed at `gain` per tick but never
/// overshooting.
pub open spec fn accel_amount(cap: int, current: int, gain: int) -> int {
    if cap - current <= 0 {
        0
    } else if gain <= cap - current {
        gain
    } else {
        cap - current
    }
}

/// Ground acceleration is monotone: from a speed below the wish speed, one
/// step with a positive per-tick gain strictly increases the speed along the
/// wish direction and never overshoots the wish speed.
pub proof fn lemma_ground_accel_monotone(cap: int, current: int, gain: int)
    requires
        0 <= current < cap,
        gain >= 1,
    ensures
        current < current + accel_amount(cap, current, gain) <= cap,
{
}

/// The speed along the wish direction after `n` acceleration ticks from
/// `start`, each closing the deficit toward `cap` by at most `gain`.
pub open spec fn speed_after_ticks(n: nat, cap: int, gain: int, start: int) -> int
    decreases n,
{
    if n == 0 {
        start
    } else {
        let p = speed_after_ticks((n - 1) as nat, cap, gain, start);
        p + accel_amount(cap, p, gain)
    }
}

/// Tick over tick, ground acceleration from a speed within the wish speed
/// stays within it, never decreases, and strictly increases while still
/// below it (with a positive per-tick gain).
pub proof fn lemma_accel_ticks_monotone(n: nat, cap: int, gain: int, start: int)
    requires
        0 <= start <= cap,
        gain >= 1,
    ensures
        0 <= speed_after_ticks(n, cap, gain, start) <= cap,
        n > 0 ==> speed_after_ticks(n, cap, gain, start) >= speed_after_ticks(
            (n - 1) as nat,
            cap,
            gain,
            start,
        ),
        n > 0 && speed_after_ticks((n - 1) as nat, cap, gain, start) < cap ==> speed_after_ticks(
            n,
            cap,
            gain,
            start,
        ) > speed_after_ticks((n - 1) as nat, cap, gain, start),
    decreases n,
{
    if n > 0 {
        lemma_accel_ticks_monotone((n - 1) as nat, cap, gain, start);
    }
}

/// One quake-style acceleration step along `dir`: project the velocity onto
/// the wish direction, close the deficit toward `cap` at a rate of
/// `gain_speed * hz` per second, capped by the deficit itself.
fn accel_kernel(
    velocity: &mut Vec3,
    dir: Vec3,
    gain_speed: i64,
    cap: i64,
    hz: i64,
    dt: i64,
) -> (a: i64)
    requires
        old(velocity).in_range(60_000_000),
        dir.in_range(FP as int),
        0 <= gain_speed <= 4_000_000,
        0 <= cap <= 4_000_000,
        0 <= hz <= CFG_LIMIT,
        0 < dt <= 1_000,
    ensures
        a == accel_amount(
            cap as int,
            old(velocity).dot_spec(dir),
            fmul(fmul(gain_speed as int, hz as int), dt as int),
        ),
        0 <= a <= 190_000_000,
        final(velocity).x == old(velocity).x + fmul(dir.x as int, a as int),
        final(velocity).y == old(velocity).y + fmul(dir.y as int, a as int),
        final(velocity).z == old(velocity).z + fmul(dir.z as int, a as int),
        final(velocity).in_range(250_000_000),
        old(velocity).in_range(8_000_000) ==> final(velocity).in_range(40_000_000),
        a == 0 ==> *final(velocity) == *old(velocity),
{
    proof {
        lemma_mul_mag(old(velocity).x as int, dir.x as int, 60_000_000, 1_000);
        lemma_mul_mag(old(velocity).y as int, dir.y as int, 60_000_000, 1_000);
        lemma_mul_mag(old(velocity).z as int, dir.z as int, 60_000_000, 1_000);
        lemma_div_t_mag(
            (old(velocity).x as int) * (dir.x as int) + (old(velocity).y as int) * (dir.y as int)
                + (old(velocity).z as int) * (dir.z as int),
            FP as int,
            3int * 60_000_000 * 1_000,
        );
    }
    let current = velocity.dot(dir);
    let add_speed = cap - current;
    if add_speed <= 0 {
        proof {
            assert(old(velocity).x + fmul(dir.x as int, 0) == old(velocity).x);
        }
        return 0;
    }
    let rate = mul_fp(gain_speed, hz);
    proof {
        lemma_fmul_mag(gain_speed as int, hz as int, 4_000_000, CFG_LIMIT as int);
        lemma_mul_mag(rate as int, dt as int, 4_000_000_000, 1_000);
        lemma_div_t_mag(rate as int * dt as int, FP as int, 4_000_000_000int * 1_000);
    }
    let gain = (rate * dt) / FP;
    proof {
        assert(gain_speed as int * hz as int >= 0) by (nonlinear_arith)
            requires
                gain_speed >= 0,
                hz >= 0,
        ;
        assert(rate >= 0);
        assert(rate as int * dt as int >= 0) by (nonlinear_arith)
            requires
                rate >= 0,
                dt >= 0,
        ;
        assert(gain >= 0);
    }
    let a = imin(gain, add_speed);
    proof {
        if old(velocity).in_range(8_000_000) {
            lemma_mul_mag(old(velocity).x as int, dir.x as int, 8_000_000, 1_000);
            lemma_mul_mag(old(velocity).y as int, dir.y as int, 8_000_000, 1_000);
            lemma_mul_mag(old(velocity).z as int, dir.z as int, 8_000_000, 1_000);
            lemma_div_t_mag(
                (old(velocity).x as int) * (dir.x as int) + (old(velocity).y as int) * (
                dir.y as int) + (old(velocity).z as int) * (dir.z as int),
                FP as int,
                3int * 8_000_000 * 1_000,
            );
            lemma_fmul_mag(dir.x as int, a as int, 1_000, 28_000_000);
            lemma_fmul_mag(dir.y as int, a as int, 1_000, 28_000_000);
            lemma_fmul_mag(dir.z as int, a as int, 1_000, 28_000_000);
        }
        lemma_fmul_mag(dir.x as int, a as int, 1_000, 190_000_000);
        lemma_fmul_mag(dir.y as int, a as int, 1_000, 190_000_000);
        lemma_fmul_mag(dir.z as int, a as int, 1_000, 190_000_000);
        lemma_mul_mag(dir.x as int, a as int, 1_000, 190_000_000);
        lemma_mul_mag(dir.y as int, a as int, 1_000, 190_000_000);
        lemma_mul_mag(dir.z as int, a as int, 1_000, 190_000_000);
    }
    let step = dir.scale(a);
    *velocity = velocity.add(step);
    a
}

/// What one ground/water acceleration step yields.
pub open spec fn ground_accelerate_spec(velocity: Vec3, wish_velocity: Vec3, hz: int, dt: int) -> Vec3 {
    if wish_velocity == Vec3::zero_spec() {
        velocity
    } else {
        let dir = wish_velocity.unit_spec();
        let a = accel_amount(
            wish_velocity.norm(),
            velocity.dot_spec(dir),
            fmul(fmul(wish_velocity.norm(), hz), dt),
        );
        Vec3 {
            x: (velocity.x + fmul(dir.x as int, a)) as i64,
            y: (velocity.y + fmul(dir.y as int, a)) as i64,
            z: (velocity.z + fmul(dir.z as int, a)) as i64,
        }
    }
}

/// What one air acceleration step yields: the cap is limited by the
/// configured air wish speed.
pub open spec fn air_accelerate_spec(
    cfg: CharacterController,
    velocity: Vec3,
    wish_velocity: Vec3,
    hz: int,
    dt: int,
) -> Vec3 {
    if wish_velocity == Vec3::zero_spec() {
        velocity
    } else {
        let dir = wish_velocity.unit_spec();
        let cap = if wish_velocity.norm() <= cfg.max_air_wish_speed as int {
            wish_velocity.norm()
        } else {
            cfg.max_air_wish_speed as int
        };
        let a = accel_amount(
            cap,
            velocity.dot_spec(dir),
            fmul(fmul(wish_velocity.norm(), hz), dt),
        );
        Vec3 {
            x: (velocity.x + fmul(dir.x as int, a)) as i64,
            y: (velocity.y + fmul(dir.y as int, a)) as i64,
            z: (velocity.z + fmul(dir.z as int, a)) as i64,
        }
    }
}

/// The flat drive velocity of ground-driven movement: horizontal quake
/// acceleration with the vertical component zeroed before and after.
pub open spec fn flat_drive_velocity_spec(
    cfg: CharacterController,
    velocity: Vec3,
    wish_velocity: Vec3,
    dt: int,
) -> Vec3 {
    let v0 = Vec3 { x: velocity.x, y: 0, z: velocity.z };
    let va = ground_accelerate_spec(v0, wish_velocity, cfg.acceleration_hz as int, dt);
    Vec3 { x: va.x, y: 0, z: va.z }
}

/// Accelerate toward the wish velocity with the ground model: the full wish
/// speed is both the cap and the rate base.
pub fn ground_accelerate(
    cfg: &CharacterController,
    velocity: &mut Vec3,
    wish_velocity: Vec3,
    acceleration_hz: i64,
    dt: i64,
)
    requires
        cfg.wf(),
        old(velocity).in_range(60_000_000),
        wish_velocity.in_range(2_000_000),
        0 <= acceleration_hz <= CFG_LIMIT,
        0 < dt <= 1_000,
    ensures
        wish_velocity == Vec3::zero_spec() ==> *final(velocity) == *old(velocity),
        wish_velocity != Vec3::zero_spec() ==> {
            let dir = wish_velocity.unit_spec();
            let a = accel_amount(
                wish_velocity.norm(),
                old(velocity).dot_spec(dir),
                fmul(fmul(wish_velocity.norm(), acceleration_hz as int), dt as int),
            );
            &&& final(velocity).x == old(velocity).x + fmul(dir.x as int, a)
            &&& final(velocity).y == old(velocity).y + fmul(dir.y as int, a)
            &&& final(velocity).z == old(velocity).z + fmul(dir.z as int, a)
        },
        final(velocity).in_range(250_000_000),
        old(velocity).in_range(8_000_000) ==> final(velocity).in_range(40_000_000),
        *final(velocity) == ground_accelerate_spec(
            *old(velocity),
            wish_velocity,
            acceleration_hz as int,
            dt as int,
        ),
{
    let wish_speed = wish_velocity.length();
    proof {
        crate::math::lemma_norm_sq_bound(wish_velocity, 2_000_000);
        crate::math::lemma_root_le(wish_speed as int, wish_velocity.norm_sq(), 2_000_000);
    }
    if wish_speed == 0 {
        return ;
    }
    let dir = wish_velocity.normalize_or_zero();
    accel_kernel(velocity, dir, wish_speed, wish_speed, acceleration_hz, dt);
}

/// Accelerate with the air model: the wish-speed contribution toward the cap
/// is limited by the configured air wish speed, while the rate still uses
/// the full wish speed.
pub fn air_accelerate(
    cfg: &CharacterController,
    velocity: &mut Vec3,
    wish_velocity: Vec3,
    acceleration_hz: i64,
    dt: i64,
)
    requires
        cfg.wf(),
        old(velocity).in_range(60_000_000),
        wish_velocity.in_range(2_000_000),
        0 <= acceleration_hz <= CFG_LIMIT,
        0 < dt <= 1_000,
    ensures
        wish_velocity == Vec3::zero_spec() ==> *final(velocity) == *old(velocity),
        wish_velocity != Vec3::zero_spec() ==> {
            let dir = wish_velocity.unit_spec();
            let cap = if wish_velocity.norm() <= cfg.max_air_wish_speed as int {
                wish_velocity.norm()
            } else {
                cfg.max_air_wish_speed as int
            };
            let a = accel_amount(
                cap,
                old(velocity).dot_spec(dir),
                fmul(fmul(wish_velocity.norm(), acceleration_hz as int), dt as int),
            );
            &&& final(velocity).x == old(velocity).x + fmul(dir.x as int, a)
            &&& final(velocity).y == old(velocity).y + fmul(dir.y as int, a)
            &&& final(velocity).z == old(velocity).z + fmul(dir.z as int, a)
        },
        final(velocity).in_range(250_000_000),
        old(velocity).in_range(8_000_000) ==> final(velocity).in_range(40_000_000),
        *final(velocity) == air_accelerate_spec(
            *cfg,
            *old(velocity),
            wish_velocity,
            acceleration_hz as int,
            dt as int,
        ),
{
    let wish_speed = wish_velocity.length();
    proof {
        crate::math::lemma_norm_sq_bound(wish_velocity, 2_000_000);
        crate::math::lemma_root_le(wish_speed as int, wish_velocity.norm_sq(), 2_000_000);
    }
    if wish_speed == 0 {
        return ;
    }
    let cap = imin(wish_speed, cfg.max_air_wish_speed);
    let dir = wish_velocity.normalize_or_zero();
    accel_kernel(velocity, dir, wish_speed, cap, acceleration_hz, dt);
}

/// Accelerate with the water model: same shape as the ground model.
pub fn water_accelerate(
    cfg: &CharacterController,
    velocity: &mut Vec3,
    wish_velocity: Vec3,
    acceleration_hz: i64,
    dt: i64,
)
    requires
        cfg.wf(),
        old(velocity).in_range(60_000_000),
        wish_velocity.in_range(2_000_000),
        0 <= acceleration_hz <= CFG_LIMIT,
        0 < dt <= 1_000,
    ensures
        wish_velocity == Vec3::zero_spec() ==> *final(velocity) == *old(velocity),
        wish_velocity != Vec3::zero_spec() ==> {
            let dir = wish_velocity.unit_spec();
            let a = accel_amount(
                wish_velocity.norm(),
                old(velocity).dot_spec(dir),
                fmul(fmul(wish_velocity.norm(), acceleration_hz as int), dt as int),
            );
            &&& final(velocity).x == old(velocity).x + fmul(dir.x as int, a)
            &&& final(velocity).y == old(velocity).y + fmul(dir.y as int, a)
            &&& final(velocity).z == old(velocity).z + fmul(dir.z as int, a)
        },
        final(velocity).in_range(250_000_000),
        old(velocity).in_range(8_000_000) ==> final(velocity).in_range(40_000_000),
        *final(velocity) == ground_accelerate_spec(
            *old(velocity),
            wish_velocity,
            acceleration_hz as int,
            dt as int,
        ),
{
    let wish_speed = wish_velocity.length();
    proof {
        crate::math::lemma_norm_sq_bound(wish_velocity, 2_000_000);
        crate::math::lemma_root_le(wish_speed as int, wish_velocity.norm_sq(), 2_000_000);
    }
    if wish_speed == 0 {
        return ;
    }
    let dir = wish_velocity.normalize_or_zero();
    accel_kernel(velocity, dir, wish_speed, wish_speed, acceleration_hz, dt);
}

/// Scaling a value by `ns / s` with `ns` at most `s` never increases its
/// magnitude.
pub proof fn lemma_scale_down(x: int, ns: int, s: int)
    requires
        0 <= ns <= s,
        1 <= s,
    ensures
        mag(div_t(x * ns, s)) <= mag(x),
{
    lemma_mul_mag(x, ns, mag(x), ns);
    assert(mag(x) * ns <= mag(x) * s) by (nonlinear_arith)
        requires
            0 <= ns <= s,
            mag(x) >= 0,
    ;
    lemma_div_t_mag(x * ns, s, mag(x) * s);
    assert((mag(x) * s) / s == mag(x)) by {
        vstd::arithmetic::div_mod::lemma_div_multiples_vanish(mag(x), s);
        assert(mag(x) * s == s * mag(x)) by (nonlinear_arith);
    };
}

/// What one friction pass does to a velocity whose relevant speed is
/// `speed`: below one thousandth of a unit nothing; else the speed drops by
/// `max(speed, stop_speed) * friction * dt` (never below zero) and the whole
/// velocity is rescaled accordingly.
pub open spec fn friction_spec(cfg: CharacterController, speed: int, v: Vec3, dt: int) -> Vec3 {
    if speed < 1 {
        v
    } else {
        let control = if speed >= cfg.stop_speed {
            speed
        } else {
            cfg.stop_speed as int
        };
        let drop = fmul(control, fmul(cfg.friction_hz as int, dt));
        let ns = if speed - drop >= 0 {
            speed - drop
        } else {
            0
        };
        if ns == speed {
            v
        } else {
            Vec3 {
                x: div_t((v.x as int) * ns, speed) as i64,
                y: div_t((v.y as int) * ns, speed) as i64,
                z: div_t((v.z as int) * ns, speed) as i64,
            }
        }
    }
}

/// What one friction pass does to the velocity, selecting the relevant
/// speed: the horizontal speed while grounded, the full speed while
/// swimming, nothing while airborne and dry.
pub open spec fn friction_applied_spec(
    cfg: CharacterController,
    state: CharacterControllerState,
    water: crate::water::WaterState,
    velocity: Vec3,
    dt: int,
) -> Vec3 {
    if state.grounded is Some {
        friction_spec(cfg, velocity.flat_spec().norm(), velocity, dt)
    } else if water.level.rank_spec() > 1 {
        friction_spec(cfg, velocity.norm(), velocity, dt)
    } else {
        velocity
    }
}

/// Apply friction: on the ground against the horizontal speed, while
/// swimming against the full speed, airborne not at all. Friction runs
/// before any platform velocity is folded in, so standing still on a mover
/// is not slowed relative to the mover.
pub fn friction(
    cfg: &CharacterController,
    state: &CharacterControllerState,
    water: &WaterState,
    velocity: &mut Vec3,
    dt: i64,
)
    requires
        cfg.wf(),
        state.wf(),
        old(velocity).in_range(VEL_WORK as int),
        0 < dt <= 1_000,
    ensures
        *final(velocity) == friction_applied_spec(*cfg, *state, *water, *old(velocity), dt as int),
        state.grounded is Some ==> *final(velocity) == friction_spec(
            *cfg,
            old(velocity).flat_spec().norm(),
            *old(velocity),
            dt as int,
        ),
        state.grounded is None && water.level.rank_spec() > 1 ==> *final(velocity)
            == friction_spec(*cfg, old(velocity).norm(), *old(velocity), dt as int),
        state.grounded is None && water.level.rank_spec() <= 1 ==> *final(velocity) == *old(
            velocity,
        ),
        final(velocity).in_range(VEL_WORK as int),
        mag(final(velocity).x as int) <= mag(old(velocity).x as int),
        mag(final(velocity).y as int) <= mag(old(velocity).y as int),
        mag(final(velocity).z as int) <= mag(old(velocity).z as int),
{
    let grounded = state.grounded.is_some();
    let swimming = water.level.above_feet();
    if !grounded && !swimming {
        return ;
    }
    let speed = if grounded {
        velocity.flat().length()
    } else {
        velocity.length()
    };
    proof {
        if grounded {
            crate::math::lemma_norm_sq_bound(old(velocity).flat_spec(), VEL_WORK as int);
            crate::math::lemma_root_le(
                speed as int,
                old(velocity).flat_spec().norm_sq(),
                VEL_WORK as int,
            );
        } else {
            crate::math::lemma_norm_sq_bound(*old(velocity), VEL_WORK as int);
            crate::math::lemma_root_le(speed as int, old(velocity).norm_sq(), VEL_WORK as int);
        }
    }
    if speed < 1 {
        return ;
    }
    let control = imax(speed, cfg.stop_speed);
    let fr = mul_fp(cfg.friction_hz, dt);
    proof {
        lemma_fmul_mag(cfg.friction_hz as int, dt as int, CFG_LIMIT as int, 1_000);
        assert(cfg.friction_hz as int * dt as int >= 0) by (nonlinear_arith)
            requires
                cfg.friction_hz >= 0,
                dt >= 0,
        ;
    }
    let drop = mul_fp(control, fr);
    proof {
        lemma_fmul_mag(control as int, fr as int, 400_000_000, CFG_LIMIT as int);
        assert(control as int * fr as int >= 0) by (nonlinear_arith)
            requires
                control >= 0,
                fr >= 0,
        ;
    }
    let new_speed = imax(speed - drop, 0);
    if new_speed == speed {
        return ;
    }
    let v = *velocity;
    proof {
        lemma_scale_down(v.x as int, new_speed as int, speed as int);
        lemma_scale_down(v.y as int, new_speed as int, speed as int);
        lemma_scale_down(v.z as int, new_speed as int, speed as int);
        lemma_mul_mag(v.x as int, new_speed as int, VEL_WORK as int, speed as int);
        lemma_mul_mag(v.y as int, new_speed as int, VEL_WORK as int, speed as int);
        lemma_mul_mag(v.z as int, new_speed as int, VEL_WORK as int, speed as int);
    }
    *velocity = Vec3 {
        x: (v.x * new_speed) / speed,
        y: (v.y * new_speed) / speed,
        z: (v.z * new_speed) / speed,
    };
}

/// What the first gravity half-step yields: the state with the platform's
/// vertical component spent, and the validated velocity.
pub open spec fn start_gravity_spec(
    cfg: CharacterController,
    state: CharacterControllerState,
    velocity: Vec3,
    dt: int,
) -> (CharacterControllerState, Vec3) {
    (
        CharacterControllerState {
            base_velocity: Vec3 { x: state.base_velocity.x, y: 0, z: state.base_velocity.z },
            ..state
        },
        clamp_speed_spec(
            cfg.max_speed as int,
            Vec3 {
                x: velocity.x,
                y: (velocity.y + fmul(
                    state.base_velocity.y - fmul(cfg.gravity as int, 500),
                    dt,
                )) as i64,
                z: velocity.z,
            },
        ),
    )
}

/// What the second gravity half-step yields.
pub open spec fn finish_gravity_spec(cfg: CharacterController, velocity: Vec3, dt: int) -> Vec3 {
    clamp_speed_spec(
        cfg.max_speed as int,
        Vec3 {
            x: velocity.x,
            y: (velocity.y - fmul(fmul(cfg.gravity as int, 500), dt)) as i64,
            z: velocity.z,
        },
    )
}

/// First gravity half-step: fold the platform's vertical velocity and half a
/// tick of gravity into the vertical velocity, then zero the platform's
/// vertical component and validate.
pub fn start_gravity(
    cfg: &CharacterController,
    state: &mut CharacterControllerState,
    velocity: &mut Vec3,
    dt: i64,
)
    requires
        cfg.wf(),
        old(state).wf(),
        old(velocity).in_range(90_000_000),
        0 < dt <= 1_000,
    ensures
        final(state).wf(),
        *final(state) == start_gravity_spec(*cfg, *old(state), *old(velocity), dt as int).0,
        *final(velocity) == start_gravity_spec(*cfg, *old(state), *old(velocity), dt as int).1,
        *final(state) == (CharacterControllerState {
            base_velocity: Vec3 { x: old(state).base_velocity.x, y: 0, z: old(
                state,
            ).base_velocity.z },
            ..*old(state)
        }),
        *final(velocity) == clamp_speed_spec(
            cfg.max_speed as int,
            Vec3 {
                x: old(velocity).x,
                y: (old(velocity).y + fmul(
                    old(state).base_velocity.y - fmul(cfg.gravity as int, 500),
                    dt as int,
                )) as i64,
                z: old(velocity).z,
            },
        ),
        final(velocity).norm_sq() <= (cfg.max_speed as int) * (cfg.max_speed as int),
        final(velocity).in_range(cfg.max_speed as int),
        final(velocity).in_range(VEL_WORK as int),
{
    let g2 = mul_fp(cfg.gravity, 500);
    let inner = state.base_velocity.y - g2;
    proof {
        lemma_fmul_mag(cfg.gravity as int, 500, CFG_LIMIT as int, 500);
        lemma_fmul_mag(inner as int, dt as int, 2_000_000, 1_000);
    }
    let delta = mul_fp(inner, dt);
    velocity.y = velocity.y + delta;
    state.base_velocity = Vec3 { x: state.base_velocity.x, y: 0, z: state.base_velocity.z };
    validate_velocity(cfg, velocity);
}

/// Second gravity half-step: the other half tick of gravity, then validate.
pub fn finish_gravity(cfg: &CharacterController, velocity: &mut Vec3, dt: i64)
    requires
        cfg.wf(),
        old(velocity).in_range(90_000_000),
        0 < dt <= 1_000,
    ensures
        *final(velocity) == finish_gravity_spec(*cfg, *old(velocity), dt as int),
        *final(velocity) == clamp_speed_spec(
            cfg.max_speed as int,
            Vec3 {
                x: old(velocity).x,
                y: (old(velocity).y - fmul(fmul(cfg.gravity as int, 500), dt as int)) as i64,
                z: old(velocity).z,
            },
        ),
        final(velocity).norm_sq() <= (cfg.max_speed as int) * (cfg.max_speed as int),
        final(velocity).in_range(cfg.max_speed as int),
        final(velocity).in_range(VEL_WORK as int),
{
    let g2 = mul_fp(cfg.gravity, 500);
    proof {
        lemma_fmul_mag(cfg.gravity as int, 500, CFG_LIMIT as int, 500);
        lemma_fmul_mag(g2 as int, dt as int, 500_000, 1_000);
    }
    let delta = mul_fp(g2, dt);
    velocity.y = velocity.y - delta;
    validate_velocity(cfg, velocity);
}

/// The planar wish velocity: input intent mapped through the flattened look
/// basis, normalised, then scaled to the configured speed (reduced while
/// crouching).
pub open spec fn wish_velocity_spec(
    cfg: CharacterController,
    orientation: crate::state::Orientation,
    crouching: bool,
    movement: Option<Vec2>,
) -> Vec3 {
    let m = match movement {
        Some(v) => v,
        None => Vec2 { x: 0, y: 0 },
    };
    let f = orientation.forward.flat_spec().unit_spec();
    let r = orientation.right.flat_spec().unit_spec();
    let wish = Vec3 {
        x: (fmul(m.y as int, f.x as int) + fmul(m.x as int, r.x as int)) as i64,
        y: (fmul(m.y as int, f.y as int) + fmul(m.x as int, r.y as int)) as i64,
        z: (fmul(m.y as int, f.z as int) + fmul(m.x as int, r.z as int)) as i64,
    };
    let dir = wish.unit_spec();
    let sp = if crouching {
        fmul(cfg.speed as int, cfg.crouch_speed_scale as int)
    } else {
        cfg.speed as int
    };
    Vec3 {
        x: fmul(dir.x as int, sp) as i64,
        y: fmul(dir.y as int, sp) as i64,
        z: fmul(dir.z as int, sp) as i64,
    }
}

/// The full 3-dimensional wish velocity: as the planar one, but through the
/// unflattened look basis.
pub open spec fn wish_velocity_3d_spec(
    cfg: CharacterController,
    orientation: crate::state::Orientation,
    crouching: bool,
    movement: Option<Vec2>,
) -> Vec3 {
    let m = match movement {
        Some(v) => v,
        None => Vec2 { x: 0, y: 0 },
    };
    let f = orientation.forward;
    let r = orientation.right;
    let wish = Vec3 {
        x: (fmul(m.y as int, f.x as int) + fmul(m.x as int, r.x as int)) as i64,
        y: (fmul(m.y as int, f.y as int) + fmul(m.x as int, r.y as int)) as i64,
        z: (fmul(m.y as int, f.z as int) + fmul(m.x as int, r.z as int)) as i64,
    };
    let dir = wish.unit_spec();
    let sp = if crouching {
        fmul(cfg.speed as int, cfg.crouch_speed_scale as int)
    } else {
        cfg.speed as int
    };
    Vec3 {
        x: fmul(dir.x as int, sp) as i64,
        y: fmul(dir.y as int, sp) as i64,
        z: fmul(dir.z as int, sp) as i64,
    }
}

fn wish_from_basis(
    cfg: &CharacterController,
    f: Vec3,
    r: Vec3,
    crouching: bool,
    movement: Option<Vec2>,
) -> (w: Vec3)
    requires
        cfg.wf(),
        f.in_range(FP as int),
        r.in_range(FP as int),
        (match movement {
            Some(m) => mag(m.x as int) <= 2_000 && mag(m.y as int) <= 2_000,
            None => true,
        }),
    ensures
        ({
            let m = match movement {
                Some(v) => v,
                None => Vec2 { x: 0, y: 0 },
            };
            let wish = Vec3 {
                x: (fmul(m.y as int, f.x as int) + fmul(m.x as int, r.x as int)) as i64,
                y: (fmul(m.y as int, f.y as int) + fmul(m.x as int, r.y as int)) as i64,
                z: (fmul(m.y as int, f.z as int) + fmul(m.x as int, r.z as int)) as i64,
            };
            let dir = wish.unit_spec();
            let sp = if crouching {
                fmul(cfg.speed as int, cfg.crouch_speed_scale as int)
            } else {
                cfg.speed as int
            };
            w == (Vec3 {
                x: fmul(dir.x as int, sp) as i64,
                y: fmul(dir.y as int, sp) as i64,
                z: fmul(dir.z as int, sp) as i64,
            })
        }),
        w.in_range(CFG_LIMIT as int),
{
    let m = match movement {
        Some(v) => v,
        None => Vec2 { x: 0, y: 0 },
    };
    proof {
        lemma_fmul_mag(m.y as int, f.x as int, 2_000, 1_000);
        lemma_fmul_mag(m.x as int, r.x as int, 2_000, 1_000);
        lemma_fmul_mag(m.y as int, f.y as int, 2_000, 1_000);
        lemma_fmul_mag(m.x as int, r.y as int, 2_000, 1_000);
        lemma_fmul_mag(m.y as int, f.z as int, 2_000, 1_000);
        lemma_fmul_mag(m.x as int, r.z as int, 2_000, 1_000);
    }
    let wish = Vec3 {
        x: mul_fp(m.y, f.x) + mul_fp(m.x, r.x),
        y: mul_fp(m.y, f.y) + mul_fp(m.x, r.y),
        z: mul_fp(m.y, f.z) + mul_fp(m.x, r.z),
    };
    let dir = wish.normalize_or_zero();
    let sp = if crouching {
        mul_fp(cfg.speed, cfg.crouch_speed_scale)
    } else {
        cfg.speed
    };
    proof {
        lemma_fmul_mag(cfg.speed as int, cfg.crouch_speed_scale as int, CFG_LIMIT as int, FP as int);
        assert(cfg.speed as int * cfg.crouch_speed_scale as int >= 0) by (nonlinear_arith)
            requires
                cfg.speed >= 0,
                cfg.crouch_speed_scale >= 0,
        ;
        lemma_fmul_mag(dir.x as int, sp as int, FP as int, CFG_LIMIT as int);
        lemma_fmul_mag(dir.y as int, sp as int, FP as int, CFG_LIMIT as int);
        lemma_fmul_mag(dir.z as int, sp as int, FP as int, CFG_LIMIT as int);
    }
    dir.scale(sp)
}

/// The planar, ground-relative wish velocity from the input intent and the
/// current look orientation, speed-scaled down while crouching.
pub fn calculate_wish_velocity(
    cfg: &CharacterController,
    state: &CharacterControllerState,
    input: &AccumulatedInput,
) -> (w: Vec3)
    requires
        cfg.wf(),
        state.wf(),
        input.wf(),
    ensures
        w == wish_velocity_spec(*cfg, state.orientation, state.crouching, input.last_movement),
        w.in_range(CFG_LIMIT as int),
{
    let f = state.orientation.forward.flat().normalize_or_zero();
    let r = state.orientation.right.flat().normalize_or_zero();
    wish_from_basis(cfg, f, r, state.crouching, input.last_movement)
}

/// The unflattened wish velocity, used while swimming and mantling.
pub fn calculate_3d_wish_velocity(
    cfg: &CharacterController,
    state: &CharacterControllerState,
    input: &AccumulatedInput,
) -> (w: Vec3)
    requires
        cfg.wf(),
        state.wf(),
        input.wf(),
    ensures
        w == wish_velocity_3d_spec(*cfg, state.orientation, state.crouching, input.last_movement),
        w.in_range(CFG_LIMIT as int),
{
    wish_from_basis(
        cfg,
        state.orientation.forward,
        state.orientation.right,
        state.crouching,
        input.last_movement,
    )
}

/// How strongly a mantle climbs for a given vertical look cosine: the
/// magnitude is shifted up by a half, scaled by two and a half and clamped
/// to a full cosine, keeping the original sign. Looking at the wall or above
/// it climbs at full rate; looking down climbs backwards.
pub open spec fn rescale_climb_cos_spec(c: int) -> int {
    let a = mag(c);
    let v = fmul(a + 500, 2_500);
    let clamped = if v > FP {
        FP as int
    } else {
        v
    };
    if c >= 0 {
        clamped
    } else {
        -clamped
    }
}

/// Rescale a vertical look cosine into a mantle climb factor.
pub fn rescale_climb_cos(c: i64) -> (r: i64)
    requires
        mag(c as int) <= 2_000,
    ensures
        r == rescale_climb_cos_spec(c as int),
        mag(r as int) <= FP,
{
    let a = crate::math::iabs(c);
    proof {
        lemma_fmul_mag(a as int + 500, 2_500, 2_500, 2_500);
        assert((a as int + 500) * 2_500 >= 0) by (nonlinear_arith)
            requires
                a >= 0,
        ;
    }
    let v = mul_fp(a + 500, 2_500);
    let clamped = imin(v, FP);
    if c >= 0 {
        clamped
    } else {
        -clamped
    }
}

} // verus!
