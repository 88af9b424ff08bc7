//! Fixed-point scalar and vector arithmetic.
//!
//! Every length, speed and direction cosine in the controller is an `i64`
//! in thousandths of a unit. Multiplying two such numbers therefore divides
//! the raw product by [`FP`]; dividing them multiplies by it. Division is
//! the machine's truncating division, written [`div_t`] in specifications.

use vstd::prelude::*;

verus! {

/// Fixed-point scale: 1000 raw units are one metre, one second, one full cosine.
pub const FP: i64 = 1000;

/// Largest coordinate magnitude (in thousandths) the controller accepts.
pub const COORD_LIMIT: i64 = 500_000_000;

/// Largest velocity-component magnitude the controller accepts.
pub const VEL_LIMIT: i64 = 4_000_000;

/// Largest configuration scalar the controller accepts.
pub const CFG_LIMIT: i64 = 1_000_000;

/// Magnitude of an integer.
pub open spec fn mag(a: int) -> int {
    if a >= 0 {
        a
    } else {
        -a
    }
}

/// Truncating (round-toward-zero) division: the semantics of `/` on `i64`.
pub open spec fn div_t(a: int, b: int) -> int {
    if a >= 0 {
        a / b
    } else {
        -((-a) / b)
    }
}

/// The fixed-point product: `a * b` scaled back down by [`FP`].
pub open spec fn fmul(a: int, b: int) -> int {
    div_t(a * b, FP as int)
}

/// The fixed-point quotient: `a / b` scaled up by [`FP`].
pub open spec fn fdiv(a: int, b: int) -> int {
    div_t(a * FP, b)
}

/// The unique non-negative integer square root (rounded down) of `n >= 0`.
pub open spec fn sqrt_floor(n: int) -> int {
    choose|r: int| r >= 0 && #[trigger] (r * r) <= n && n < (r + 1) * (r + 1)
}

/// Truncating division never increases magnitude and respects bounds on the
/// dividend.
pub proof fn lemma_div_t_mag(a: int, b: int, m: int)
    requires
        b >= 1,
        mag(a) <= m,
    ensures
        mag(div_t(a, b)) <= m / b,
        mag(div_t(a, b)) <= m,
        b * (m / b) <= m,
{
    let p = mag(a);
    vstd::arithmetic::div_mod::lemma_div_is_ordered(p, m, b);
    vstd::arithmetic::div_mod::lemma_div_nonincreasing(p, b);
    vstd::arithmetic::div_mod::lemma_div_nonincreasing(m, b);
    vstd::arithmetic::div_mod::lemma_fundamental_div_mod(m, b);
    vstd::arithmetic::div_mod::lemma_mod_bound(m, b);
}

/// A product of bounded factors is bounded.
pub proof fn lemma_mul_mag(a: int, b: int, ma: int, mb: int)
    by (nonlinear_arith)
    requires
        mag(a) <= ma,
        mag(b) <= mb,
    ensures
        mag(a * b) <= ma * mb,
{
}

/// A fixed-point product of bounded factors is bounded.
pub proof fn lemma_fmul_mag(a: int, b: int, ma: int, mb: int)
    requires
        mag(a) <= ma,
        mag(b) <= mb,
    ensures
        mag(fmul(a, b)) <= ma * mb / (FP as int),
        mag(fmul(a, b)) <= ma * mb,
        (FP as int) * (ma * mb / (FP as int)) <= ma * mb,
{
    lemma_mul_mag(a, b, ma, mb);
    lemma_div_t_mag(a * b, FP as int, ma * mb);
}

/// The squared norm of a bounded vector is bounded.
pub proof fn lemma_norm_sq_bound(v: Vec3, m: int)
    requires
        m >= 0,
        v.in_range(m),
    ensures
        0 <= v.norm_sq() <= 3 * m * m,
{
    lemma_mul_mag(v.x as int, v.x as int, m, m);
    lemma_mul_mag(v.y as int, v.y as int, m, m);
    lemma_mul_mag(v.z as int, v.z as int, m, m);
    assert(v.x as int * v.x as int >= 0) by (nonlinear_arith);
    assert(v.y as int * v.y as int >= 0) by (nonlinear_arith);
    assert(v.z as int * v.z as int >= 0) by (nonlinear_arith);
    assert(m * m + m * m + m * m == 3 * m * m) by (nonlinear_arith);
}

/// An integer root of a number below `3 m^2` lies below `2 m`.
pub proof fn lemma_root_le(r: int, s: int, m: int)
    by (nonlinear_arith)
    requires
        r >= 0,
        m >= 0,
        r * r <= s,
        s <= 3 * m * m,
    ensures
        r <= 2 * m,
{
}

/// Two integer square roots of the same number agree.
pub proof fn lemma_sqrt_floor_unique(n: int, a: int, b: int)
    by (nonlinear_arith)
    requires
        a >= 0,
        b >= 0,
        a * a <= n,
        n < (a + 1) * (a + 1),
        b * b <= n,
        n < (b + 1) * (b + 1),
    ensures
        a == b,
{
}

/// A witness pins down `sqrt_floor`.
pub proof fn lemma_sqrt_floor_is(n: int, r: int)
    requires
        r >= 0,
        r * r <= n,
        n < (r + 1) * (r + 1),
    ensures
        sqrt_floor(n) == r,
{
    assert(r >= 0 && r * r <= n && n < (r + 1) * (r + 1));
    let s = sqrt_floor(n);
    assert(s >= 0 && s * s <= n && n < (s + 1) * (s + 1));
    lemma_sqrt_floor_unique(n, s, r);
}

/// Any square below `n` stays below the root of `n`.
pub proof fn lemma_square_le_sqrt(x: int, n: int, s: int)
    by (nonlinear_arith)
    requires
        s >= 0,
        x * x <= n,
        n < (s + 1) * (s + 1),
    ensures
        mag(x) <= s,
{
}

/// Fixed-point multiply. Truncates toward zero.
pub fn mul_fp(a: i64, b: i64) -> (r: i64)
    requires
        mag(a as int) <= 3_000_000_000,
        mag(b as int) <= 3_000_000_000,
    ensures
        r == fmul(a as int, b as int),
        mag(r as int) * (FP as int) <= mag(a as int) * mag(b as int),
        mag(r as int) <= mag(a as int) * mag(b as int) / (FP as int),
{
    proof {
        lemma_mul_mag(a as int, b as int, 3_000_000_000, 3_000_000_000);
        lemma_mul_mag(a as int, b as int, mag(a as int), mag(b as int));
        lemma_div_t_mag(a as int * b as int, FP as int, mag(a as int) * mag(b as int));
    }
    (a * b) / FP
}

/// Fixed-point divide: `a` scaled up by [`FP`], then divided by `b`.
pub fn div_fp(a: i64, b: i64) -> (r: i64)
    requires
        b >= 1,
        mag(a as int) <= 9_000_000_000_000_000,
    ensures
        r == fdiv(a as int, b as int),
        mag(r as int) <= mag(a as int) * (FP as int),
{
    proof {
        lemma_mul_mag(a as int, FP as int, mag(a as int), FP as int);
        lemma_div_t_mag(a as int * FP as int, b as int, mag(a as int) * (FP as int));
    }
    (a * FP) / b
}

/// The squared horizontal (xz-plane) distance between two points.
pub open spec fn dist_sq_xz_spec(a: Vec3, b: Vec3) -> int {
    (a.x - b.x) * (a.x - b.x) + (a.z - b.z) * (a.z - b.z)
}

/// The squared horizontal distance between two points.
pub fn dist_sq_xz(a: Vec3, b: Vec3) -> (r: i64)
    requires
        a.in_range(1_050_000_000),
        b.in_range(1_050_000_000),
    ensures
        r == dist_sq_xz_spec(a, b),
        r >= 0,
{
    let dx = a.x - b.x;
    let dz = a.z - b.z;
    proof {
        lemma_mul_mag(dx as int, dx as int, 2_100_000_000, 2_100_000_000);
        lemma_mul_mag(dz as int, dz as int, 2_100_000_000, 2_100_000_000);
        assert(dx as int * dx as int >= 0) by (nonlinear_arith);
        assert(dz as int * dz as int >= 0) by (nonlinear_arith);
    }
    dx * dx + dz * dz
}

/// The larger of two numbers.
pub fn imax(a: i64, b: i64) -> (r: i64)
    ensures
        r == if a >= b { a as int } else { b as int },
{
    if a >= b {
        a
    } else {
        b
    }
}

/// The smaller of two numbers.
pub fn imin(a: i64, b: i64) -> (r: i64)
    ensures
        r == if a <= b { a as int } else { b as int },
{
    if a <= b {
        a
    } else {
        b
    }
}

/// The magnitude of a number.
pub fn iabs(a: i64) -> (r: i64)
    requires
        a != i64::MIN,
    ensures
        r == mag(a as int),
{
    if a >= 0 {
        a
    } else {
        -a
    }
}

/// `a` forced into `[lo, hi]`.
pub fn iclamp(a: i64, lo: i64, hi: i64) -> (r: i64)
    requires
        lo <= hi,
    ensures
        r == if a < lo {
            lo as int
        } else if a > hi {
            hi as int
        } else {
            a as int
        },
{
    if a < lo {
        lo
    } else if a > hi {
        hi
    } else {
        a
    }
}

/// Integer square root of a 64-bit number, rounded down.
pub fn isqrt64(n: u64) -> (r: u64)
    ensures
        r as int == sqrt_floor(n as int),
        (r as int) * (r as int) <= n as int,
        (n as int) < (r as int + 1) * (r as int + 1),
        r <= 4_294_967_295,
{
    let mut lo: u64 = 0;
    let mut hi: u64 = 4_294_967_296;
    proof {
        assert((hi as int) * (hi as int) > n as int) by (nonlinear_arith)
            requires
                hi == 4_294_967_296u64,
                n <= u64::MAX,
        ;
    }
    while lo + 1 < hi
        invariant
            0 <= lo < hi <= 4_294_967_296,
            (lo as int) * (lo as int) <= n as int,
            (n as int) < (hi as int) * (hi as int),
        decreases hi - lo,
    {
        let mid: u64 = lo + (hi - lo) / 2;
        proof {
            assert(mid < 4_294_967_296);
            assert((mid as int) * (mid as int) < 18_446_744_073_709_551_616) by (nonlinear_arith)
                requires
                    mid < 4_294_967_296u64,
            ;
        }
        if mid * mid <= n {
            lo = mid;
        } else {
            hi = mid;
        }
    }
    proof {
        lemma_sqrt_floor_is(n as int, lo as int);
    }
    lo
}

/// A 2-dimensional fixed-point vector (input strafe/forward intent).
#[derive(Clone, Copy, PartialEq, Eq, Structural, Debug)]
pub struct Vec2 {
    pub x: i64,
    pub y: i64,
}

/// A 3-dimensional fixed-point vector: `y` is up.
#[derive(Clone, Copy, PartialEq, Eq, Structural, Debug)]
pub struct Vec3 {
    pub x: i64,
    pub y: i64,
    pub z: i64,
}

impl Vec3 {
    /// Every component within `m` in magnitude.
    pub open spec fn in_range(self, m: int) -> bool {
        mag(self.x as int) <= m && mag(self.y as int) <= m && mag(self.z as int) <= m
    }

    /// The squared Euclidean norm, unscaled.
    pub open spec fn norm_sq(self) -> int {
        (self.x as int) * (self.x as int) + (self.y as int) * (self.y as int) + (self.z as int)
            * (self.z as int)
    }

    /// The Euclidean norm, rounded down (still in thousandths of a unit).
    pub open spec fn norm(self) -> int {
        sqrt_floor(self.norm_sq())
    }

    /// The fixed-point dot product.
    pub open spec fn dot_spec(self, o: Vec3) -> int {
        div_t(
            (self.x as int) * (o.x as int) + (self.y as int) * (o.y as int) + (self.z as int)
                * (o.z as int),
            FP as int,
        )
    }

    /// The zero vector.
    pub open spec fn zero_spec() -> Vec3 {
        Vec3 { x: 0, y: 0, z: 0 }
    }

    /// The fixed-point cross product.
    pub open spec fn cross_spec(self, o: Vec3) -> Vec3 {
        Vec3 {
            x: (fmul(self.y as int, o.z as int) - fmul(self.z as int, o.y as int)) as i64,
            y: (fmul(self.z as int, o.x as int) - fmul(self.x as int, o.z as int)) as i64,
            z: (fmul(self.x as int, o.y as int) - fmul(self.y as int, o.x as int)) as i64,
        }
    }

    /// The direction of `self` at unit length ([`FP`]); zero stays zero.
    pub open spec fn unit_spec(self) -> Vec3 {
        if self == Vec3::zero_spec() {
            Vec3::zero_spec()
        } else {
            Vec3 {
                x: fdiv(self.x as int, self.norm()) as i64,
                y: fdiv(self.y as int, self.norm()) as i64,
                z: fdiv(self.z as int, self.norm()) as i64,
            }
        }
    }

    /// The vector with the vertical component removed.
    pub open spec fn flat_spec(self) -> Vec3 {
        Vec3 { x: self.x, y: 0, z: self.z }
    }

    pub fn zero() -> (r: Vec3)
        ensures
            r == Vec3::zero_spec(),
    {
        Vec3 { x: 0, y: 0, z: 0 }
    }

    pub fn flat(self) -> (r: Vec3)
        ensures
            r == self.flat_spec(),
    {
        Vec3 { x: self.x, y: 0, z: self.z }
    }

    pub fn add(self, o: Vec3) -> (r: Vec3)
        requires
            self.in_range(2_000_000_000),
            o.in_range(2_000_000_000),
        ensures
            r.x == self.x + o.x,
            r.y == self.y + o.y,
            r.z == self.z + o.z,
    {
        Vec3 { x: self.x + o.x, y: self.y + o.y, z: self.z + o.z }
    }

    pub fn sub(self, o: Vec3) -> (r: Vec3)
        requires
            self.in_range(2_000_000_000),
            o.in_range(2_000_000_000),
        ensures
            r.x == self.x - o.x,
            r.y == self.y - o.y,
            r.z == self.z - o.z,
    {
        Vec3 { x: self.x - o.x, y: self.y - o.y, z: self.z - o.z }
    }

    pub fn neg(self) -> (r: Vec3)
        requires
            self.in_range(2_000_000_000),
        ensures
            r.x == -(self.x as int),
            r.y == -(self.y as int),
            r.z == -(self.z as int),
    {
        Vec3 { x: -self.x, y: -self.y, z: -self.z }
    }

    /// Scale by a fixed-point factor `k` (component-wise `fmul`).
    pub fn scale(self, k: i64) -> (r: Vec3)
        requires
            self.in_range(3_000_000_000),
            mag(k as int) <= 3_000_000_000,
        ensures
            r.x == fmul(self.x as int, k as int),
            r.y == fmul(self.y as int, k as int),
            r.z == fmul(self.z as int, k as int),
    {
        proof {
            lemma_mul_mag(self.x as int, k as int, 3_000_000_000, 3_000_000_000);
            lemma_mul_mag(self.y as int, k as int, 3_000_000_000, 3_000_000_000);
            lemma_mul_mag(self.z as int, k as int, 3_000_000_000, 3_000_000_000);
            lemma_mul_mag(self.x as int, k as int, mag(self.x as int), mag(k as int));
            lemma_mul_mag(self.y as int, k as int, mag(self.y as int), mag(k as int));
            lemma_mul_mag(self.z as int, k as int, mag(self.z as int), mag(k as int));
            lemma_div_t_mag(
                self.x as int * k as int,
                FP as int,
                mag(self.x as int) * mag(k as int),
            );
            lemma_div_t_mag(
                self.y as int * k as int,
                FP as int,
                mag(self.y as int) * mag(k as int),
            );
            lemma_div_t_mag(
                self.z as int * k as int,
                FP as int,
                mag(self.z as int) * mag(k as int),
            );
        }
        Vec3 { x: (self.x * k) / FP, y: (self.y * k) / FP, z: (self.z * k) / FP }
    }

    /// The fixed-point dot product.
    pub fn dot(self, o: Vec3) -> (r: i64)
        requires
            self.in_range(1_000_000_000),
            o.in_range(1_000_000_000),
        ensures
            r == self.dot_spec(o),
            mag(r as int) <= 3_000_000_000_000_000,
    {
        proof {
            lemma_mul_mag(self.x as int, o.x as int, 1_000_000_000, 1_000_000_000);
            lemma_mul_mag(self.y as int, o.y as int, 1_000_000_000, 1_000_000_000);
            lemma_mul_mag(self.z as int, o.z as int, 1_000_000_000, 1_000_000_000);
            lemma_div_t_mag(
                self.x as int * o.x as int + self.y as int * o.y as int + self.z as int
                    * o.z as int,
                FP as int,
                3_000_000_000_000_000_000,
            );
        }
        (self.x * o.x + self.y * o.y + self.z * o.z) / FP
    }

    /// The squared norm as a machine integer.
    pub fn norm_sq_i(self) -> (r: i64)
        requires
            self.in_range(1_500_000_000),
        ensures
            r == self.norm_sq(),
            r >= 0,
    {
        proof {
            lemma_mul_mag(self.x as int, self.x as int, 1_500_000_000, 1_500_000_000);
            lemma_mul_mag(self.y as int, self.y as int, 1_500_000_000, 1_500_000_000);
            lemma_mul_mag(self.z as int, self.z as int, 1_500_000_000, 1_500_000_000);
            assert(self.x as int * self.x as int >= 0) by (nonlinear_arith);
            assert(self.y as int * self.y as int >= 0) by (nonlinear_arith);
            assert(self.z as int * self.z as int >= 0) by (nonlinear_arith);
        }
        self.x * self.x + self.y * self.y + self.z * self.z
    }

    /// The Euclidean norm, rounded down.
    pub fn length(self) -> (r: i64)
        requires
            self.in_range(1_500_000_000),
        ensures
            r == self.norm(),
            (r as int) * (r as int) <= self.norm_sq(),
            self.norm_sq() < (r as int + 1) * (r as int + 1),
            0 <= r <= 2_598_076_212,
            mag(self.x as int) <= r,
            mag(self.y as int) <= r,
            mag(self.z as int) <= r,
            (r == 0) <==> (self == Vec3::zero_spec()),
    {
        let s = self.norm_sq_i();
        let r = isqrt64(s as u64);
        proof {
            assert(self.x as int * self.x as int >= 0) by (nonlinear_arith);
            assert(self.y as int * self.y as int >= 0) by (nonlinear_arith);
            assert(self.z as int * self.z as int >= 0) by (nonlinear_arith);
            lemma_square_le_sqrt(self.x as int, s as int, r as int);
            lemma_square_le_sqrt(self.y as int, s as int, r as int);
            lemma_square_le_sqrt(self.z as int, s as int, r as int);
            lemma_mul_mag(self.x as int, self.x as int, 1_500_000_000, 1_500_000_000);
            lemma_mul_mag(self.y as int, self.y as int, 1_500_000_000, 1_500_000_000);
            lemma_mul_mag(self.z as int, self.z as int, 1_500_000_000, 1_500_000_000);
            assert(s <= 6_750_000_000_000_000_000i64);
            assert((r as int) * (r as int) <= 6_750_000_000_000_000_000) by (nonlinear_arith)
                requires
                    (r as int) * (r as int) <= s as int,
                    s <= 6_750_000_000_000_000_000i64,
            ;
            assert(r as int <= 2_598_076_212) by (nonlinear_arith)
                requires
                    r >= 0,
                    (r as int) * (r as int) <= 6_750_000_000_000_000_000,
            ;
            if r == 0 {
                assert(self.x == 0 && self.y == 0 && self.z == 0);
            }
            if self == Vec3::zero_spec() {
                lemma_sqrt_floor_is(0, 0);
            }
        }
        r as i64
    }

    /// The fixed-point cross product, for small `self` against a possibly
    /// large `o`.
    pub fn cross(self, o: Vec3) -> (r: Vec3)
        requires
            self.in_range(2_000_000),
            o.in_range(1_300_000_000),
        ensures
            r == self.cross_spec(o),
            r.in_range(5_200_000_000_000),
    {
        proof {
            lemma_fmul_mag(self.y as int, o.z as int, 2_000_000, 1_300_000_000);
            lemma_fmul_mag(self.z as int, o.y as int, 2_000_000, 1_300_000_000);
            lemma_fmul_mag(self.z as int, o.x as int, 2_000_000, 1_300_000_000);
            lemma_fmul_mag(self.x as int, o.z as int, 2_000_000, 1_300_000_000);
            lemma_fmul_mag(self.x as int, o.y as int, 2_000_000, 1_300_000_000);
            lemma_fmul_mag(self.y as int, o.x as int, 2_000_000, 1_300_000_000);
        }
        Vec3 {
            x: mul_fp(self.y, o.z) - mul_fp(self.z, o.y),
            y: mul_fp(self.z, o.x) - mul_fp(self.x, o.z),
            z: mul_fp(self.x, o.y) - mul_fp(self.y, o.x),
        }
    }

    /// The direction of `self` scaled to unit length ([`FP`]); zero stays zero.
    pub fn normalize_or_zero(self) -> (r: Vec3)
        requires
            self.in_range(1_500_000_000),
        ensures
            r == self.unit_spec(),
            self == Vec3::zero_spec() ==> r == Vec3::zero_spec(),
            self != Vec3::zero_spec() ==> r.x == fdiv(self.x as int, self.norm()) && r.y == fdiv(
                self.y as int,
                self.norm(),
            ) && r.z == fdiv(self.z as int, self.norm()),
            r.in_range(FP as int),
    {
        let len = self.length();
        if len == 0 {
            Vec3 { x: 0, y: 0, z: 0 }
        } else {
            proof {
                lemma_mul_mag(self.x as int, FP as int, len as int, FP as int);
                lemma_mul_mag(self.y as int, FP as int, len as int, FP as int);
                lemma_mul_mag(self.z as int, FP as int, len as int, FP as int);
                lemma_div_t_mag(self.x as int * FP as int, len as int, len as int * FP as int);
                lemma_div_t_mag(self.y as int * FP as int, len as int, len as int * FP as int);
                lemma_div_t_mag(self.z as int * FP as int, len as int, len as int * FP as int);
                assert((len as int * (FP as int)) / (len as int) == FP as int) by {
                    vstd::arithmetic::div_mod::lemma_div_multiples_vanish(FP as int, len as int);
                };
            }
            Vec3 { x: (self.x * FP) / len, y: (self.y * FP) / len, z: (self.z * FP) / len }
        }
    }
}

} // verus!
