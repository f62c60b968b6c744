//! Fixed-point primitives: rounding division, planar rotations and points.

use vstd::prelude::*;

verus! {

/// The fixed-point value that stands for 1.0 in a rotation's cosine and sine.
pub const ONE: i64 = 1073741824;

/// Largest magnitude of a coordinate or a radius, in length units.
pub const WORLD_LIMIT: i64 = 2305843009213693952;

/// Integer division by a positive divisor, rounding toward zero.
pub open spec fn div_tz(x: int, d: int) -> int {
    if x >= 0 {
        x / d
    } else {
        -((-x) / d)
    }
}

pub open spec fn abs(x: int) -> int {
    if x >= 0 {
        x
    } else {
        -x
    }
}

/// Rounding toward zero never makes the quotient larger in magnitude.
pub proof fn lemma_div_tz_bound(x: int, d: int)
    requires
        d > 0,
    ensures
        abs(div_tz(x, d)) * d <= abs(x),
        x >= 0 ==> div_tz(x, d) >= 0,
        x <= 0 ==> div_tz(x, d) <= 0,
{
    let a = abs(x);
    let q = a / d;
    vstd::arithmetic::div_mod::lemma_fundamental_div_mod(a, d);
    vstd::arithmetic::div_mod::lemma_div_pos_is_pos(a, d);
    vstd::arithmetic::mul::lemma_mul_is_commutative(d, q);
    assert(abs(div_tz(x, d)) == q);
}

/// An exact multiple divides back to its factor.
pub proof fn lemma_div_tz_exact(k: int, d: int)
    requires
        d > 0,
    ensures
        div_tz(k * d, d) == k,
{
    if k >= 0 {
        vstd::arithmetic::mul::lemma_mul_nonnegative(k, d);
        vstd::arithmetic::div_mod::lemma_div_multiples_vanish(k, d);
        vstd::arithmetic::mul::lemma_mul_is_commutative(k, d);
    } else {
        vstd::arithmetic::mul::lemma_mul_unary_negation(k, d);
        vstd::arithmetic::mul::lemma_mul_nonnegative(-k, d);
        vstd::arithmetic::div_mod::lemma_div_multiples_vanish(-k, d);
        vstd::arithmetic::mul::lemma_mul_is_commutative(-k, d);
    }
}

/// Division rounding toward zero, for a positive divisor.
pub fn div_toward_zero(x: i128, d: i128) -> (r: i128)
    requires
        d > 0,
        x > i128::MIN,
    ensures
        r == div_tz(x as int, d as int),
{
    if x >= 0 {
        x / d
    } else {
        -((-x) / d)
    }
}

/// A number whose square is at most `m * m` lies within `[-m, m]`.
pub proof fn lemma_square_bound(x: int, m: int)
    requires
        m >= 0,
        x * x <= m * m,
    ensures
        -m <= x <= m,
{
    if x > m {
        assert(x * x > m * m) by (nonlinear_arith)
            requires
                x > m,
                m >= 0,
        ;
    }
    if x < -m {
        assert(x * x > m * m) by (nonlinear_arith)
            requires
                x < -m,
                m >= 0,
        ;
    }
}

/// Squares keep the bound that rounding toward zero gives.
pub proof fn lemma_div_tz_square(x: int, d: int)
    requires
        d > 0,
    ensures
        div_tz(x, d) * div_tz(x, d) * (d * d) <= x * x,
{
    lemma_div_tz_bound(x, d);
    let q = abs(div_tz(x, d));
    let a = abs(x);
    assert(q * d * (q * d) <= a * a) by (nonlinear_arith)
        requires
            0 <= q * d <= a,
    ;
    assert(div_tz(x, d) * div_tz(x, d) * (d * d) == q * d * (q * d)) by (nonlinear_arith)
        requires
            q == div_tz(x, d) || q == -div_tz(x, d),
    ;
    assert(a * a == x * x) by (nonlinear_arith)
        requires
            a == x || a == -x,
    ;
}

/// A rotation in one plane: the cosine and sine of its angle, scaled by
/// `ONE`. Rounding may leave it a little shorter than unit length.
#[derive(Clone, Copy, Debug, PartialEq, Eq)]
pub struct Rotor {
    pub cos: i64,
    pub sin: i64,
}

impl Rotor {
    /// At most unit length.
    pub open spec fn wf(self) -> bool {
        self.cos * self.cos + self.sin * self.sin <= ONE * ONE
    }

    /// The rotation by angle zero.
    pub open spec fn is_identity(self) -> bool {
        self.cos == ONE && self.sin == 0
    }

    /// Cosine of the sum of the two angles, from the angle-addition formula.
    pub open spec fn composed_cos(self, o: Rotor) -> int {
        div_tz(self.cos * o.cos - self.sin * o.sin, ONE as int)
    }

    /// Sine of the sum of the two angles, from the angle-addition formula.
    pub open spec fn composed_sin(self, o: Rotor) -> int {
        div_tz(self.sin * o.cos + self.cos * o.sin, ONE as int)
    }

    /// The rotation by the sum of the two angles.
    pub open spec fn spec_compose(self, o: Rotor) -> Rotor {
        Rotor { cos: self.composed_cos(o) as i64, sin: self.composed_sin(o) as i64 }
    }

    pub fn identity() -> (r: Rotor)
        ensures
            r.is_identity(),
            r.wf(),
    {
        Rotor { cos: ONE, sin: 0 }
    }

    /// Whether the pair is at most unit length, as the operations require.
    pub fn is_valid(&self) -> (r: bool)
        ensures
            r == self.wf(),
    {
        let c = self.cos as i128;
        let s = self.sin as i128;
        let one = ONE as i128;
        if c > one || c < -one || s > one || s < -one {
            proof {
                if self.wf() {
                    lemma_rotor_bounds(*self);
                }
            }
            false
        } else {
            proof {
                lemma_product_bound(c as int, c as int, ONE as int);
                lemma_product_bound(s as int, s as int, ONE as int);
            }
            c * c + s * s <= one * one
        }
    }

    /// Rotation by the sum of the two angles.
    pub fn compose(&self, o: &Rotor) -> (r: Rotor)
        requires
            self.wf(),
            o.wf(),
        ensures
            r == self.spec_compose(*o),
            r.wf(),
    {
        proof {
            lemma_compose_wf(*self, *o);
            lemma_rotor_bounds(*self);
            lemma_rotor_bounds(*o);
            lemma_product_bound(self.cos as int, o.cos as int, ONE as int);
            lemma_product_bound(self.sin as int, o.sin as int, ONE as int);
            lemma_product_bound(self.sin as int, o.cos as int, ONE as int);
            lemma_product_bound(self.cos as int, o.sin as int, ONE as int);
        }
        let a: i128 = (self.cos as i128) * (o.cos as i128) - (self.sin as i128) * (o.sin as i128);
        let b: i128 = (self.sin as i128) * (o.cos as i128) + (self.cos as i128) * (o.sin as i128);
        let c = div_toward_zero(a, ONE as i128);
        let s = div_toward_zero(b, ONE as i128);
        Rotor { cos: c as i64, sin: s as i64 }
    }
}

/// Unit length bounds each component.
pub proof fn lemma_rotor_bounds(r: Rotor)
    requires
        r.wf(),
    ensures
        -ONE <= r.cos <= ONE,
        -ONE <= r.sin <= ONE,
{
    assert(r.cos * r.cos <= ONE * ONE && r.sin * r.sin <= ONE * ONE) by (nonlinear_arith)
        requires
            r.cos * r.cos + r.sin * r.sin <= ONE * ONE,
    ;
    lemma_square_bound(r.cos as int, ONE as int);
    lemma_square_bound(r.sin as int, ONE as int);
}

/// The norm of the angle-addition result is the product of the norms.
proof fn lemma_angle_sum_norm(c1: int, s1: int, c2: int, s2: int)
    ensures
        (c1 * c2 - s1 * s2) * (c1 * c2 - s1 * s2) + (s1 * c2 + c1 * s2) * (s1 * c2 + c1 * s2) == (
        c1 * c1 + s1 * s1) * (c2 * c2 + s2 * s2),
{
    let (p, q, u, v) = (c1 * c2, s1 * s2, s1 * c2, c1 * s2);
    assert((p - q) * (p - q) == p * p - 2 * (p * q) + q * q) by (nonlinear_arith);
    assert((u + v) * (u + v) == u * u + 2 * (u * v) + v * v) by (nonlinear_arith);
    assert(p * q == u * v) by (nonlinear_arith)
        requires
            p == c1 * c2,
            q == s1 * s2,
            u == s1 * c2,
            v == c1 * s2,
    ;
    let (a, b, c, d) = (c1 * c1, s1 * s1, c2 * c2, s2 * s2);
    assert((a + b) * (c + d) == a * c + a * d + b * c + b * d) by (nonlinear_arith);
    assert(p * p == a * c) by (nonlinear_arith)
        requires
            p == c1 * c2,
            a == c1 * c1,
            c == c2 * c2,
    ;
    assert(q * q == b * d) by (nonlinear_arith)
        requires
            q == s1 * s2,
            b == s1 * s1,
            d == s2 * s2,
    ;
    assert(u * u == b * c) by (nonlinear_arith)
        requires
            u == s1 * c2,
            b == s1 * s1,
            c == c2 * c2,
    ;
    assert(v * v == a * d) by (nonlinear_arith)
        requires
            v == c1 * s2,
            a == c1 * c1,
            d == s2 * s2,
    ;
}

/// A product of two factors bounded by `m` is bounded by `m * m`.
pub proof fn lemma_product_bound(x: int, y: int, m: int)
    by (nonlinear_arith)
    requires
        -m <= x <= m,
        -m <= y <= m,
    ensures
        -(m * m) <= x * y <= m * m,
{
}

/// Composing two rotations of at most unit length gives one again.
pub proof fn lemma_compose_wf(p: Rotor, q: Rotor)
    requires
        p.wf(),
        q.wf(),
    ensures
        -ONE <= p.composed_cos(q) <= ONE,
        -ONE <= p.composed_sin(q) <= ONE,
        p.spec_compose(q).cos == p.composed_cos(q),
        p.spec_compose(q).sin == p.composed_sin(q),
        p.spec_compose(q).wf(),
{
    let (c1, s1, c2, s2) = (p.cos as int, p.sin as int, q.cos as int, q.sin as int);
    let a = c1 * c2 - s1 * s2;
    let b = s1 * c2 + c1 * s2;
    let m = ONE as int;
    lemma_angle_sum_norm(c1, s1, c2, s2);
    assert((c1 * c1 + s1 * s1) * (c2 * c2 + s2 * s2) <= (m * m) * (m * m)) by (nonlinear_arith)
        requires
            c1 * c1 + s1 * s1 <= m * m,
            c2 * c2 + s2 * s2 <= m * m,
    ;
    lemma_div_tz_square(a, m);
    lemma_div_tz_square(b, m);
    let x = div_tz(a, m);
    let y = div_tz(b, m);
    assert(x * x + y * y <= m * m) by (nonlinear_arith)
        requires
            x * x * (m * m) + y * y * (m * m) <= (m * m) * (m * m),
            m > 0,
    ;
    let r = Rotor { cos: x as i64, sin: y as i64 };
    assert(x * x <= m * m && y * y <= m * m) by (nonlinear_arith)
        requires
            x * x + y * y <= m * m,
    ;
    lemma_square_bound(x, m);
    lemma_square_bound(y, m);
}

/// Bound of a rounded quotient from a bound of its dividend.
pub proof fn lemma_div_tz_scaled(x: int, k: int, d: int)
    requires
        d > 0,
        k >= 0,
        -(k * d) <= x <= k * d,
    ensures
        -k <= div_tz(x, d) <= k,
{
    lemma_div_tz_bound(x, d);
    let q = abs(div_tz(x, d));
    assert(q <= k) by (nonlinear_arith)
        requires
            q * d <= k * d,
            d > 0,
    ;
}

/// `r` is the integer square root of `n`, rounded down.
pub open spec fn is_floor_sqrt(r: int, n: int) -> bool {
    0 <= r && r * r <= n < (r + 1) * (r + 1)
}

/// The integer square root of `n`, rounded down.
pub open spec fn floor_sqrt(n: int) -> int {
    choose|r: int| is_floor_sqrt(r, n)
}

/// The rounded-down square root is unique.
pub proof fn lemma_floor_sqrt_unique(a: int, b: int, n: int)
    requires
        is_floor_sqrt(a, n),
        is_floor_sqrt(b, n),
    ensures
        a == b,
{
    if a < b {
        assert((a + 1) * (a + 1) <= b * b) by (nonlinear_arith)
            requires
                0 <= a + 1 <= b,
        ;
    }
    if b < a {
        assert((b + 1) * (b + 1) <= a * a) by (nonlinear_arith)
            requires
                0 <= b + 1 <= a,
        ;
    }
}

/// Integer square root, rounded down.
pub fn isqrt(n: u128) -> (r: u64)
    ensures
        is_floor_sqrt(r as int, n as int),
        r == floor_sqrt(n as int),
{
    let mut lo: u128 = 0;
    let mut hi: u128 = 0x1_0000_0000_0000_0000;
    assert(hi * hi == 0x1_0000_0000_0000_0000_0000_0000_0000_0000int) by (nonlinear_arith)
        requires
            hi == 0x1_0000_0000_0000_0000int,
    ;
    while hi - lo > 1
        invariant
            lo < hi <= 0x1_0000_0000_0000_0000,
            lo * lo <= n,
            n < hi * hi,
        decreases hi - lo,
    {
        let mid = lo + (hi - lo) / 2;
        assert(mid * mid < 0x1_0000_0000_0000_0000_0000_0000_0000_0000int) by (nonlinear_arith)
            requires
                0 <= mid < 0x1_0000_0000_0000_0000int,
        ;
        if mid * mid <= n {
            lo = mid;
        } else {
            hi = mid;
        }
    }
    proof {
        assert(is_floor_sqrt(lo as int, n as int));
        lemma_floor_sqrt_unique(lo as int, floor_sqrt(n as int), n as int);
    }
    lo as u64
}

/// A point or a displacement, in length units.
#[derive(Clone, Copy, Debug, PartialEq, Eq)]
pub struct Vec3 {
    pub x: i64,
    pub y: i64,
    pub z: i64,
}

impl Vec3 {
    /// Each coordinate lies within `WORLD_LIMIT` of the origin.
    pub open spec fn in_world(self) -> bool {
        -WORLD_LIMIT <= self.x <= WORLD_LIMIT && -WORLD_LIMIT <= self.y <= WORLD_LIMIT
            && -WORLD_LIMIT <= self.z <= WORLD_LIMIT
    }

    pub fn new(x: i64, y: i64, z: i64) -> (r: Vec3)
        ensures
            r.x == x && r.y == y && r.z == z,
    {
        Vec3 { x, y, z }
    }

    /// Whether each coordinate lies within `WORLD_LIMIT` of the origin.
    pub fn is_in_world(&self) -> (r: bool)
        ensures
            r == self.in_world(),
    {
        -WORLD_LIMIT <= self.x && self.x <= WORLD_LIMIT && -WORLD_LIMIT <= self.y && self.y
            <= WORLD_LIMIT && -WORLD_LIMIT <= self.z && self.z <= WORLD_LIMIT
    }
}

} // verus!
