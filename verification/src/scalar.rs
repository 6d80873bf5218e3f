//! Fixed-point numbers with nine decimal places and saturating arithmetic.
//!
//! A scalar holds a raw count of billionths. Every operation computes the
//! exact result over the integers, rounds it toward zero where it does not
//! land on a billionth, and clamps it to `[-LIMIT, LIMIT]`.

use vstd::prelude::*;

verus! {

/// Raw units per whole unit: the raw value `SCALE` stands for one.
pub const SCALE: i64 = 1_000_000_000;

/// Largest raw magnitude that an operation yields.
pub const LIMIT: i64 = 0x7fff_ffff_ffff_ffff;

/// The nearest value to `v` within `[-LIMIT, LIMIT]`.
pub open spec fn clamp(v: int) -> int {
    if v > LIMIT {
        LIMIT as int
    } else if v < -LIMIT {
        -LIMIT
    } else {
        v
    }
}

/// Whether `v` lies within `[-LIMIT, LIMIT]`, as every result of an operation
/// does.
pub open spec fn bounded(v: int) -> bool {
    -LIMIT <= v <= LIMIT
}

/// The quotient of `n` by a positive `d`, rounded toward zero.
pub open spec fn toward_zero(n: int, d: int) -> int
    recommends
        d > 0,
{
    if n >= 0 {
        n / d
    } else {
        -((-n) / d)
    }
}

/// Raw value of the sum of two scalars.
pub open spec fn sum(a: int, b: int) -> int {
    clamp(a + b)
}

/// Raw value of the difference of two scalars.
pub open spec fn difference(a: int, b: int) -> int {
    clamp(a - b)
}

/// Raw value of a scalar with its sign flipped.
pub open spec fn negation(a: int) -> int {
    clamp(-a)
}

/// Raw value of the product of two scalars.
pub open spec fn product(a: int, b: int) -> int {
    clamp(toward_zero(a * b, SCALE as int))
}

/// Raw value of the quotient of two scalars, for a divisor other than zero.
pub open spec fn ratio(a: int, b: int) -> int
    recommends
        b != 0,
{
    if b > 0 {
        clamp(toward_zero(a * SCALE, b))
    } else {
        clamp(toward_zero(-(a * SCALE), -b))
    }
}

/// Whether `r` is the integer square root of `n`: the largest natural number
/// whose square does not exceed `n`.
pub open spec fn is_root(n: int, r: int) -> bool {
    0 <= r && r * r <= n < (r + 1) * (r + 1)
}

/// The integer square root of `n`.
pub open spec fn root(n: int) -> int {
    choose|r: int| is_root(n, r)
}

/// Raw value of the Euclidean norm of the vector with raw components `x`, `y`.
pub open spec fn norm(x: int, y: int) -> int {
    clamp(root(x * x + y * y))
}

/// A number has at most one integer square root.
pub proof fn lemma_root_unique(n: int, r1: int, r2: int)
    requires
        is_root(n, r1),
        is_root(n, r2),
    ensures
        r1 == r2,
{
    if r1 < r2 {
        assert((r1 + 1) * (r1 + 1) <= r2 * r2) by (nonlinear_arith)
            requires
                0 <= r1 + 1 <= r2,
        ;
    }
    if r2 < r1 {
        assert((r2 + 1) * (r2 + 1) <= r1 * r1) by (nonlinear_arith)
            requires
                0 <= r2 + 1 <= r1,
        ;
    }
}

/// Rounding toward zero commutes with a change of sign.
pub proof fn lemma_toward_zero_odd(n: int, d: int)
    requires
        d > 0,
    ensures
        toward_zero(-n, d) == -toward_zero(n, d),
{
    vstd::arithmetic::div_mod::lemma_div_basics(d);
}

/// Flipping the sign of a factor flips the sign of the product.
pub proof fn lemma_product_odd(a: int, b: int)
    ensures
        product(-a, b) == -product(a, b),
        product(a, -b) == -product(a, b),
{
    assert((-a) * b == -(a * b) && a * (-b) == -(a * b)) by (nonlinear_arith);
    lemma_toward_zero_odd(a * b, SCALE as int);
}

/// The product does not depend on the order of its factors.
pub proof fn lemma_product_commutes(a: int, b: int)
    ensures
        product(a, b) == product(b, a),
{
    assert(a * b == b * a) by (nonlinear_arith);
}

/// A product with zero is zero.
pub proof fn lemma_product_zero(a: int)
    ensures
        product(a, 0) == 0,
        product(0, a) == 0,
{
    assert(a * 0 == 0 && 0 * a == 0) by (nonlinear_arith);
}

/// Multiplying by one changes nothing but the clamping.
pub proof fn lemma_product_one(a: int)
    ensures
        product(a, SCALE as int) == clamp(a),
{
    vstd::arithmetic::div_mod::lemma_div_multiples_vanish(a, SCALE as int);
    vstd::arithmetic::div_mod::lemma_div_multiples_vanish(-a, SCALE as int);
    assert(a * SCALE == SCALE * a && -(a * SCALE) == SCALE * (-a)) by (nonlinear_arith);
}

/// Flipping the sign of the dividend flips the sign of the quotient.
pub proof fn lemma_ratio_odd(a: int, b: int)
    requires
        b != 0,
    ensures
        ratio(-a, b) == -ratio(a, b),
{
    if b > 0 {
        lemma_toward_zero_odd(a * SCALE, b);
    } else {
        lemma_toward_zero_odd(-(a * SCALE), -b);
    }
}

/// Zero divided by anything is zero.
pub proof fn lemma_ratio_zero(b: int)
    requires
        b != 0,
    ensures
        ratio(0, b) == 0,
{
    vstd::arithmetic::div_mod::lemma_div_basics(b);
    vstd::arithmetic::div_mod::lemma_div_basics(-b);
}

/// A scalar other than zero divided by itself is one.
pub proof fn lemma_ratio_self(a: int)
    requires
        a != 0,
    ensures
        ratio(a, a) == SCALE,
{
    if a > 0 {
        vstd::arithmetic::div_mod::lemma_div_multiples_vanish(SCALE as int, a);
    } else {
        vstd::arithmetic::div_mod::lemma_div_multiples_vanish(SCALE as int, -a);
        assert(-(a * SCALE) == (-a) * SCALE) by (nonlinear_arith);
    }
}

/// The norm does not change when both components change sign.
pub proof fn lemma_norm_even(x: int, y: int)
    ensures
        norm(-x, -y) == norm(x, y),
{
    assert((-x) * (-x) == x * x) by (nonlinear_arith);
    assert((-y) * (-y) == y * y) by (nonlinear_arith);
}

/// Every number that is not negative has an integer square root, and that
/// root is not negative.
pub proof fn lemma_root_exists(n: int)
    requires
        n >= 0,
    ensures
        is_root(n, root(n)),
        root(n) >= 0,
    decreases n,
{
    if n == 0 {
        assert(is_root(0, 0));
    } else {
        lemma_root_exists(n - 1);
        let r = root(n - 1);
        if (r + 1) * (r + 1) <= n {
            assert((r + 2) * (r + 2) > n) by (nonlinear_arith)
                requires
                    r >= 0,
                    n - 1 < (r + 1) * (r + 1),
            ;
            assert(is_root(n, r + 1));
        } else {
            assert(is_root(n, r));
        }
    }
}

/// The largest `r` with `r * r <= n`, found by bisection.
pub fn integer_sqrt(n: u128) -> (r: u128)
    ensures
        is_root(n as int, r as int),
        r as int == root(n as int),
{
    let mut low: u128 = 0;
    let mut high: u128 = 0x1_0000_0000_0000_0000;
    assert(high * high > n) by (nonlinear_arith)
        requires
            high == 0x1_0000_0000_0000_0000,
            n <= u128::MAX,
    ;
    while high - low > 1
        invariant
            low < high <= 0x1_0000_0000_0000_0000,
            low * low <= n < high * high,
        decreases high - low,
    {
        let mid: u128 = low + (high - low) / 2;
        assert(mid * mid <= u128::MAX) by (nonlinear_arith)
            requires
                mid < 0x1_0000_0000_0000_0000,
        ;
        if mid * mid <= n {
            low = mid;
        } else {
            high = mid;
        }
    }
    proof {
        lemma_root_unique(n as int, low as int, root(n as int));
    }
    low
}

/// A fixed-point number: `raw` billionths.
#[derive(Clone, Copy, Debug, PartialEq, Eq, Structural)]
pub struct Scalar {
    pub raw: i64,
}

impl View for Scalar {
    type V = int;

    open spec fn view(&self) -> int {
        self.raw as int
    }
}

/// The absolute value of `v`.
fn magnitude(v: i128) -> (m: u128)
    requires
        -0x1_0000_0000_0000_0000 <= v <= 0x1_0000_0000_0000_0000,
    ensures
        m == if v < 0 { -v } else { v as int },
{
    if v < 0 {
        (-v) as u128
    } else {
        v as u128
    }
}

/// The scalar of magnitude `m` and the given sign, clamped.
fn signed(m: u128, negative: bool) -> (r: Scalar)
    ensures
        r@ == clamp(if negative { -(m as int) } else { m as int }),
{
    let bounded: i64 = if m > LIMIT as u128 { LIMIT } else { m as i64 };
    if negative {
        Scalar { raw: -bounded }
    } else {
        Scalar { raw: bounded }
    }
}

/// A product is the product of the magnitudes, negated where the signs differ.
proof fn lemma_product_sign(x: int, y: int)
    by (nonlinear_arith)
    ensures
        ({
            let a = if x < 0 { -x } else { x };
            let b = if y < 0 { -y } else { y };
            &&& a * b >= 0
            &&& (x < 0) == (y < 0) ==> x * y == a * b
            &&& (x < 0) != (y < 0) ==> x * y == -(a * b)
        }),
{
}

impl Scalar {
    /// The scalar that stands for the whole number `n`.
    pub fn from_int(n: i32) -> (r: Scalar)
        ensures
            r@ == n * SCALE,
    {
        Scalar { raw: (n as i64) * SCALE }
    }

    /// Whether `self` is less than `other`.
    pub fn lt(self, other: Scalar) -> (b: bool)
        ensures
            b == (self@ < other@),
    {
        self.raw < other.raw
    }

    /// Whether `self` is at most `other`.
    pub fn le(self, other: Scalar) -> (b: bool)
        ensures
            b == (self@ <= other@),
    {
        self.raw <= other.raw
    }

    /// The sum, clamped.
    pub fn add(self, other: Scalar) -> (r: Scalar)
        ensures
            r@ == sum(self@, other@),
    {
        let wide: i128 = self.raw as i128 + other.raw as i128;
        signed(magnitude(wide), wide < 0)
    }

    /// The difference, clamped.
    pub fn sub(self, other: Scalar) -> (r: Scalar)
        ensures
            r@ == difference(self@, other@),
    {
        let wide: i128 = self.raw as i128 - other.raw as i128;
        signed(magnitude(wide), wide < 0)
    }

    /// The scalar with its sign flipped.
    pub fn neg(self) -> (r: Scalar)
        ensures
            r@ == negation(self@),
    {
        let wide: i128 = -(self.raw as i128);
        signed(magnitude(wide), wide < 0)
    }

    /// The product, rounded toward zero and clamped.
    pub fn mul(self, other: Scalar) -> (r: Scalar)
        ensures
            r@ == product(self@, other@),
    {
        let a: u128 = magnitude(self.raw as i128);
        let b: u128 = magnitude(other.raw as i128);
        assert(a * b <= 0x4000_0000_0000_0000_0000_0000_0000_0000) by (nonlinear_arith)
            requires
                a <= 0x8000_0000_0000_0000,
                b <= 0x8000_0000_0000_0000,
        ;
        proof {
            lemma_product_sign(self@, other@);
        }
        signed((a * b) / (SCALE as u128), (self.raw < 0) != (other.raw < 0))
    }

    /// The quotient, rounded toward zero and clamped.
    pub fn div(self, other: Scalar) -> (r: Scalar)
        requires
            other@ != 0,
        ensures
            r@ == ratio(self@, other@),
    {
        let a: u128 = magnitude(self.raw as i128);
        let b: u128 = magnitude(other.raw as i128);
        assert(a * (SCALE as u128) <= 0x8000_0000_0000_0000 * 1_000_000_000) by (nonlinear_arith)
            requires
                a <= 0x8000_0000_0000_0000,
                SCALE == 1_000_000_000,
        ;
        let q: u128 = (a * (SCALE as u128)) / b;
        proof {
            let n = self@ * SCALE;
            vstd::arithmetic::div_mod::lemma_div_basics(b as int);
            assert(a * SCALE == if self@ < 0 { -n } else { n });
            assert(q as int == (a * SCALE) / (b as int));
            if other@ > 0 {
                assert(b as int == other@);
                assert(toward_zero(n, other@) == if self@ < 0 { -(q as int) } else { q as int });
            } else {
                assert(b as int == -other@);
                assert(toward_zero(-n, -other@) == if self@ > 0 { -(q as int) } else { q as int });
            }
        }
        signed(q, (self.raw < 0) != (other.raw < 0))
    }

    /// The Euclidean norm of the vector `(x, y)`, rounded down and clamped.
    pub fn hypot(x: Scalar, y: Scalar) -> (r: Scalar)
        ensures
            r@ == norm(x@, y@),
    {
        let a: u128 = magnitude(x.raw as i128);
        let b: u128 = magnitude(y.raw as i128);
        assert(a * a <= 0x4000_0000_0000_0000_0000_0000_0000_0000 && a * a == x@ * x@)
            by (nonlinear_arith)
            requires
                a <= 0x8000_0000_0000_0000,
                a == x@ || a == -x@,
        ;
        assert(b * b <= 0x4000_0000_0000_0000_0000_0000_0000_0000 && b * b == y@ * y@)
            by (nonlinear_arith)
            requires
                b <= 0x8000_0000_0000_0000,
                b == y@ || b == -y@,
        ;
        signed(integer_sqrt(a * a + b * b), false)
    }
}

} // verus!
