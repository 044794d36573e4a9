//! Fixed-point real numbers.
//!
//! A [`Scalar`] counts millionths of a millionth: the number it stands for is
//! `raw / SCALE`.
//! Every operation is total. A result that leaves the representable range is
//! held at the nearest bound, a quotient or product is rounded toward zero, and
//! a division by zero gives zero.

use vstd::prelude::*;

verus! {

/// Raw units per one.
pub const SCALE: i64 = 1_000_000_000_000;

/// The largest raw magnitude an operation can produce.
pub const RAW_MAX: i64 = 9_223_372_036_854_775_807;

/// A real number in fixed-point representation.
#[derive(Clone, Copy, Debug, PartialEq, Eq, Structural)]
pub struct Scalar {
    pub raw: i64,
}

/// `x` held inside `[-RAW_MAX, RAW_MAX]`.
pub open spec fn saturate(x: int) -> int {
    if x > RAW_MAX {
        RAW_MAX as int
    } else if x < -RAW_MAX {
        -RAW_MAX
    } else {
        x
    }
}

/// The absolute value of an integer.
pub open spec fn magnitude(x: int) -> int {
    if x < 0 {
        -x
    } else {
        x
    }
}

/// The quotient of `n` by `d`, rounded toward zero. Zero when `d` is zero.
pub open spec fn quotient_toward_zero(n: int, d: int) -> int {
    if d == 0 {
        0
    } else if (n < 0) != (d < 0) {
        -(magnitude(n) / magnitude(d))
    } else {
        magnitude(n) / magnitude(d)
    }
}

/// Whether `r` is the largest natural number whose square does not exceed `n`.
pub open spec fn is_int_sqrt(n: nat, r: nat) -> bool {
    r * r <= n < (r + 1) * (r + 1)
}

/// The largest natural number whose square does not exceed `n`.
pub open spec fn int_sqrt(n: nat) -> nat {
    choose|r: nat| is_int_sqrt(n, r)
}

/// Squaring is monotone on the natural numbers.
pub proof fn lemma_square_monotone(a: nat, b: nat)
    requires
        a <= b,
    ensures
        a * a <= b * b,
{
    assert(a * a <= b * b) by (nonlinear_arith)
        requires
            0 <= a <= b,
    ;
}

/// A root that brackets `n` is the integer square root of `n`.
pub proof fn lemma_int_sqrt_unique(n: nat, r: nat)
    requires
        r * r <= n < (r + 1) * (r + 1),
    ensures
        int_sqrt(n) == r,
{
    assert(is_int_sqrt(n, r));
    let s = int_sqrt(n);
    assert(is_int_sqrt(n, s));
    if s < r {
        lemma_square_monotone(s + 1, r);
    }
    if r < s {
        lemma_square_monotone(r + 1, s);
    }
}

/// The magnitude of a product is the product of the magnitudes.
pub proof fn lemma_magnitude_of_product(a: int, b: int)
    ensures
        magnitude(a * b) == magnitude(a) * magnitude(b),
        (a * b < 0) == (a != 0 && b != 0 && ((a < 0) != (b < 0))),
{
    assert(magnitude(a * b) == magnitude(a) * magnitude(b)) by (nonlinear_arith)
        requires
            magnitude(a) == if a < 0 {
                -a
            } else {
                a
            },
            magnitude(b) == if b < 0 {
                -b
            } else {
                b
            },
            magnitude(a * b) == if a * b < 0 {
                -(a * b)
            } else {
                a * b
            },
    ;
    assert((a * b < 0) == (a != 0 && b != 0 && ((a < 0) != (b < 0)))) by (nonlinear_arith);
}

/// Negating the numerator negates a quotient that is rounded toward zero.
pub proof fn lemma_quotient_negation(n: int, d: int)
    ensures
        quotient_toward_zero(-n, d) == -quotient_toward_zero(n, d),
{
    if d != 0 && n == 0 {
        assert(0int / magnitude(d) == 0) by (nonlinear_arith)
            requires
                magnitude(d) > 0,
        ;
    }
}

fn magnitude_of(x: i64) -> (m: u128)
    ensures
        m == magnitude(x as int),
        m <= 0x8000_0000_0000_0000,
{
    if x >= 0 {
        x as u128
    } else {
        let wide: i128 = x as i128;
        (-wide) as u128
    }
}

fn with_sign(negative: bool, m: u128) -> (r: Scalar)
    ensures
        r.raw == saturate(
            if negative {
                -(m as int)
            } else {
                m as int
            },
        ),
{
    if m > RAW_MAX as u128 {
        if negative {
            Scalar { raw: -RAW_MAX }
        } else {
            Scalar { raw: RAW_MAX }
        }
    } else {
        let v: i64 = m as i64;
        if negative {
            Scalar { raw: -v }
        } else {
            Scalar { raw: v }
        }
    }
}

fn clamp_wide(x: i128) -> (r: Scalar)
    ensures
        r.raw == saturate(x as int),
{
    if x > RAW_MAX as i128 {
        Scalar { raw: RAW_MAX }
    } else if x < -(RAW_MAX as i128) {
        Scalar { raw: -RAW_MAX }
    } else {
        Scalar { raw: x as i64 }
    }
}

/// The integer square root of `n`.
pub fn integer_sqrt(n: u128) -> (r: u64)
    ensures
        r == int_sqrt(n as nat),
        r * r <= n < (r + 1) * (r + 1),
{
    let mut lo: u128 = 0;
    let mut hi: u128 = 0x1_0000_0000_0000_0000;
    assert(n < hi * hi) by (nonlinear_arith)
        requires
            hi == 0x1_0000_0000_0000_0000,
            n <= 0xffff_ffff_ffff_ffff_ffff_ffff_ffff_ffff,
    ;
    while hi - lo > 1
        invariant
            lo < hi <= 0x1_0000_0000_0000_0000,
            lo * lo <= n < hi * hi,
        decreases hi - lo,
    {
        let mid: u128 = lo + (hi - lo) / 2;
        assert(mid * mid <= 0xffff_ffff_ffff_ffff_ffff_ffff_ffff_ffff) by (nonlinear_arith)
            requires
                mid <= 0xffff_ffff_ffff_ffff,
        ;
        if mid * mid <= n {
            lo = mid;
        } else {
            hi = mid;
        }
    }
    proof {
        lemma_int_sqrt_unique(n as nat, lo as nat);
    }
    lo as u64
}

impl Scalar {
    /// The sum, held inside the representable range.
    pub open spec fn spec_add(self, other: Scalar) -> Scalar {
        Scalar { raw: saturate(self.raw + other.raw) as i64 }
    }

    /// The difference, held inside the representable range.
    pub open spec fn spec_sub(self, other: Scalar) -> Scalar {
        Scalar { raw: saturate(self.raw - other.raw) as i64 }
    }

    /// The negation.
    pub open spec fn spec_neg(self) -> Scalar {
        Scalar { raw: saturate(-self.raw) as i64 }
    }

    /// The absolute value.
    pub open spec fn spec_abs(self) -> Scalar {
        Scalar { raw: saturate(magnitude(self.raw as int)) as i64 }
    }

    /// The product, rounded toward zero.
    pub open spec fn spec_mul(self, other: Scalar) -> Scalar {
        Scalar { raw: saturate(quotient_toward_zero(self.raw * other.raw, SCALE as int)) as i64 }
    }

    /// The quotient, rounded toward zero; zero when `other` is zero.
    pub open spec fn spec_div(self, other: Scalar) -> Scalar {
        Scalar { raw: saturate(quotient_toward_zero(self.raw * SCALE, other.raw as int)) as i64 }
    }

    /// The scalar for the fraction `n / d`, rounded toward zero; zero when
    /// `d` is zero.
    pub open spec fn spec_from_ratio(n: nat, d: nat) -> Scalar {
        Scalar { raw: saturate(quotient_toward_zero(n * SCALE, d as int)) as i64 }
    }

    /// The scalar for a whole number.
    pub open spec fn spec_from_int(n: int) -> Scalar {
        Scalar { raw: saturate(n * SCALE) as i64 }
    }

    /// The scalar with the given raw count.
    pub fn from_raw(raw: i64) -> (r: Scalar)
        ensures
            r.raw == raw,
    {
        Scalar { raw }
    }

    /// The raw count.
    pub fn raw(&self) -> (r: i64)
        ensures
            r == self.raw,
    {
        self.raw
    }

    /// The scalar for the whole number `n`.
    pub fn from_int(n: i64) -> (r: Scalar)
        ensures
            r == Scalar::spec_from_int(n as int),
    {
        assert(-0x8000_0000_0000_0000 * 1_000_000_000_000 <= n * SCALE <= 0x8000_0000_0000_0000
            * 1_000_000_000_000) by (nonlinear_arith)
            requires
                -0x8000_0000_0000_0000 <= n <= 0x8000_0000_0000_0000,
                SCALE == 1_000_000_000_000,
        ;
        let wide: i128 = (n as i128) * (SCALE as i128);
        clamp_wide(wide)
    }

    /// Zero.
    pub fn zero() -> (r: Scalar)
        ensures
            r.raw == 0,
    {
        Scalar { raw: 0 }
    }

    /// `self + other`.
    pub fn add(self, other: Scalar) -> (r: Scalar)
        ensures
            r == self.spec_add(other),
    {
        clamp_wide(self.raw as i128 + other.raw as i128)
    }

    /// `self - other`.
    pub fn sub(self, other: Scalar) -> (r: Scalar)
        ensures
            r == self.spec_sub(other),
    {
        clamp_wide(self.raw as i128 - other.raw as i128)
    }

    /// `-self`.
    pub fn neg(self) -> (r: Scalar)
        ensures
            r == self.spec_neg(),
    {
        clamp_wide(-(self.raw as i128))
    }

    /// `|self|`.
    pub fn abs(self) -> (r: Scalar)
        ensures
            r == self.spec_abs(),
    {
        with_sign(false, magnitude_of(self.raw))
    }

    /// `self * other`.
    pub fn mul(self, other: Scalar) -> (r: Scalar)
        ensures
            r == self.spec_mul(other),
    {
        let a: u128 = magnitude_of(self.raw);
        let b: u128 = magnitude_of(other.raw);
        let negative = (self.raw < 0) != (other.raw < 0);
        proof {
            lemma_magnitude_of_product(self.raw as int, other.raw as int);
            assert(a * b <= 0x4000_0000_0000_0000_0000_0000_0000_0000) by (nonlinear_arith)
                requires
                    a <= 0x8000_0000_0000_0000,
                    b <= 0x8000_0000_0000_0000,
            ;
        }
        let q: u128 = (a * b) / (SCALE as u128);
        proof {
            if self.raw * other.raw == 0 {
                assert(a * b == 0);
                assert(q == 0);
            }
        }
        with_sign(negative, q)
    }

    /// `self / other`, or zero when `other` is zero.
    pub fn div(self, other: Scalar) -> (r: Scalar)
        ensures
            r == self.spec_div(other),
    {
        if other.raw == 0 {
            return Scalar { raw: 0 };
        }
        let a: u128 = magnitude_of(self.raw);
        let b: u128 = magnitude_of(other.raw);
        let negative = (self.raw < 0) != (other.raw < 0);
        proof {
            lemma_magnitude_of_product(self.raw as int, SCALE as int);
            assert(a * (SCALE as u128) <= 0x8000_0000_0000_0000 * 1_000_000_000_000) by (nonlinear_arith)
                requires
                    a <= 0x8000_0000_0000_0000,
                    SCALE == 1_000_000_000_000,
            ;
        }
        let q: u128 = (a * (SCALE as u128)) / b;
        proof {
            if self.raw == 0 {
                assert(a * (SCALE as u128) == 0);
                assert(q == 0);
            }
        }
        with_sign(negative, q)
    }

    /// The scalar for the fraction `n / d`, or zero when `d` is zero.
    pub fn from_ratio(n: usize, d: usize) -> (r: Scalar)
        ensures
            r == Scalar::spec_from_ratio(n as nat, d as nat),
    {
        if d == 0 {
            return Scalar { raw: 0 };
        }
        assert(0 <= n * SCALE <= 0xffff_ffff_ffff_ffff * 1_000_000_000_000) by (nonlinear_arith)
            requires
                0 <= n <= 0xffff_ffff_ffff_ffff,
                SCALE == 1_000_000_000_000,
        ;
        let q: u128 = ((n as u128) * (SCALE as u128)) / (d as u128);
        with_sign(false, q)
    }

    /// Whether `self` is less than `other`.
    pub fn lt(self, other: Scalar) -> (r: bool)
        ensures
            r == (self.raw < other.raw),
    {
        self.raw < other.raw
    }

    /// Whether `self` is greater than `other`.
    pub fn gt(self, other: Scalar) -> (r: bool)
        ensures
            r == (self.raw > other.raw),
    {
        self.raw > other.raw
    }

    /// Whether `self` is zero.
    pub fn is_zero(self) -> (r: bool)
        ensures
            r == (self.raw == 0),
    {
        self.raw == 0
    }
}

impl Scalar {
    /// Whether the negation of `self` is exact: `self` is not below
    /// `-RAW_MAX`. Every result of an operation is.
    pub open spec fn is_symmetric(self) -> bool {
        self.raw >= -RAW_MAX
    }
}

/// Holding a number inside the range commutes with negation.
pub proof fn lemma_saturate_negation(x: int)
    ensures
        saturate(-x) == -saturate(x),
        -RAW_MAX <= saturate(x) <= RAW_MAX,
{
}

/// Negating one factor negates the product.
pub proof fn lemma_mul_negation(a: Scalar, b: Scalar)
    requires
        a.is_symmetric(),
    ensures
        a.spec_neg().spec_mul(b) == a.spec_mul(b).spec_neg(),
        b.spec_mul(a.spec_neg()) == b.spec_mul(a).spec_neg(),
        a.spec_mul(b).is_symmetric(),
{
    let n = a.raw * b.raw;
    assert((-a.raw) * b.raw == -n) by (nonlinear_arith)
        requires
            n == a.raw * b.raw,
    ;
    assert(b.raw * (-a.raw) == -n) by (nonlinear_arith)
        requires
            n == a.raw * b.raw,
    ;
    assert(b.raw * a.raw == n) by (nonlinear_arith)
        requires
            n == a.raw * b.raw,
    ;
    lemma_quotient_negation(n, SCALE as int);
    lemma_saturate_negation(quotient_toward_zero(n, SCALE as int));
}

/// Negating the dividend negates the quotient.
pub proof fn lemma_div_negation(a: Scalar, b: Scalar)
    requires
        a.is_symmetric(),
    ensures
        a.spec_neg().spec_div(b) == a.spec_div(b).spec_neg(),
        a.spec_div(b).is_symmetric(),
{
    let n = a.raw * SCALE;
    assert((-a.raw) * SCALE == -n) by (nonlinear_arith)
        requires
            n == a.raw * SCALE,
    ;
    lemma_quotient_negation(n, b.raw as int);
    lemma_saturate_negation(quotient_toward_zero(n, b.raw as int));
}

/// The sum of two negations is the negation of the sum.
pub proof fn lemma_add_negation(a: Scalar, b: Scalar)
    requires
        a.is_symmetric(),
        b.is_symmetric(),
    ensures
        a.spec_neg().spec_add(b.spec_neg()) == a.spec_add(b).spec_neg(),
        a.spec_add(b).is_symmetric(),
{
}

/// A number and its negation have the same absolute value.
pub proof fn lemma_abs_negation(a: Scalar)
    requires
        a.is_symmetric(),
    ensures
        a.spec_neg().spec_abs() == a.spec_abs(),
{
}

/// Adding zero changes nothing.
pub proof fn lemma_add_zero(a: Scalar)
    requires
        a.is_symmetric(),
    ensures
        a.spec_add(Scalar { raw: 0 }) == a,
        (Scalar { raw: 0 }).spec_add(a) == a,
{
}

/// Zero times anything, and zero divided by anything, is zero.
pub proof fn lemma_zero_absorbs(a: Scalar)
    ensures
        (Scalar { raw: 0 }).spec_mul(a).raw == 0,
        a.spec_mul(Scalar { raw: 0 }).raw == 0,
        (Scalar { raw: 0 }).spec_div(a).raw == 0,
        a.spec_div(Scalar { raw: 0 }).raw == 0,
{
    assert(0 * a.raw == 0) by (nonlinear_arith);
    assert(a.raw * 0 == 0) by (nonlinear_arith);
    assert(0 * SCALE == 0) by (nonlinear_arith);
    assert(0int / (SCALE as int) == 0) by (nonlinear_arith)
        requires
            SCALE == 1_000_000_000_000,
    ;
    if a.raw != 0 {
        assert(0int / magnitude(a.raw as int) == 0) by (nonlinear_arith)
            requires
                magnitude(a.raw as int) > 0,
        ;
    }
}

/// A quotient that is rounded toward zero has the sign of the dividend and
/// differs from the true quotient by less than one.
pub proof fn lemma_quotient_bounds(v: int, n: int)
    requires
        0 < n,
    ensures
        v >= 0 ==> v - n < n * quotient_toward_zero(v, n) <= v,
        v <= 0 ==> v <= n * quotient_toward_zero(v, n) < v + n,
        magnitude(quotient_toward_zero(v, n)) <= magnitude(v),
{
    let m = magnitude(v);
    vstd::arithmetic::div_mod::lemma_fundamental_div_mod(m, n);
    vstd::arithmetic::div_mod::lemma_mod_bound(m, n);
    let q = m / n;
    assert(n * q <= m < n * q + n);
    assert(0 <= q <= m) by (nonlinear_arith)
        requires
            n * q <= m,
            m < n * q + n,
            0 < n,
            0 <= m,
    ;
    assert(n * (-q) == -(n * q)) by (nonlinear_arith);
}

/// A division by a whole number divides the raw count, rounded toward zero:
/// the quotient is no larger than the dividend, has its sign, and differs
/// from the true quotient by less than one step.
pub proof fn lemma_div_by_whole(a: Scalar, n: int)
    requires
        0 < n <= 1_000_000,
        a.is_symmetric(),
    ensures
        a.spec_div(Scalar::spec_from_int(n)).raw == quotient_toward_zero(a.raw as int, n),
        magnitude(quotient_toward_zero(a.raw as int, n)) <= magnitude(a.raw as int),
        a.raw >= 0 ==> a.raw - n < n * quotient_toward_zero(a.raw as int, n) <= a.raw,
        a.raw <= 0 ==> a.raw <= n * quotient_toward_zero(a.raw as int, n) < a.raw + n,
        a.spec_div(Scalar::spec_from_int(n)).is_symmetric(),
{
    let m = magnitude(a.raw as int);
    let d = n * SCALE;
    assert(0 < d <= 1_000_000 * 1_000_000_000_000) by (nonlinear_arith)
        requires
            0 < n <= 1_000_000,
            d == n * SCALE,
            SCALE == 1_000_000_000_000,
    ;
    assert(Scalar::spec_from_int(n).raw == d);
    vstd::arithmetic::div_mod::lemma_div_multiples_vanish_quotient(SCALE as int, m, n);
    assert(SCALE * m == m * SCALE) by (nonlinear_arith);
    assert(SCALE * n == d) by (nonlinear_arith)
        requires
            d == n * SCALE,
    ;
    lemma_magnitude_of_product(a.raw as int, SCALE as int);
    assert(magnitude(a.raw * SCALE) == m * SCALE);
    assert((m * SCALE) / d == m / n);
    vstd::arithmetic::div_mod::lemma_fundamental_div_mod(m, n);
    vstd::arithmetic::div_mod::lemma_mod_bound(m, n);
    let q = m / n;
    assert(n * q <= m < n * q + n);
    assert(0 <= q <= m) by (nonlinear_arith)
        requires
            n * q <= m,
            m < n * q + n,
            0 < n,
            0 <= m,
    ;
    if a.raw == 0 {
        assert(a.raw * SCALE == 0) by (nonlinear_arith)
            requires
                a.raw == 0,
        ;
    } else if a.raw > 0 {
        assert(a.raw * SCALE > 0) by (nonlinear_arith)
            requires
                a.raw > 0,
                SCALE == 1_000_000_000_000,
        ;
    } else {
        assert(a.raw * SCALE < 0) by (nonlinear_arith)
            requires
                a.raw < 0,
                SCALE == 1_000_000_000_000,
        ;
        assert(n * (-q) == -(n * q)) by (nonlinear_arith);
    }
    assert(quotient_toward_zero(a.raw * SCALE, d) == quotient_toward_zero(a.raw as int, n));
    assert(saturate(quotient_toward_zero(a.raw as int, n)) == quotient_toward_zero(
        a.raw as int,
        n,
    ));
}

/// The product of two scalars that are not negative is the whole number of
/// steps `r` for which `r` steps do not exceed the product and `r + 1` do.
pub proof fn lemma_mul_value(a: Scalar, b: Scalar, r: int)
    requires
        0 <= r <= RAW_MAX,
        0 <= a.raw * b.raw - r * SCALE < SCALE,
    ensures
        a.spec_mul(b).raw == r,
{
    let product = a.raw * b.raw;
    assert(r * SCALE >= 0) by (nonlinear_arith)
        requires
            r >= 0,
            SCALE == 1_000_000_000_000,
    ;
    assert(product == SCALE * r + (product - r * SCALE)) by (nonlinear_arith);
    vstd::arithmetic::div_mod::lemma_fundamental_div_mod_converse(
        product,
        SCALE as int,
        r,
        product - r * SCALE,
    );
}

/// The quotient of a scalar that is not negative by a positive one is the
/// whole number of steps `r` for which `r` times the divisor does not exceed
/// the dividend and `r + 1` times does.
pub proof fn lemma_div_value(a: Scalar, b: Scalar, r: int)
    requires
        0 <= r <= RAW_MAX,
        0 < b.raw,
        0 <= a.raw * SCALE - r * b.raw < b.raw,
    ensures
        a.spec_div(b).raw == r,
{
    let numerator = a.raw * SCALE;
    assert(r * b.raw >= 0) by (nonlinear_arith)
        requires
            r >= 0,
            b.raw > 0,
    ;
    assert(numerator == b.raw * r + (numerator - r * b.raw)) by (nonlinear_arith);
    vstd::arithmetic::div_mod::lemma_fundamental_div_mod_converse(
        numerator,
        b.raw as int,
        r,
        numerator - r * b.raw,
    );
}

/// The scalar for a whole number of moderate size counts that many millions
/// of millions.
pub proof fn lemma_from_int_value(n: int)
    requires
        -9_000_000 <= n <= 9_000_000,
    ensures
        Scalar::spec_from_int(n).raw == n * 1_000_000_000_000,
{
    assert(n * SCALE == n * 1_000_000_000_000) by (nonlinear_arith)
        requires
            SCALE == 1_000_000_000_000,
    ;
}

} // verus!
