//! Two-dimensional vectors over fixed-point scalars.

use crate::scalar::{int_sqrt, lemma_add_negation, lemma_mul_negation, saturate, Scalar};
use vstd::prelude::*;

verus! {

/// A vector in the plane.
#[derive(Clone, Copy, Debug, PartialEq, Eq, Structural)]
pub struct NVec2 {
    pub x: Scalar,
    pub y: Scalar,
}

/// The sum of the vectors of `s`, added from the left, starting at zero.
pub open spec fn spec_sum(s: Seq<NVec2>) -> NVec2
    decreases s.len(),
{
    if s.len() == 0 {
        NVec2::spec_zeros()
    } else {
        spec_sum(s.drop_last()).spec_add(s.last())
    }
}

impl NVec2 {
    /// The zero vector.
    pub open spec fn spec_zeros() -> NVec2 {
        NVec2 { x: Scalar { raw: 0 }, y: Scalar { raw: 0 } }
    }

    /// The component-wise sum.
    pub open spec fn spec_add(self, other: NVec2) -> NVec2 {
        NVec2 { x: self.x.spec_add(other.x), y: self.y.spec_add(other.y) }
    }

    /// The component-wise difference.
    pub open spec fn spec_sub(self, other: NVec2) -> NVec2 {
        NVec2 { x: self.x.spec_sub(other.x), y: self.y.spec_sub(other.y) }
    }

    /// The opposite vector.
    pub open spec fn spec_neg(self) -> NVec2 {
        NVec2 { x: self.x.spec_neg(), y: self.y.spec_neg() }
    }

    /// Each component multiplied by `k`.
    pub open spec fn spec_scale(self, k: Scalar) -> NVec2 {
        NVec2 { x: self.x.spec_mul(k), y: self.y.spec_mul(k) }
    }

    /// Each component divided by `k`.
    pub open spec fn spec_unscale(self, k: Scalar) -> NVec2 {
        NVec2 { x: self.x.spec_div(k), y: self.y.spec_div(k) }
    }

    /// The dot product.
    pub open spec fn spec_dot(self, other: NVec2) -> Scalar {
        self.x.spec_mul(other.x).spec_add(self.y.spec_mul(other.y))
    }

    /// The Euclidean length, rounded down.
    pub open spec fn spec_norm(self) -> Scalar {
        Scalar {
            raw: saturate(int_sqrt((self.x.raw * self.x.raw + self.y.raw * self.y.raw) as nat) as int) as i64,
        }
    }

    /// The vector divided by its length; the zero vector when the length is zero.
    pub open spec fn spec_normalize(self) -> NVec2 {
        self.spec_unscale(self.spec_norm())
    }

    /// The vector with its components exchanged.
    pub open spec fn spec_yx(self) -> NVec2 {
        NVec2 { x: self.y, y: self.x }
    }

    /// The vector with the given components.
    pub fn new(x: Scalar, y: Scalar) -> (r: NVec2)
        ensures
            r == (NVec2 { x, y }),
    {
        NVec2 { x, y }
    }

    /// The zero vector.
    pub fn zeros() -> (r: NVec2)
        ensures
            r == NVec2::spec_zeros(),
    {
        NVec2 { x: Scalar::zero(), y: Scalar::zero() }
    }

    /// `self + other`.
    pub fn add(self, other: NVec2) -> (r: NVec2)
        ensures
            r == self.spec_add(other),
    {
        NVec2 { x: self.x.add(other.x), y: self.y.add(other.y) }
    }

    /// `self - other`.
    pub fn sub(self, other: NVec2) -> (r: NVec2)
        ensures
            r == self.spec_sub(other),
    {
        NVec2 { x: self.x.sub(other.x), y: self.y.sub(other.y) }
    }

    /// `-self`.
    pub fn neg(self) -> (r: NVec2)
        ensures
            r == self.spec_neg(),
    {
        NVec2 { x: self.x.neg(), y: self.y.neg() }
    }

    /// `self * k`.
    pub fn scale(self, k: Scalar) -> (r: NVec2)
        ensures
            r == self.spec_scale(k),
    {
        NVec2 { x: self.x.mul(k), y: self.y.mul(k) }
    }

    /// `self / k`, or the zero vector when `k` is zero.
    pub fn unscale(self, k: Scalar) -> (r: NVec2)
        ensures
            r == self.spec_unscale(k),
    {
        NVec2 { x: self.x.div(k), y: self.y.div(k) }
    }

    /// The dot product of `self` and `other`.
    pub fn dot(self, other: NVec2) -> (r: Scalar)
        ensures
            r == self.spec_dot(other),
    {
        self.x.mul(other.x).add(self.y.mul(other.y))
    }

    /// The length of `self`.
    pub fn norm(self) -> (r: Scalar)
        ensures
            r == self.spec_norm(),
    {
        let xx: u128 = square_of(self.x.raw);
        let yy: u128 = square_of(self.y.raw);
        let root: u64 = crate::scalar::integer_sqrt(xx + yy);
        if root > crate::scalar::RAW_MAX as u64 {
            Scalar { raw: crate::scalar::RAW_MAX }
        } else {
            Scalar { raw: root as i64 }
        }
    }

    /// The unit vector along `self`, or the zero vector when `self` has no length.
    pub fn normalize(self) -> (r: NVec2)
        ensures
            r == self.spec_normalize(),
    {
        self.unscale(self.norm())
    }

    /// The vector with its components exchanged.
    pub fn yx(self) -> (r: NVec2)
        ensures
            r == self.spec_yx(),
    {
        NVec2 { x: self.y, y: self.x }
    }
}

fn square_of(x: i64) -> (r: u128)
    ensures
        r == x * x,
        r <= 0x4000_0000_0000_0000_0000_0000_0000_0000,
{
    assert(0 <= x * x <= 0x4000_0000_0000_0000_0000_0000_0000_0000) by (nonlinear_arith)
        requires
            -0x8000_0000_0000_0000 <= x <= 0x8000_0000_0000_0000,
    ;
    let wide: i128 = x as i128;
    (wide * wide) as u128
}

/// The sum of the vectors of `list`, added from the left, starting at zero.
pub fn sum(list: &[NVec2]) -> (r: NVec2)
    ensures
        r == spec_sum(list@),
{
    let mut total = NVec2::zeros();
    let mut i: usize = 0;
    while i < list.len()
        invariant
            i <= list.len(),
            total == spec_sum(list@.take(i as int)),
        decreases list.len() - i,
    {
        proof {
            assert(list@.take(i + 1).drop_last() =~= list@.take(i as int));
        }
        total = total.add(list[i]);
        i = i + 1;
    }
    proof {
        assert(list@.take(i as int) =~= list@);
    }
    total
}

impl NVec2 {
    /// Whether both components can be negated exactly.
    pub open spec fn is_symmetric(self) -> bool {
        self.x.is_symmetric() && self.y.is_symmetric()
    }
}

/// Turning one vector round turns the dot product's sign.
pub proof fn lemma_dot_negation(t: NVec2, p: NVec2)
    requires
        p.is_symmetric(),
    ensures
        t.spec_dot(p.spec_neg()) == t.spec_dot(p).spec_neg(),
        t.spec_dot(p).is_symmetric(),
{
    lemma_mul_negation(p.x, t.x);
    lemma_mul_negation(p.y, t.y);
    lemma_mul_negation(t.x.spec_mul(p.x), Scalar { raw: 0 });
    lemma_mul_negation(t.y.spec_mul(p.y), Scalar { raw: 0 });
    lemma_add_negation(t.x.spec_mul(p.x), t.y.spec_mul(p.y));
}

} // verus!
