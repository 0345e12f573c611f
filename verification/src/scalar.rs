//! Real quantities as the renderer's decisions see them.
//!
//! A [`Scalar`] is a binary64 datum held by its bit pattern. This library never
//! does arithmetic on one: it orders scalars, negates them and picks among
//! them, and leaves every sum, product and root to its caller. The order is the
//! numeric one: the pattern is read as a sign and a magnitude, so both zeros
//! compare equal and a larger magnitude lies further from zero. Patterns
//! beyond the infinities are no numbers, and a comparison with one of them is
//! false whichever way it is asked, as it is on the machine.
use vstd::prelude::*;

verus! {

/// The sign bit of a pattern.
pub const SIGN_BIT: u64 = 0x8000_0000_0000_0000;

/// The pattern of one.
pub const ONE_BITS: u64 = 0x3FF0_0000_0000_0000;

/// The pattern of positive infinity, the greatest magnitude of a number.
pub const INFINITY_BITS: u64 = 0x7FF0_0000_0000_0000;

/// A real quantity, held by its binary64 bit pattern.
#[derive(Clone, Copy, Debug, PartialEq, Eq, Structural)]
pub struct Scalar {
    pub bits: u64,
}

impl View for Scalar {
    type V = int;

    /// The place of the scalar in the numeric order: its magnitude bits, taken
    /// negative when the sign bit is set.
    open spec fn view(&self) -> int {
        if self.bits < SIGN_BIT {
            self.bits as int
        } else {
            -((self.bits - SIGN_BIT) as int)
        }
    }
}

/// The scalar with the sign of `x` flipped.
pub open spec fn spec_neg(x: Scalar) -> Scalar {
    if x.bits < SIGN_BIT {
        Scalar { bits: (x.bits + SIGN_BIT) as u64 }
    } else {
        Scalar { bits: (x.bits - SIGN_BIT) as u64 }
    }
}

/// The scalar with the sign of `x` cleared.
pub open spec fn spec_abs(x: Scalar) -> Scalar {
    if x.bits < SIGN_BIT {
        x
    } else {
        Scalar { bits: (x.bits - SIGN_BIT) as u64 }
    }
}

/// Whether the pattern of `x` is that of a number, an infinity included.
pub open spec fn spec_is_number(x: Scalar) -> bool {
    spec_abs(x).bits <= INFINITY_BITS
}

/// Whether `a` is strictly below `b`. False where either is no number.
pub open spec fn spec_lt(a: Scalar, b: Scalar) -> bool {
    spec_is_number(a) && spec_is_number(b) && a@ < b@
}

/// Whether `a` is below or level with `b`. False where either is no number.
pub open spec fn spec_le(a: Scalar, b: Scalar) -> bool {
    spec_is_number(a) && spec_is_number(b) && a@ <= b@
}

/// Whether `a` is strictly above `b`. False where either is no number.
pub open spec fn spec_gt(a: Scalar, b: Scalar) -> bool {
    spec_lt(b, a)
}

/// Whether `a` and `b` are the same number. Both zeros are; what is no number
/// is not even the same as itself.
pub open spec fn spec_same(a: Scalar, b: Scalar) -> bool {
    spec_is_number(a) && spec_is_number(b) && a@ == b@
}

/// `x` held to the interval from `min` to `max`: `min` below it, `max` above it,
/// `x` itself inside. The lower bound is tested first. What is no number is
/// neither below nor above and stays as it is.
pub open spec fn spec_clamp(x: Scalar, min: Scalar, max: Scalar) -> Scalar {
    if spec_lt(x, min) {
        min
    } else if spec_gt(x, max) {
        max
    } else {
        x
    }
}

/// Whether `t` lies in the range from `low` to `high`, the ends included. What
/// is no number lies in no range.
pub open spec fn spec_within(t: Scalar, low: Scalar, high: Scalar) -> bool {
    spec_le(low, t) && spec_le(t, high)
}

/// The smaller of two scalars; `b` where `a` is not the smaller.
pub open spec fn spec_min(a: Scalar, b: Scalar) -> Scalar {
    if spec_lt(a, b) {
        a
    } else {
        b
    }
}

/// The larger of two scalars; `b` where `a` is not the larger.
pub open spec fn spec_max(a: Scalar, b: Scalar) -> Scalar {
    if spec_gt(a, b) {
        a
    } else {
        b
    }
}

impl Scalar {
    /// The scalar with the given bit pattern.
    pub fn from_bits(bits: u64) -> (r: Scalar)
        ensures
            r.bits == bits,
    {
        Scalar { bits }
    }

    /// The bit pattern of the scalar.
    pub fn to_bits(&self) -> (bits: u64)
        ensures
            bits == self.bits,
    {
        self.bits
    }

    /// Positive zero.
    pub fn zero() -> (r: Scalar)
        ensures
            r.bits == 0,
            r@ == 0,
    {
        Scalar { bits: 0 }
    }

    /// One.
    pub fn one() -> (r: Scalar)
        ensures
            r.bits == ONE_BITS,
            r@ == ONE_BITS,
    {
        Scalar { bits: ONE_BITS }
    }

    /// The place of the scalar in the numeric order, as a machine integer.
    pub fn order(&self) -> (k: i128)
        ensures
            k == self@,
    {
        if self.bits < SIGN_BIT {
            self.bits as i128
        } else {
            -((self.bits - SIGN_BIT) as i128)
        }
    }

    /// Whether the pattern is that of a number, an infinity included.
    pub fn is_number(&self) -> (r: bool)
        ensures
            r == spec_is_number(*self),
    {
        self.abs().bits <= INFINITY_BITS
    }

    /// Whether `self` is strictly below `other`.
    pub fn lt(&self, other: &Scalar) -> (r: bool)
        ensures
            r == spec_lt(*self, *other),
    {
        self.is_number() && other.is_number() && self.order() < other.order()
    }

    /// Whether `self` is below or level with `other`.
    pub fn le(&self, other: &Scalar) -> (r: bool)
        ensures
            r == spec_le(*self, *other),
    {
        self.is_number() && other.is_number() && self.order() <= other.order()
    }

    /// Whether `self` is strictly above `other`.
    pub fn gt(&self, other: &Scalar) -> (r: bool)
        ensures
            r == spec_gt(*self, *other),
    {
        other.lt(self)
    }

    /// Whether the two scalars are the same number. Both zeros are.
    pub fn same(&self, other: &Scalar) -> (r: bool)
        ensures
            r == spec_same(*self, *other),
    {
        self.is_number() && other.is_number() && self.order() == other.order()
    }

    /// Whether the scalar lies in the range from `low` to `high`, the ends included.
    pub fn within(&self, low: &Scalar, high: &Scalar) -> (r: bool)
        ensures
            r == spec_within(*self, *low, *high),
    {
        low.le(self) && self.le(high)
    }

    /// The scalar with its sign flipped.
    pub fn neg(&self) -> (r: Scalar)
        ensures
            r == spec_neg(*self),
            r@ == -self@,
    {
        if self.bits < SIGN_BIT {
            Scalar { bits: self.bits + SIGN_BIT }
        } else {
            Scalar { bits: self.bits - SIGN_BIT }
        }
    }

    /// The scalar with its sign cleared.
    pub fn abs(&self) -> (r: Scalar)
        ensures
            r == spec_abs(*self),
            r@ == if self@ < 0 { -self@ } else { self@ },
    {
        if self.bits < SIGN_BIT {
            *self
        } else {
            Scalar { bits: self.bits - SIGN_BIT }
        }
    }

    /// The smaller of the two; `other` where `self` is not the smaller.
    pub fn min(&self, other: &Scalar) -> (r: Scalar)
        ensures
            r == spec_min(*self, *other),
    {
        if self.lt(other) {
            *self
        } else {
            *other
        }
    }

    /// The larger of the two; `other` where `self` is not the larger.
    pub fn max(&self, other: &Scalar) -> (r: Scalar)
        ensures
            r == spec_max(*self, *other),
    {
        if self.gt(other) {
            *self
        } else {
            *other
        }
    }
}

/// Flipping a sign twice gives the scalar back, bit for bit.
pub proof fn neg_is_an_involution(x: Scalar)
    ensures
        spec_neg(spec_neg(x)) == x,
        spec_neg(x)@ == -x@,
{
}

/// Among numbers the comparisons are those of the numeric order: of two
/// numbers one is below the other or they are the same, and what is below a
/// number that is below a third is below the third.
pub proof fn numbers_are_in_order(a: Scalar, b: Scalar, c: Scalar)
    requires
        spec_is_number(a),
        spec_is_number(b),
        spec_is_number(c),
    ensures
        spec_lt(a, b) || spec_same(a, b) || spec_gt(a, b),
        spec_le(a, b) == (spec_lt(a, b) || spec_same(a, b)),
        spec_lt(a, b) && spec_lt(b, c) ==> spec_lt(a, c),
        spec_le(a, b) && spec_le(b, c) ==> spec_le(a, c),
        spec_is_number(spec_neg(a)),
        spec_lt(spec_neg(a), spec_neg(b)) == spec_gt(a, b),
{
}

} // verus!
