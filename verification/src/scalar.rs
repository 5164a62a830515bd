//! Real-valued quantities as this library sees them.
//!
//! The host computes with IEEE 754 binary32 numbers. The library never does:
//! it receives each number as its 32-bit interchange pattern and only asks
//! how two of them compare. Every comparison below is stated over [`Scalar::rank`],
//! an integer that orders the patterns exactly as their values are ordered.

use vstd::prelude::*;

verus! {

/// The bit that holds the sign of a pattern.
pub const SIGN_BIT: u32 = 0x8000_0000;

/// The pattern of positive infinity. Every larger magnitude is a NaN.
pub const INFINITY_BITS: u32 = 0x7F80_0000;

/// The pattern of positive zero.
pub const ZERO_BITS: u32 = 0;

/// The pattern of one half.
pub const HALF_BITS: u32 = 0x3F00_0000;

/// The pattern of one.
pub const ONE_BITS: u32 = 0x3F80_0000;

/// The pattern of minus one.
pub const MINUS_ONE_BITS: u32 = 0xBF80_0000;

/// A binary32 number, held as its bit pattern.
#[derive(Clone, Copy, Debug)]
pub struct Scalar {
    pub bits: u32,
}

impl Scalar {
    /// The pattern with its sign cleared.
    pub open spec fn magnitude(self) -> int {
        if self.bits >= SIGN_BIT {
            self.bits - SIGN_BIT
        } else {
            self.bits as int
        }
    }

    /// True when the sign bit is set.
    pub open spec fn sign(self) -> bool {
        self.bits >= SIGN_BIT
    }

    /// A NaN is any pattern whose magnitude lies above that of infinity.
    pub open spec fn nan(self) -> bool {
        self.magnitude() > INFINITY_BITS
    }

    /// The place of a number on the extended real line: for numbers that are
    /// not NaN, `a` is below `b` exactly when `a.rank() < b.rank()`. Both
    /// zeros have rank 0, the infinities have ranks `-INFINITY_BITS` and
    /// `INFINITY_BITS`.
    pub open spec fn rank(self) -> int {
        if self.sign() {
            -self.magnitude()
        } else {
            self.magnitude()
        }
    }

    /// `self < other`. A NaN is neither below nor above anything.
    pub open spec fn spec_lt(self, other: Scalar) -> bool {
        !self.nan() && !other.nan() && self.rank() < other.rank()
    }

    /// `self <= other`. A NaN is neither below nor above anything.
    pub open spec fn spec_le(self, other: Scalar) -> bool {
        !self.nan() && !other.nan() && self.rank() <= other.rank()
    }

    /// `self > 0`.
    pub open spec fn spec_is_positive(self) -> bool {
        !self.nan() && self.rank() > 0
    }

    /// `self < 0`.
    pub open spec fn spec_is_negative(self) -> bool {
        !self.nan() && self.rank() < 0
    }

    /// The smaller of two numbers. A NaN operand is ignored: the other
    /// operand is the result. Of two equal numbers the first is the result.
    pub open spec fn spec_min(self, other: Scalar) -> Scalar {
        if self.nan() {
            other
        } else if other.spec_lt(self) {
            other
        } else {
            self
        }
    }

    /// The larger of two numbers. A NaN operand is ignored: the other
    /// operand is the result. Of two equal numbers the first is the result.
    pub open spec fn spec_max(self, other: Scalar) -> Scalar {
        if self.nan() {
            other
        } else if self.spec_lt(other) {
            other
        } else {
            self
        }
    }

    /// The number without its sign.
    pub open spec fn spec_abs(self) -> Scalar {
        Scalar { bits: self.magnitude() as u32 }
    }

    /// `self` brought into `lo..=hi`: `lo` when below it, `hi` when above it,
    /// else `self` itself, which keeps a NaN a NaN.
    pub open spec fn spec_clamp(self, lo: Scalar, hi: Scalar) -> Scalar {
        if self.spec_lt(lo) {
            lo
        } else if hi.spec_lt(self) {
            hi
        } else {
            self
        }
    }

    /// The number with the given pattern.
    pub fn from_bits(bits: u32) -> (s: Scalar)
        ensures
            s.bits == bits,
    {
        Scalar { bits }
    }

    /// The pattern of the number.
    pub fn to_bits(self) -> (bits: u32)
        ensures
            bits == self.bits,
    {
        self.bits
    }

    /// Positive zero.
    pub fn zero() -> (s: Scalar)
        ensures
            s.bits == ZERO_BITS,
    {
        Scalar { bits: ZERO_BITS }
    }

    /// One half.
    pub fn half() -> (s: Scalar)
        ensures
            s.bits == HALF_BITS,
    {
        Scalar { bits: HALF_BITS }
    }

    /// One.
    pub fn one() -> (s: Scalar)
        ensures
            s.bits == ONE_BITS,
    {
        Scalar { bits: ONE_BITS }
    }

    /// Minus one.
    pub fn minus_one() -> (s: Scalar)
        ensures
            s.bits == MINUS_ONE_BITS,
    {
        Scalar { bits: MINUS_ONE_BITS }
    }

    /// Positive infinity.
    pub fn infinity() -> (s: Scalar)
        ensures
            s.bits == INFINITY_BITS,
    {
        Scalar { bits: INFINITY_BITS }
    }

    fn magnitude_bits(self) -> (m: u32)
        ensures
            m == self.magnitude(),
            m < SIGN_BIT,
    {
        if self.bits >= SIGN_BIT {
            self.bits - SIGN_BIT
        } else {
            self.bits
        }
    }

    fn rank_of(self) -> (k: i64)
        ensures
            k == self.rank(),
    {
        let m: i64 = self.magnitude_bits() as i64;
        if self.bits >= SIGN_BIT {
            -m
        } else {
            m
        }
    }

    /// True when the pattern is that of no number.
    #[verifier::when_used_as_spec(nan)]
    pub fn is_nan(self) -> (r: bool)
        ensures
            r == self.nan(),
    {
        self.magnitude_bits() > INFINITY_BITS
    }

    /// `self < other`, false when either is a NaN.
    #[verifier::when_used_as_spec(spec_lt)]
    pub fn lt(self, other: Scalar) -> (r: bool)
        ensures
            r == self.spec_lt(other),
    {
        !self.is_nan() && !other.is_nan() && self.rank_of() < other.rank_of()
    }

    /// `self <= other`, false when either is a NaN.
    #[verifier::when_used_as_spec(spec_le)]
    pub fn le(self, other: Scalar) -> (r: bool)
        ensures
            r == self.spec_le(other),
    {
        !self.is_nan() && !other.is_nan() && self.rank_of() <= other.rank_of()
    }

    /// `self > 0`. Neither zero is positive.
    #[verifier::when_used_as_spec(spec_is_positive)]
    pub fn is_positive(self) -> (r: bool)
        ensures
            r == self.spec_is_positive(),
    {
        !self.is_nan() && self.rank_of() > 0
    }

    /// `self < 0`. Neither zero is negative.
    #[verifier::when_used_as_spec(spec_is_negative)]
    pub fn is_negative(self) -> (r: bool)
        ensures
            r == self.spec_is_negative(),
    {
        !self.is_nan() && self.rank_of() < 0
    }

    /// The smaller of two numbers, a NaN operand being ignored.
    #[verifier::when_used_as_spec(spec_min)]
    pub fn min(self, other: Scalar) -> (m: Scalar)
        ensures
            m == self.spec_min(other),
    {
        if self.is_nan() {
            other
        } else if other.lt(self) {
            other
        } else {
            self
        }
    }

    /// The larger of two numbers, a NaN operand being ignored.
    #[verifier::when_used_as_spec(spec_max)]
    pub fn max(self, other: Scalar) -> (m: Scalar)
        ensures
            m == self.spec_max(other),
    {
        if self.is_nan() {
            other
        } else if self.lt(other) {
            other
        } else {
            self
        }
    }

    /// The number without its sign.
    #[verifier::when_used_as_spec(spec_abs)]
    pub fn abs(self) -> (a: Scalar)
        ensures
            a == self.spec_abs(),
    {
        Scalar { bits: self.magnitude_bits() }
    }

    /// Brings `self` into `lo..=hi`. The bounds must be numbers, in order.
    #[verifier::when_used_as_spec(spec_clamp)]
    pub fn clamp(self, lo: Scalar, hi: Scalar) -> (c: Scalar)
        requires
            lo.spec_le(hi),
        ensures
            c == self.spec_clamp(lo, hi),
    {
        if self.lt(lo) {
            lo
        } else if hi.lt(self) {
            hi
        } else {
            self
        }
    }
}

/// On numbers, `<` is a strict total order up to the sign of zero: it is
/// irreflexive and transitive, and two numbers of which neither is below the
/// other have the same rank.
pub proof fn lemma_order(a: Scalar, b: Scalar, c: Scalar)
    ensures
        !a.spec_lt(a),
        a.spec_lt(b) && b.spec_lt(c) ==> a.spec_lt(c),
        !a.nan() && !b.nan() ==> (a.spec_lt(b) || b.spec_lt(a) || a.rank() == b.rank()),
        a.spec_le(b) <==> (a.spec_lt(b) || (!a.nan() && !b.nan() && a.rank() == b.rank())),
        !a.nan() && !b.nan() && a.rank() == b.rank() ==> (a.bits == b.bits || a.magnitude()
            == 0),
{
}

/// The minimum and the maximum of two operands are always one of them; when
/// both are numbers, the minimum is below or equal to both and the maximum is
/// above or equal to both; the result is a NaN only when both operands are.
pub proof fn lemma_min_max(a: Scalar, b: Scalar)
    ensures
        a.spec_min(b).bits == a.bits || a.spec_min(b).bits == b.bits,
        a.spec_max(b).bits == a.bits || a.spec_max(b).bits == b.bits,
        a.spec_min(b).nan() <==> a.nan() && b.nan(),
        a.spec_max(b).nan() <==> a.nan() && b.nan(),
        !a.nan() && !b.nan() ==> a.spec_min(b).rank() <= a.rank() && a.spec_min(b).rank()
            <= b.rank(),
        !a.nan() && !b.nan() ==> a.spec_max(b).rank() >= a.rank() && a.spec_max(b).rank()
            >= b.rank(),
        !a.nan() && !b.nan() ==> a.spec_min(b).spec_le(a.spec_max(b)),
{
}

/// A clamped number lies between the bounds; only a NaN stays what it was.
pub proof fn lemma_clamp(x: Scalar, lo: Scalar, hi: Scalar)
    requires
        lo.spec_le(hi),
    ensures
        x.nan() <==> x.spec_clamp(lo, hi).nan(),
        !x.nan() ==> lo.spec_le(x.spec_clamp(lo, hi)) && x.spec_clamp(lo, hi).spec_le(hi),
        lo.spec_le(x) && x.spec_le(hi) ==> x.spec_clamp(lo, hi) == x,
{
}

} // verus!
