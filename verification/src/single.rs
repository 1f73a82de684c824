//! Single-precision numbers as their bit patterns. Order, sign and the
//! special values are decided on the bits alone, with the meaning that
//! IEEE 754 gives them; no arithmetic is done here.

use vstd::prelude::*;

verus! {

/// The bit that holds the sign.
pub const SIGN_BIT: u32 = 0x8000_0000;

/// The bits of positive infinity. Every larger magnitude is not a number.
pub const INFINITY_BITS: u32 = 0x7f80_0000;

/// The bits of 1.
pub const ONE_BITS: u32 = 0x3f80_0000;

/// The bits of -1.
pub const MINUS_ONE_BITS: u32 = 0xbf80_0000;

/// The bits of 0.00001, the speed under which the wheel counts as standing.
pub const STILL_BITS: u32 = 0x3727_c5ac;

/// A single-precision number, held as its 32 bits. Two of them are equal
/// when their bits are: 0 and -0 differ, and a NaN equals itself.
#[derive(Clone, Copy, Debug, PartialEq, Eq, Structural)]
pub struct Single {
    /// The bits, as `to_bits` gives them.
    pub bits: u32,
}

impl Single {
    /// The number with these bits.
    pub open spec fn of(bits: u32) -> Single {
        Single { bits }
    }

    /// The bits without the sign.
    pub open spec fn magnitude(self) -> int {
        if self.bits >= SIGN_BIT {
            self.bits - SIGN_BIT
        } else {
            self.bits as int
        }
    }

    /// Whether the sign bit is set.
    pub open spec fn negative(self) -> bool {
        self.bits >= SIGN_BIT
    }

    /// Whether this is not a number.
    pub open spec fn nan(self) -> bool {
        self.magnitude() > INFINITY_BITS
    }

    /// Whether this is an infinity.
    pub open spec fn infinite(self) -> bool {
        self.magnitude() == INFINITY_BITS
    }

    /// Where a number stands among the numbers: the larger the number, the
    /// larger its rank, and 0 and -0 share rank 0. Means nothing of a NaN.
    pub open spec fn rank(self) -> int {
        if self.negative() {
            -self.magnitude()
        } else {
            self.magnitude()
        }
    }

    /// `self < other`, which is false as soon as either is a NaN.
    pub open spec fn below(self, other: Single) -> bool {
        !self.nan() && !other.nan() && self.rank() < other.rank()
    }

    /// `self <= other`, which is false as soon as either is a NaN.
    pub open spec fn at_most(self, other: Single) -> bool {
        !self.nan() && !other.nan() && self.rank() <= other.rank()
    }

    /// The number with the other sign.
    pub open spec fn negated(self) -> Single {
        if self.bits >= SIGN_BIT {
            Single { bits: (self.bits - SIGN_BIT) as u32 }
        } else {
            Single { bits: (self.bits + SIGN_BIT) as u32 }
        }
    }

    /// The number without its sign.
    pub open spec fn absolute(self) -> Single {
        Single { bits: self.magnitude() as u32 }
    }

    /// The number, or 0 in place of a NaN or an infinity.
    pub open spec fn settled(self) -> Single {
        if self.nan() || self.infinite() {
            Single::of(0)
        } else {
            self
        }
    }

    /// The number, or 0 in place of one closer to 0 than 0.00001.
    pub open spec fn stilled(self) -> Single {
        if self.absolute().below(Single::of(STILL_BITS)) {
            Single::of(0)
        } else {
            self
        }
    }

    /// The number brought into `low..=high`: `low` if it is below `low`,
    /// else `high` if it is above `high`, else itself. A NaN stays.
    pub open spec fn clamped(self, low: Single, high: Single) -> Single {
        if self.below(low) {
            low
        } else if high.below(self) {
            high
        } else {
            self
        }
    }

    /// The smaller of two numbers. Next to a NaN it is the other one, and
    /// of two that are equal it is the first.
    pub open spec fn lesser(self, other: Single) -> Single {
        if other.below(self) || self.nan() {
            other
        } else {
            self
        }
    }

    /// Whether the number lies in `-bound..=bound`.
    pub open spec fn within(self, bound: Single) -> bool {
        self.absolute().at_most(bound)
    }

    /// The number with these bits.
    pub fn from_bits(bits: u32) -> (r: Single)
        ensures
            r == Single::of(bits),
    {
        Single { bits }
    }

    /// The bits of the number.
    pub fn to_bits(self) -> (r: u32)
        ensures
            r == self.bits,
    {
        self.bits
    }

    /// Zero.
    pub fn zero() -> (r: Single)
        ensures
            r == Single::of(0),
    {
        Single::from_bits(0)
    }

    /// One.
    pub fn one() -> (r: Single)
        ensures
            r == Single::of(ONE_BITS),
    {
        Single::from_bits(ONE_BITS)
    }

    /// Minus one.
    pub fn minus_one() -> (r: Single)
        ensures
            r == Single::of(MINUS_ONE_BITS),
    {
        Single::from_bits(MINUS_ONE_BITS)
    }

    fn magnitude_bits(self) -> (r: u32)
        ensures
            r == self.magnitude(),
    {
        if self.bits >= SIGN_BIT {
            self.bits - SIGN_BIT
        } else {
            self.bits
        }
    }

    /// Whether this is not a number.
    pub fn is_nan(self) -> (r: bool)
        ensures
            r == self.nan(),
    {
        self.magnitude_bits() > INFINITY_BITS
    }

    /// Whether this is an infinity.
    pub fn is_infinite(self) -> (r: bool)
        ensures
            r == self.infinite(),
    {
        self.magnitude_bits() == INFINITY_BITS
    }

    /// `self < other`.
    pub fn lt(self, other: Single) -> (r: bool)
        ensures
            r == self.below(other),
    {
        if self.is_nan() || other.is_nan() {
            return false;
        }
        let a: u32 = self.magnitude_bits();
        let b: u32 = other.magnitude_bits();
        if self.bits >= SIGN_BIT {
            if other.bits >= SIGN_BIT {
                a > b
            } else {
                a > 0 || b > 0
            }
        } else {
            if other.bits >= SIGN_BIT {
                false
            } else {
                a < b
            }
        }
    }

    /// `self <= other`.
    pub fn le(self, other: Single) -> (r: bool)
        ensures
            r == self.at_most(other),
    {
        if self.is_nan() || other.is_nan() {
            return false;
        }
        !other.lt(self)
    }

    /// The number with the other sign.
    pub fn neg(self) -> (r: Single)
        ensures
            r == self.negated(),
    {
        if self.bits >= SIGN_BIT {
            Single { bits: self.bits - SIGN_BIT }
        } else {
            Single { bits: self.bits + SIGN_BIT }
        }
    }

    /// The number without its sign.
    pub fn abs(self) -> (r: Single)
        ensures
            r == self.absolute(),
    {
        Single { bits: self.magnitude_bits() }
    }

    /// The number, or 0 in place of a NaN or an infinity.
    pub fn settle(self) -> (r: Single)
        ensures
            r == self.settled(),
    {
        if self.is_nan() || self.is_infinite() {
            Single::from_bits(0)
        } else {
            self
        }
    }

    /// The number, or 0 in place of one closer to 0 than 0.00001.
    pub fn still(self) -> (r: Single)
        ensures
            r == self.stilled(),
    {
        if self.abs().lt(Single::from_bits(STILL_BITS)) {
            Single::from_bits(0)
        } else {
            self
        }
    }

    /// The smaller of two numbers; next to a NaN, the other one.
    pub fn min(self, other: Single) -> (r: Single)
        ensures
            r == self.lesser(other),
    {
        if other.lt(self) || self.is_nan() {
            other
        } else {
            self
        }
    }

    /// The number brought into `low..=high`.
    pub fn clamp(self, low: Single, high: Single) -> (r: Single)
        ensures
            r == self.clamped(low, high),
    {
        if self.lt(low) {
            low
        } else if high.lt(self) {
            high
        } else {
            self
        }
    }
}

/// The number brought into `-max_d..=max_d`: `-max_d` if it is below that,
/// else `max_d` if it is above that, else itself.
pub open spec fn clamped_symmetric(max_d: Single, v: Single) -> Single {
    v.clamped(max_d.negated(), max_d)
}

/// Clamp `v` within `-max_d..=max_d`.
pub fn clamp_symmetric(max_d: Single, v: Single) -> (r: Single)
    ensures
        r == clamped_symmetric(max_d, v),
{
    v.clamp(max_d.neg(), max_d)
}

/// Negating twice gives the number back, bit for bit, and negating turns
/// the rank around.
pub proof fn lemma_negation(v: Single)
    ensures
        v.negated().negated() == v,
        v.negated().rank() == -v.rank(),
        v.negated().nan() == v.nan(),
        v.negated().absolute() == v.absolute(),
{
}

/// Among numbers, `<` and `<=` are the strict and the weak side of one
/// total order; with a NaN on either side both are false.
pub proof fn lemma_order(a: Single, b: Single)
    ensures
        !a.nan() && !b.nan() ==> (a.below(b) || b.at_most(a)),
        !(a.below(b) && b.at_most(a)),
        a.at_most(b) <==> a.below(b) || (!a.nan() && !b.nan() && a.rank() == b.rank()),
        a.nan() || b.nan() ==> !a.below(b) && !a.at_most(b),
{
}

/// A number clamped to a bound that is a number and not negative lies
/// within the bound. It is the number itself if that lay within already.
pub proof fn lemma_clamp_is_within(max_d: Single, v: Single)
    requires
        !max_d.nan(),
        max_d.rank() >= 0,
        !v.nan(),
    ensures
        clamped_symmetric(max_d, v).within(max_d),
        !clamped_symmetric(max_d, v).nan(),
        v.within(max_d) ==> clamped_symmetric(max_d, v) == v,
        clamped_symmetric(max_d, clamped_symmetric(max_d, v)) == clamped_symmetric(max_d, v),
{
}

/// A number clamped between two numbers in order lies between them.
pub proof fn lemma_clamp_is_between(v: Single, low: Single, high: Single)
    requires
        low.at_most(high),
        !v.nan(),
    ensures
        low.at_most(v.clamped(low, high)),
        v.clamped(low, high).at_most(high),
{
}

/// The smaller of two numbers is one of them and at most either. It is the
/// first while that is below the second, and stands as high as the second
/// from there on.
pub proof fn lemma_lesser(a: Single, b: Single)
    requires
        !a.nan(),
        !b.nan(),
    ensures
        a.lesser(b) == a || a.lesser(b) == b,
        a.lesser(b).at_most(a),
        a.lesser(b).at_most(b),
        a.below(b) ==> a.lesser(b) == a,
        b.at_most(a) ==> a.lesser(b).rank() == b.rank(),
{
}

/// What is settled is a finite number, and a finite number is settled
/// already.
pub proof fn lemma_settled_is_finite(v: Single)
    ensures
        !v.settled().nan(),
        !v.settled().infinite(),
        !v.nan() && !v.infinite() ==> v.settled() == v,
{
}

/// What is stilled is exactly 0 or at least 0.00001 away from 0, and
/// stilling it again changes nothing.
pub proof fn lemma_stilled(v: Single)
    ensures
        v.stilled().bits == 0 || !v.stilled().absolute().below(Single::of(STILL_BITS)),
        v.stilled().stilled() == v.stilled(),
        v.absolute().below(Single::of(STILL_BITS)) ==> v.stilled().bits == 0,
{
}

} // verus!
