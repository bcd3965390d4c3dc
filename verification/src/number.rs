//! Numbers in the IEEE-754 binary32 format, held as their 32-bit patterns.
//!
//! Bit 31 is the sign, bits 30..23 the exponent and bits 22..0 the fraction.
//! Everything that can be said of a number without doing arithmetic on it is
//! said here over the bit pattern alone: whether it is a NaN, whether two
//! numbers are equal, and how two numbers are ordered.

use core::cmp::Ordering;
use vstd::prelude::*;
use vstd::std_specs::cmp::{PartialEqSpecImpl, PartialOrdSpecImpl};

verus! {

/// A number in the IEEE-754 binary32 format.
#[derive(Clone, Copy, Debug)]
pub struct Number {
    /// The bit pattern of the number.
    pub bits: u32,
}

/// The sign bit of a pattern.
pub const SIGN_BIT: u32 = 0x8000_0000;

/// The pattern of positive infinity; every larger magnitude is a NaN.
pub const INFINITY_BITS: u32 = 0x7f80_0000;

impl Number {
    /// Whether the sign bit is set.
    pub open spec fn is_negative(self) -> bool {
        self.bits >= SIGN_BIT
    }

    /// The bit pattern with the sign bit cleared.
    pub open spec fn magnitude(self) -> int {
        if self.bits >= SIGN_BIT {
            self.bits - SIGN_BIT
        } else {
            self.bits as int
        }
    }

    /// Whether the number is a NaN: all exponent bits set and a fraction
    /// that is not zero.
    pub open spec fn is_nan(self) -> bool {
        self.magnitude() > INFINITY_BITS
    }

    /// Where the number stands among all numbers that are not NaN.
    ///
    /// Both zeros stand at 0; a positive number stands at its magnitude and
    /// a negative one at the negation of its magnitude. Of two numbers that
    /// are not NaN, the smaller one has the smaller rank.
    pub open spec fn rank(self) -> int {
        if self.is_negative() {
            -self.magnitude()
        } else {
            self.magnitude()
        }
    }

    /// Equality of numbers: a NaN equals nothing, not even itself, and the
    /// two zeros are equal.
    pub open spec fn same(self, other: Number) -> bool {
        !self.is_nan() && !other.is_nan() && self.rank() == other.rank()
    }

    /// How the number stands to another: not at all where one of them is a
    /// NaN, else as their ranks do.
    pub open spec fn order(self, other: Number) -> Option<Ordering> {
        if self.is_nan() || other.is_nan() {
            None
        } else if self.rank() < other.rank() {
            Some(Ordering::Less)
        } else if self.rank() == other.rank() {
            Some(Ordering::Equal)
        } else {
            Some(Ordering::Greater)
        }
    }

    /// The number with the sign bit flipped.
    pub open spec fn negated(self) -> Number {
        if self.bits >= SIGN_BIT {
            Number { bits: (self.bits - SIGN_BIT) as u32 }
        } else {
            Number { bits: (self.bits + SIGN_BIT) as u32 }
        }
    }

    /// Positive zero.
    pub open spec fn zero() -> Number {
        Number { bits: 0 }
    }

    /// The number with the given bit pattern.
    pub fn from_bits(bits: u32) -> (n: Number)
        ensures
            n.bits == bits,
    {
        Number { bits }
    }

    /// The bit pattern of the number.
    pub fn to_bits(self) -> (bits: u32)
        ensures
            bits == self.bits,
    {
        self.bits
    }

    /// Whether the number is a NaN.
    pub fn nan(&self) -> (r: bool)
        ensures
            r == self.is_nan(),
    {
        let magnitude: u32 = if self.bits >= SIGN_BIT {
            self.bits - SIGN_BIT
        } else {
            self.bits
        };
        magnitude > INFINITY_BITS
    }

    /// Flips the sign. This is exact for every number, a NaN included.
    pub fn neg(self) -> (n: Number)
        ensures
            n == self.negated(),
    {
        if self.bits >= SIGN_BIT {
            Number { bits: self.bits - SIGN_BIT }
        } else {
            Number { bits: self.bits + SIGN_BIT }
        }
    }

    /// The number of steps from negative infinity: a number that orders all
    /// numbers that are not NaN as an unsigned integer.
    fn position(&self) -> (p: u32)
        requires
            !self.is_nan(),
        ensures
            p == self.rank() + INFINITY_BITS,
    {
        if self.bits >= SIGN_BIT {
            INFINITY_BITS - (self.bits - SIGN_BIT)
        } else {
            INFINITY_BITS + self.bits
        }
    }
}

impl Default for Number {
    fn default() -> (n: Number)
        ensures
            n == Number::zero(),
    {
        Number { bits: 0 }
    }
}

impl PartialEq for Number {
    fn eq(&self, other: &Number) -> (r: bool) {
        if self.nan() || other.nan() {
            false
        } else {
            self.position() == other.position()
        }
    }
}

impl PartialEqSpecImpl for Number {
    open spec fn obeys_eq_spec() -> bool {
        true
    }

    open spec fn eq_spec(&self, other: &Number) -> bool {
        self.same(*other)
    }
}

impl PartialOrd for Number {
    fn partial_cmp(&self, other: &Number) -> (r: Option<Ordering>) {
        if self.nan() || other.nan() {
            None
        } else {
            let p = self.position();
            let q = other.position();
            if p < q {
                Some(Ordering::Less)
            } else if p == q {
                Some(Ordering::Equal)
            } else {
                Some(Ordering::Greater)
            }
        }
    }
}

impl PartialOrdSpecImpl for Number {
    open spec fn obeys_partial_cmp_spec() -> bool {
        true
    }

    open spec fn partial_cmp_spec(&self, other: &Number) -> Option<Ordering> {
        self.order(*other)
    }
}

} // verus!
