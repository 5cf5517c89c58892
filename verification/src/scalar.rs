//! Real-valued quantities as the library carries them.

use vstd::prelude::*;

verus! {

/// A real-valued quantity, held as the 64 bits of its binary64 encoding.
///
/// The library stores, copies and frames such values; it never computes
/// with them.
#[derive(Clone, Copy, Debug, PartialEq, Eq, Structural)]
pub struct Scalar {
    pub bits: u64,
}

impl Scalar {
    /// The scalar with the given encoding.
    pub fn from_bits(bits: u64) -> (r: Scalar)
        ensures
            r.bits == bits,
    {
        Scalar { bits }
    }

    /// The encoding of this scalar.
    pub fn to_bits(&self) -> (r: u64)
        ensures
            r == self.bits,
    {
        self.bits
    }
}

/// The encodings from this one on have the sign bit set: they stand for
/// negative quantities and for negative zero.
pub const SIGN_BIT: u64 = 0x8000_0000_0000_0000;

/// The encoding of positive infinity. An encoding whose magnitude is
/// above it stands for no quantity.
pub const INFINITY_BITS: u64 = 0x7FF0_0000_0000_0000;

/// The encoding of one.
pub const ONE_BITS: u64 = 0x3FF0_0000_0000_0000;

impl Scalar {
    /// The encoding without its sign bit.
    pub open spec fn magnitude(self) -> int {
        if self.bits >= SIGN_BIT {
            self.bits - SIGN_BIT
        } else {
            self.bits as int
        }
    }

    /// Whether the encoding stands for no quantity.
    pub open spec fn is_nan(self) -> bool {
        self.magnitude() > INFINITY_BITS
    }

    /// The place of the quantity on the number line: of two quantities
    /// the greater has the greater rank, and both zeros have rank 0.
    pub open spec fn rank(self) -> int {
        if self.bits >= SIGN_BIT {
            -self.magnitude()
        } else {
            self.magnitude()
        }
    }

    /// Whether this quantity is greater than the other. No order holds
    /// where either encoding stands for no quantity.
    pub open spec fn greater(self, other: Scalar) -> bool {
        !self.is_nan() && !other.is_nan() && self.rank() > other.rank()
    }

    /// Whether the quantity lies between zero and one, both included.
    pub open spec fn in_unit_range(self) -> bool {
        !self.is_nan() && 0 <= self.rank() <= ONE_BITS
    }

    /// The quantity brought into the range from zero to one: itself where
    /// it lies in the range, one where it is greater than one, and zero
    /// where it is less than zero or the encoding stands for no quantity.
    pub open spec fn clamped_to_unit(self) -> Scalar {
        if self.in_unit_range() {
            self
        } else if !self.is_nan() && self.rank() > ONE_BITS {
            Scalar { bits: ONE_BITS }
        } else {
            Scalar { bits: 0 }
        }
    }

    /// Brings the quantity into the range from zero to one.
    pub fn clamp_to_unit(self) -> (r: Scalar)
        ensures
            r == self.clamped_to_unit(),
            r.in_unit_range(),
    {
        if self.bits >= SIGN_BIT {
            if self.bits == SIGN_BIT {
                self
            } else {
                Scalar { bits: 0 }
            }
        } else if self.bits <= ONE_BITS {
            self
        } else if self.bits <= INFINITY_BITS {
            Scalar { bits: ONE_BITS }
        } else {
            Scalar { bits: 0 }
        }
    }

    /// Whether this quantity is greater than the other.
    pub fn greater_than(&self, other: &Scalar) -> (r: bool)
        ensures
            r == self.greater(*other),
    {
        let mine: u64 = if self.bits >= SIGN_BIT {
            self.bits - SIGN_BIT
        } else {
            self.bits
        };
        let theirs: u64 = if other.bits >= SIGN_BIT {
            other.bits - SIGN_BIT
        } else {
            other.bits
        };
        if mine > INFINITY_BITS || theirs > INFINITY_BITS {
            false
        } else if self.bits >= SIGN_BIT {
            other.bits >= SIGN_BIT && mine < theirs
        } else if other.bits >= SIGN_BIT {
            mine > 0 || theirs > 0
        } else {
            mine > theirs
        }
    }
}

} // verus!
