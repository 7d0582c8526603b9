use vstd::prelude::*;

verus! {

/// Bit of the X axis.
pub const X_BIT: u8 = 1;
/// Bit of the Y axis.
pub const Y_BIT: u8 = 2;
/// Bit of the Z axis.
pub const Z_BIT: u8 = 4;
/// Bit of the extruder axis.
pub const E_BIT: u8 = 8;
/// Every bit that names an axis.
pub const ALL_BITS: u8 = 15;

/// A set of stepper axes, one bit per axis.
#[derive(Clone, Copy, Debug, PartialEq, Eq, Structural)]
pub struct StepperChannel {
    bits: u8,
}

impl StepperChannel {
    pub closed spec fn spec_bits(self) -> u8 {
        self.bits
    }

    /// Only the four axis bits may be set.
    pub closed spec fn wf(self) -> bool {
        self.spec_bits() & ALL_BITS == self.spec_bits()
    }

    /// Whether the axis of bit `bit` belongs to the set.
    pub closed spec fn has(self, bit: u8) -> bool {
        self.spec_bits() & bit == bit
    }

    pub fn empty() -> (r: StepperChannel)
        ensures
            !r.has(X_BIT),
            !r.has(Y_BIT),
            !r.has(Z_BIT),
            !r.has(E_BIT),
            r.spec_bits() == 0,
            r.wf(),
    {
        proof {
            assert(0u8 & 1u8 != 1u8) by (bit_vector);
            assert(0u8 & 2u8 != 2u8) by (bit_vector);
            assert(0u8 & 4u8 != 4u8) by (bit_vector);
            assert(0u8 & 8u8 != 8u8) by (bit_vector);
            assert(0u8 & 15u8 == 0u8) by (bit_vector);
        }
        StepperChannel { bits: 0 }
    }

    /// The set of all four axes.
    pub fn all() -> (r: StepperChannel)
        ensures
            r.has(X_BIT),
            r.has(Y_BIT),
            r.has(Z_BIT),
            r.has(E_BIT),
            r.spec_bits() == ALL_BITS,
            r.wf(),
    {
        proof {
            assert(15u8 & 1u8 == 1u8) by (bit_vector);
            assert(15u8 & 2u8 == 2u8) by (bit_vector);
            assert(15u8 & 4u8 == 4u8) by (bit_vector);
            assert(15u8 & 8u8 == 8u8) by (bit_vector);
            assert(15u8 & 15u8 == 15u8) by (bit_vector);
        }
        StepperChannel { bits: ALL_BITS }
    }

    /// The set holding the bits of `bits` that name axes.
    pub fn from_bits_truncate(bits: u8) -> (r: StepperChannel)
        ensures
            r.spec_bits() == bits & ALL_BITS,
            r.wf(),
    {
        proof {
            assert((bits & 15u8) & 15u8 == bits & 15u8) by (bit_vector);
        }
        StepperChannel { bits: bits & ALL_BITS }
    }

    pub fn bits(&self) -> (r: u8)
        ensures
            r == self.spec_bits(),
    {
        self.bits
    }

    pub fn x() -> (r: StepperChannel)
        ensures
            r.has(X_BIT),
            !r.has(Y_BIT),
            !r.has(Z_BIT),
            !r.has(E_BIT),
            r.spec_bits() == X_BIT,
            r.wf(),
    {
        proof {
            assert(1u8 & 1u8 == 1u8) by (bit_vector);
            assert(1u8 & 2u8 != 2u8) by (bit_vector);
            assert(1u8 & 4u8 != 4u8) by (bit_vector);
            assert(1u8 & 8u8 != 8u8) by (bit_vector);
            assert(1u8 & 15u8 == 1u8) by (bit_vector);
        }
        StepperChannel { bits: X_BIT }
    }

    pub fn y() -> (r: StepperChannel)
        ensures
            !r.has(X_BIT),
            r.has(Y_BIT),
            !r.has(Z_BIT),
            !r.has(E_BIT),
            r.spec_bits() == Y_BIT,
            r.wf(),
    {
        proof {
            assert(2u8 & 1u8 != 1u8) by (bit_vector);
            assert(2u8 & 2u8 == 2u8) by (bit_vector);
            assert(2u8 & 4u8 != 4u8) by (bit_vector);
            assert(2u8 & 8u8 != 8u8) by (bit_vector);
            assert(2u8 & 15u8 == 2u8) by (bit_vector);
        }
        StepperChannel { bits: Y_BIT }
    }

    pub fn z() -> (r: StepperChannel)
        ensures
            !r.has(X_BIT),
            !r.has(Y_BIT),
            r.has(Z_BIT),
            !r.has(E_BIT),
            r.spec_bits() == Z_BIT,
            r.wf(),
    {
        proof {
            assert(4u8 & 1u8 != 1u8) by (bit_vector);
            assert(4u8 & 2u8 != 2u8) by (bit_vector);
            assert(4u8 & 4u8 == 4u8) by (bit_vector);
            assert(4u8 & 8u8 != 8u8) by (bit_vector);
            assert(4u8 & 15u8 == 4u8) by (bit_vector);
        }
        StepperChannel { bits: Z_BIT }
    }

    pub fn e() -> (r: StepperChannel)
        ensures
            !r.has(X_BIT),
            !r.has(Y_BIT),
            !r.has(Z_BIT),
            r.has(E_BIT),
            r.spec_bits() == E_BIT,
            r.wf(),
    {
        proof {
            assert(8u8 & 1u8 != 1u8) by (bit_vector);
            assert(8u8 & 2u8 != 2u8) by (bit_vector);
            assert(8u8 & 4u8 != 4u8) by (bit_vector);
            assert(8u8 & 8u8 == 8u8) by (bit_vector);
            assert(8u8 & 15u8 == 8u8) by (bit_vector);
        }
        StepperChannel { bits: E_BIT }
    }

    /// Whether every axis of `other` is in this set.
    pub fn contains(&self, other: StepperChannel) -> (r: bool)
        ensures
            r == self.has(other.spec_bits()),
    {
        self.bits & other.bits == other.bits
    }

    /// Whether the two sets share an axis.
    pub fn intersects(&self, other: StepperChannel) -> (r: bool)
        ensures
            r == (self.spec_bits() & other.spec_bits() != 0),
    {
        self.bits & other.bits != 0
    }

    pub fn is_empty(&self) -> (r: bool)
        ensures
            r == (self.spec_bits() == 0),
    {
        self.bits == 0
    }

    pub fn union(&self, other: StepperChannel) -> (r: StepperChannel)
        requires
            self.wf(),
            other.wf(),
        ensures
            r.spec_bits() == self.spec_bits() | other.spec_bits(),
            r.wf(),
            r.has(X_BIT) == (self.has(X_BIT) || other.has(X_BIT)),
            r.has(Y_BIT) == (self.has(Y_BIT) || other.has(Y_BIT)),
            r.has(Z_BIT) == (self.has(Z_BIT) || other.has(Z_BIT)),
            r.has(E_BIT) == (self.has(E_BIT) || other.has(E_BIT)),
    {
        let a = self.bits;
        let c = other.bits;
        proof {
            assert(a & 15u8 == a && c & 15u8 == c ==> (a | c) & 15u8 == (a | c)) by (bit_vector);
            assert(((a | c) & 1u8 == 1u8) == (a & 1u8 == 1u8 || c & 1u8 == 1u8)) by (bit_vector);
            assert(((a | c) & 2u8 == 2u8) == (a & 2u8 == 2u8 || c & 2u8 == 2u8)) by (bit_vector);
            assert(((a | c) & 4u8 == 4u8) == (a & 4u8 == 4u8 || c & 4u8 == 4u8)) by (bit_vector);
            assert(((a | c) & 8u8 == 8u8) == (a & 8u8 == 8u8 || c & 8u8 == 8u8)) by (bit_vector);
        }
        StepperChannel { bits: a | c }
    }

    pub fn intersection(&self, other: StepperChannel) -> (r: StepperChannel)
        requires
            self.wf(),
        ensures
            r.spec_bits() == self.spec_bits() & other.spec_bits(),
            r.wf(),
            forall|b: u8| #[trigger] r.has(b) <==> self.has(b) && other.has(b),
    {
        let a = self.bits;
        let c = other.bits;
        proof {
            assert(a & 15u8 == a ==> (a & c) & 15u8 == (a & c)) by (bit_vector);
            assert forall|b: u8| (a & c) & b == b <==> (a & b == b && c & b == b) by {
                assert((a & c) & b == b <==> (a & b == b && c & b == b)) by (bit_vector);
            }
        }
        StepperChannel { bits: a & c }
    }
}

} // verus!
