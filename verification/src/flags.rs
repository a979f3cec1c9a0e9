//! The flag register model: a fixed set of named boolean status bits.

use vstd::prelude::*;

verus! {

/// The processor status flags, one boolean per named status bit.
///
/// A `Flags` value is a set over the named bits: any combination is valid,
/// combining is union, subtracting is difference, comparison is equality of
/// every member. The arithmetic instructions compute `carry`, `parity`,
/// `auxiliary_carry`, `zero`, `sign` and `overflow`; `trap`, `interrupt` and
/// `direction` are part of the register but are never derived here.
#[derive(Clone, Copy, Debug, PartialEq, Eq, Structural)]
pub struct Flags {
    /// Unsigned overflow or borrow out of the operation.
    pub carry: bool,
    /// The number of one bits in the low byte of the result is even.
    pub parity: bool,
    /// Carry or borrow across the low nibble boundary (bit 3 to bit 4).
    pub auxiliary_carry: bool,
    /// The result equals zero.
    pub zero: bool,
    /// The most significant bit of the result is set.
    pub sign: bool,
    /// Single-step trap bit; never derived by the arithmetic unit.
    pub trap: bool,
    /// Interrupt-enable bit; never derived by the arithmetic unit.
    pub interrupt: bool,
    /// String-direction bit; never derived by the arithmetic unit.
    pub direction: bool,
    /// Signed overflow of the operation.
    pub overflow: bool,
}

impl Flags {
    /// The flag set with every bit clear.
    pub open spec fn empty_spec() -> Flags {
        Flags {
            carry: false,
            parity: false,
            auxiliary_carry: false,
            zero: false,
            sign: false,
            trap: false,
            interrupt: false,
            direction: false,
            overflow: false,
        }
    }

    /// Constructs the empty flag set.
    pub fn empty() -> (r: Flags)
        ensures
            r == Flags::empty_spec(),
    {
        Flags {
            carry: false,
            parity: false,
            auxiliary_carry: false,
            zero: false,
            sign: false,
            trap: false,
            interrupt: false,
            direction: false,
            overflow: false,
        }
    }

    /// Set union: a bit is set in the result iff it is set in `self` or in
    /// `other`.
    pub fn union(self, other: Flags) -> (r: Flags)
        ensures
            r.carry == (self.carry || other.carry),
            r.parity == (self.parity || other.parity),
            r.auxiliary_carry == (self.auxiliary_carry || other.auxiliary_carry),
            r.zero == (self.zero || other.zero),
            r.sign == (self.sign || other.sign),
            r.trap == (self.trap || other.trap),
            r.interrupt == (self.interrupt || other.interrupt),
            r.direction == (self.direction || other.direction),
            r.overflow == (self.overflow || other.overflow),
    {
        Flags {
            carry: self.carry || other.carry,
            parity: self.parity || other.parity,
            auxiliary_carry: self.auxiliary_carry || other.auxiliary_carry,
            zero: self.zero || other.zero,
            sign: self.sign || other.sign,
            trap: self.trap || other.trap,
            interrupt: self.interrupt || other.interrupt,
            direction: self.direction || other.direction,
            overflow: self.overflow || other.overflow,
        }
    }

    /// Set intersection: a bit is set in the result iff it is set in both
    /// `self` and `other`.
    pub fn intersection(self, other: Flags) -> (r: Flags)
        ensures
            r.carry == (self.carry && other.carry),
            r.parity == (self.parity && other.parity),
            r.auxiliary_carry == (self.auxiliary_carry && other.auxiliary_carry),
            r.zero == (self.zero && other.zero),
            r.sign == (self.sign && other.sign),
            r.trap == (self.trap && other.trap),
            r.interrupt == (self.interrupt && other.interrupt),
            r.direction == (self.direction && other.direction),
            r.overflow == (self.overflow && other.overflow),
    {
        Flags {
            carry: self.carry && other.carry,
            parity: self.parity && other.parity,
            auxiliary_carry: self.auxiliary_carry && other.auxiliary_carry,
            zero: self.zero && other.zero,
            sign: self.sign && other.sign,
            trap: self.trap && other.trap,
            interrupt: self.interrupt && other.interrupt,
            direction: self.direction && other.direction,
            overflow: self.overflow && other.overflow,
        }
    }

    /// Asymmetric set difference: a bit is set in the result iff it is set in
    /// `self` and clear in `other`.
    pub fn difference(self, other: Flags) -> (r: Flags)
        ensures
            r.carry == (self.carry && !other.carry),
            r.parity == (self.parity && !other.parity),
            r.auxiliary_carry == (self.auxiliary_carry && !other.auxiliary_carry),
            r.zero == (self.zero && !other.zero),
            r.sign == (self.sign && !other.sign),
            r.trap == (self.trap && !other.trap),
            r.interrupt == (self.interrupt && !other.interrupt),
            r.direction == (self.direction && !other.direction),
            r.overflow == (self.overflow && !other.overflow),
    {
        Flags {
            carry: self.carry && !other.carry,
            parity: self.parity && !other.parity,
            auxiliary_carry: self.auxiliary_carry && !other.auxiliary_carry,
            zero: self.zero && !other.zero,
            sign: self.sign && !other.sign,
            trap: self.trap && !other.trap,
            interrupt: self.interrupt && !other.interrupt,
            direction: self.direction && !other.direction,
            overflow: self.overflow && !other.overflow,
        }
    }

    /// Membership test: every bit set in `other` is also set in `self`.
    pub fn contains(self, other: Flags) -> (r: bool)
        ensures
            r == (
            (other.carry ==> self.carry) && (other.parity ==> self.parity) && (
            other.auxiliary_carry ==> self.auxiliary_carry) && (other.zero ==> self.zero) && (
            other.sign ==> self.sign) && (other.trap ==> self.trap) && (other.interrupt
                ==> self.interrupt) && (other.direction ==> self.direction) && (other.overflow
                ==> self.overflow)),
    {
        (!other.carry || self.carry) && (!other.parity || self.parity) && (!other.auxiliary_carry
            || self.auxiliary_carry) && (!other.zero || self.zero) && (!other.sign || self.sign)
            && (!other.trap || self.trap) && (!other.interrupt || self.interrupt)
            && (!other.direction || self.direction) && (!other.overflow || self.overflow)
    }
}

impl Default for Flags {
    /// The default flag state is the empty set.
    fn default() -> (r: Flags)
        ensures
            r == Flags::empty_spec(),
    {
        Flags::empty()
    }
}

} // verus!
