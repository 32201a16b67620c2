//! The bitmask of operations a characteristic supports.

use vstd::prelude::*;

verus! {

/// A set of properties that indicate what operations are supported by a
/// Characteristic. The bit positions are fixed by the attribute protocol;
/// masks combine by union and intersection, and an operation attempted
/// without its corresponding bit is rejected before any I/O is attempted.
#[derive(Debug, Clone, Copy, Hash, PartialEq, Eq, PartialOrd, Ord, Structural)]
pub struct CharPropFlags {
    pub bits: u8,
}

impl CharPropFlags {
    pub const BROADCAST: u8 = 0x01;

    pub const READ: u8 = 0x02;

    pub const WRITE_WITHOUT_RESPONSE: u8 = 0x04;

    pub const WRITE: u8 = 0x08;

    pub const NOTIFY: u8 = 0x10;

    pub const INDICATE: u8 = 0x20;

    pub const AUTHENTICATED_SIGNED_WRITES: u8 = 0x40;

    pub const EXTENDED_PROPERTIES: u8 = 0x80;

    /// The empty mask: no operation supported.
    pub fn empty() -> (r: Self)
        ensures
            r.bits == 0,
    {
        CharPropFlags { bits: 0 }
    }

    /// The mask with exactly the given bits set; all eight bits are
    /// meaningful, so every byte is a valid mask.
    pub fn from_bits(bits: u8) -> (r: Self)
        ensures
            r.bits == bits,
    {
        CharPropFlags { bits }
    }

    /// The raw bits of the mask.
    pub fn bits(&self) -> (r: u8)
        ensures
            r == self.bits,
    {
        self.bits
    }

    /// Whether no bit is set.
    pub fn is_empty(&self) -> (r: bool)
        ensures
            r == (self.bits == 0),
    {
        self.bits == 0
    }

    /// Whether every bit of `other` is also set in `self` (set membership
    /// test, lifted to subsets).
    pub fn contains(&self, other: Self) -> (r: bool)
        ensures
            r == flags_contain(*self, other),
    {
        self.bits & other.bits == other.bits
    }

    /// The mask with the bits of both operands (set union).
    pub fn union(self, other: Self) -> (r: Self)
        ensures
            r.bits == (self.bits | other.bits),
    {
        CharPropFlags { bits: self.bits | other.bits }
    }

    /// The mask with the bits common to both operands (set intersection).
    pub fn intersect(self, other: Self) -> (r: Self)
        ensures
            r.bits == (self.bits & other.bits),
    {
        CharPropFlags { bits: self.bits & other.bits }
    }
}

/// Whether every bit of `b` is also set in `a`.
pub open spec fn flags_contain(a: CharPropFlags, b: CharPropFlags) -> bool {
    a.bits & b.bits == b.bits
}

/// Whether the mask allows reads.
pub open spec fn can_read(f: CharPropFlags) -> bool {
    f.bits & 0x02 != 0
}

/// Whether the mask allows writes without response (commands).
pub open spec fn can_command(f: CharPropFlags) -> bool {
    f.bits & 0x04 != 0
}

/// Whether the mask allows writes with response (requests).
pub open spec fn can_request(f: CharPropFlags) -> bool {
    f.bits & 0x08 != 0
}

/// Whether the mask allows server-initiated notifications.
pub open spec fn can_notify(f: CharPropFlags) -> bool {
    f.bits & 0x10 != 0
}

/// Whether the mask allows server-initiated indications.
pub open spec fn can_indicate(f: CharPropFlags) -> bool {
    f.bits & 0x20 != 0
}

} // verus!
