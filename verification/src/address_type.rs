//! Whether a device address is fixed (public) or resolvable (random).

use vstd::prelude::*;

verus! {

/// The kind of a device address: either a fixed public address or a
/// randomly generated one. The wire encoding is one byte: public is 0,
/// random is 1; every other code decodes to "absent".
#[derive(Debug, Clone, Copy, PartialEq, Eq, Structural)]
pub enum AddressType {
    Random,
    Public,
}

impl Default for AddressType {
    /// The default kind is `Public`.
    fn default() -> (r: Self)
        ensures
            r == AddressType::Public,
    {
        AddressType::Public
    }
}

/// The one-byte wire code of an address kind: public is 0, random is 1.
pub open spec fn kind_code(t: AddressType) -> u8 {
    match t {
        AddressType::Public => 0,
        AddressType::Random => 1,
    }
}

/// The address kind a one-byte wire code decodes to: 0 and 1 decode to a
/// kind, every other code to `None`.
pub open spec fn kind_of_code(v: u8) -> Option<AddressType> {
    if v == 0 {
        Some(AddressType::Public)
    } else if v == 1 {
        Some(AddressType::Random)
    } else {
        None
    }
}

impl AddressType {
    /// Decodes a one-byte wire code; codes other than 0 and 1 yield `None`,
    /// never an error, and callers treat `None` as "capability absent".
    pub fn from_u8(v: u8) -> (r: Option<AddressType>)
        ensures
            r == kind_of_code(v),
    {
        match v {
            0 => Some(AddressType::Public),
            1 => Some(AddressType::Random),
            _ => None,
        }
    }

    /// Encodes this kind as its one-byte wire code.
    pub fn num(&self) -> (r: u8)
        ensures
            r == kind_code(*self),
    {
        match *self {
            AddressType::Public => 0,
            AddressType::Random => 1,
        }
    }
}

/// Law: decoding and encoding are mutually inverse. Encoding any kind and
/// decoding the code gives the kind back; decoding succeeds exactly on the
/// codes 0 and 1, and then re-encoding reproduces the code.
pub proof fn lemma_kind_code_round_trip(t: AddressType, v: u8)
    ensures
        kind_of_code(kind_code(t)) == Some(t),
        v <= 1 ==> (kind_of_code(v) matches Some(u) && kind_code(u) == v),
        v > 1 ==> kind_of_code(v) is None,
{
}

} // verus!
