//! Unsolicited value pushes from a connected device.

use vstd::prelude::*;

verus! {

/// A notification sent from a peripheral due to a change in a value. The
/// payload length is constrained only by the transport's maximum
/// transmission unit and is not validated here.
#[derive(Debug, Clone)]
pub struct ValueNotification {
    /// The handle that has changed.
    pub handle: u16,
    /// The new value of the handle.
    pub value: Vec<u8>,
}

} // verus!
