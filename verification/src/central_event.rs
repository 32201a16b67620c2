//! Discrete occurrences in the discovery and connection lifecycle.

use vstd::prelude::*;

use crate::bdaddr::BDAddr;

verus! {

/// An event in the discovery/connection lifecycle, keyed by the address of
/// the device it concerns. Each occurrence is dispatched at most once;
/// events for the same address are delivered in causal order.
#[derive(Debug, Clone, Copy)]
pub enum CentralEvent {
    DeviceDiscovered(BDAddr),
    DeviceLost(BDAddr),
    DeviceUpdated(BDAddr),
    DeviceConnected(BDAddr),
    DeviceDisconnected(BDAddr),
}

} // verus!
