//! Client-side model of Bluetooth Low Energy communication: identifier
//! primitives (device addresses, attribute UUIDs), the GATT attribute model
//! (characteristics and their property flags), advertising-derived device
//! snapshots, and verified reference implementations of the central and
//! peripheral roles (device registry, connection state machine, and the
//! read/write/subscribe protocol).

use vstd::prelude::*;

mod address_type;
mod bdaddr;
mod central;
mod central_event;
mod char_prop_flags;
mod characteristic;
mod peripheral;
mod peripheral_properties;
mod text;
mod uuid;
mod value_notification;

pub use address_type::AddressType;
pub use bdaddr::BDAddr;
pub use central::Central;
pub use central_event::CentralEvent;
pub use char_prop_flags::CharPropFlags;
pub use characteristic::Characteristic;
pub use peripheral::ConnectionState;
pub use peripheral::Peripheral;
pub use peripheral::TransportCall;
pub use peripheral_properties::AdvertisingReport;
pub use peripheral_properties::PeripheralProperties;
pub use uuid::UUID;
pub use value_notification::ValueNotification;

verus! {

/// Why a transport-touching operation failed. Absence of a value (an unknown
/// peripheral, an unknown address-kind code) is represented with `Option`,
/// never with an error: only operations that attempt transport I/O can fail.
#[derive(Debug, Clone, Copy, PartialEq, Eq, Structural)]
pub enum Error {
    /// The underlying radio or link reported a failure, or produced no
    /// completion for an issued request.
    Transport,
    /// A GATT operation was attempted while the peripheral was not in the
    /// `Connected` state; no I/O was performed.
    NotConnected,
    /// An operation was attempted against a characteristic whose property
    /// flags do not include the capability it needs; no I/O was performed.
    CapabilityUnsupported,
}

} // verus!
