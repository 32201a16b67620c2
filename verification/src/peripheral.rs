//! One remote device: its connection state machine, its discovered
//! characteristics, and the read/write/subscribe protocol, modeled over an
//! explicit record of the transport traffic it causes.

use vstd::prelude::*;
use vstd::slice::slice_to_vec;

use crate::bdaddr::BDAddr;
use crate::address_type::AddressType;
use crate::char_prop_flags::can_command;
use crate::char_prop_flags::can_indicate;
use crate::char_prop_flags::can_notify;
use crate::char_prop_flags::can_read;
use crate::char_prop_flags::can_request;
use crate::characteristic::key_eq;
use crate::characteristic::key_lt;
use crate::characteristic::lemma_key_order;
use crate::characteristic::strictly_sorted;
use crate::characteristic::upsert_sorted;
use crate::characteristic::Characteristic;
use crate::peripheral_properties::merged_props;
use crate::peripheral_properties::props_eqv;
use crate::peripheral_properties::AdvertisingReport;
use crate::peripheral_properties::PeripheralProperties;
use crate::uuid::UUID;
use crate::value_notification::ValueNotification;
use crate::Error;

verus! {

/// The connection lifecycle of a peripheral. The synchronous `connect` and
/// `disconnect` operations traverse the transient states and return only
/// once a stable state is reached, so callers observe `Disconnected` or
/// `Connected`.
#[derive(Debug, Clone, Copy, PartialEq, Eq, Structural)]
pub enum ConnectionState {
    Disconnected,
    Connecting,
    Connected,
    Disconnecting,
}

/// One unit of transport I/O a peripheral has issued to the underlying
/// link. Operations rejected before any I/O (not connected, capability
/// missing) record nothing.
#[derive(Debug, Clone)]
pub enum TransportCall {
    /// A link establishment.
    Connect,
    /// A link teardown.
    Disconnect,
    /// A characteristic discovery over a handle window.
    Discover(u16, u16),
    /// A write without response to a value handle.
    Command(u16, Vec<u8>),
    /// A write with response to a value handle.
    Request(u16, Vec<u8>),
    /// A read of a value handle.
    Read(u16),
    /// A read-by-type over a handle window for a declaration UUID.
    ReadByType(u16, u16, UUID),
    /// A subscription on a value handle; true means indicate, false notify.
    Subscribe(u16, bool),
    /// A subscription removal; true means indicate, false notify.
    Unsubscribe(u16, bool),
}

/// Whether `b` is `a` with exactly one element appended.
pub open spec fn pushed<T>(a: Seq<T>, b: Seq<T>) -> bool {
    b.len() == a.len() + 1 && b.subrange(0, a.len() as int) == a
}

/// Whether a sequence holds no element twice.
pub open spec fn no_dups(s: Seq<u16>) -> bool {
    forall|p: int, q: int| 0 <= p < q < s.len() ==> s[p] != s[q]
}

/// Whether a characteristic's start handle lies in the inclusive window.
pub open spec fn in_window(c: Characteristic, start: u16, end: u16) -> bool {
    start <= c.start_handle <= end
}

/// A remote device as one value: connection state, advertising-derived
/// properties, the characteristic table the device itself exposes, the
/// cache of characteristics discovered so far, active subscriptions, the
/// record of transport I/O issued, the queue of injected request
/// completions, and the notifications delivered so far.
///
/// The device table, the completion queue and the notification intake
/// stand for the underlying transport, so the protocol rules can be
/// checked against an explicit record of the I/O they cause. Operations
/// are serialized by `&mut` access: no second operation can start while
/// one is outstanding, so no operation ever fails for being busy.
#[derive(Debug)]
pub struct Peripheral {
    /// The address of the device.
    pub address: BDAddr,
    /// The advertising-derived snapshot of the device.
    pub properties: PeripheralProperties,
    /// Where the device stands in the connection lifecycle.
    pub state: ConnectionState,
    /// The characteristics discovered so far, strictly sorted by identity.
    pub characteristics: Vec<Characteristic>,
    /// The characteristic table of the remote device itself, strictly
    /// sorted by identity; discovery reads from it.
    pub remote: Vec<Characteristic>,
    /// The value handles currently subscribed to, each at most once.
    pub subscriptions: Vec<u16>,
    /// Every unit of transport I/O issued so far, in order.
    pub calls: Vec<TransportCall>,
    /// Injected completions for requests and reads, first in first out;
    /// `None` stands for a transport failure.
    pub pending: Vec<Option<Vec<u8>>>,
    /// The notifications delivered so far, in injection order.
    pub received: Vec<ValueNotification>,
}

impl Peripheral {
    /// The structural invariant: both characteristic collections are
    /// strictly sorted by identity and no handle is subscribed twice.
    pub open spec fn wf(&self) -> bool {
        &&& strictly_sorted(self.characteristics@)
        &&& strictly_sorted(self.remote@)
        &&& no_dups(self.subscriptions@)
    }

    /// A freshly discovered peripheral: disconnected, nothing discovered,
    /// nothing subscribed, no I/O issued.
    pub fn new(address: BDAddr, address_type: AddressType) -> (p: Peripheral)
        ensures
            p.wf(),
            p.address == address,
            p.properties.address == address,
            p.properties.address_type == address_type,
            p.properties.discovery_count == 0,
            p.state == ConnectionState::Disconnected,
            p.characteristics@ == Seq::<Characteristic>::empty(),
            p.remote@ == Seq::<Characteristic>::empty(),
            p.subscriptions@ == Seq::<u16>::empty(),
            p.calls@ == Seq::<TransportCall>::empty(),
            p.pending@ == Seq::<Option<Vec<u8>>>::empty(),
            p.received@ == Seq::<ValueNotification>::empty(),
    {
        Peripheral {
            address,
            properties: PeripheralProperties {
                address,
                address_type,
                local_name: None,
                tx_power_level: None,
                manufacturer_data: None,
                discovery_count: 0,
                has_scan_response: false,
            },
            state: ConnectionState::Disconnected,
            characteristics: Vec::new(),
            remote: Vec::new(),
            subscriptions: Vec::new(),
            calls: Vec::new(),
            pending: Vec::new(),
            received: Vec::new(),
        }
    }

    /// Returns the address of the peripheral.
    pub fn address(&self) -> (r: BDAddr)
        ensures
            r == self.address,
    {
        self.address
    }

    /// Returns an independent copy of the properties associated with the
    /// peripheral; later merges cannot invalidate it.
    pub fn properties(&self) -> (r: PeripheralProperties)
        ensures
            props_eqv(r, self.properties),
    {
        self.properties.snapshot()
    }

    /// The characteristics discovered so far, in their identity order;
    /// empty until a discovery is performed.
    pub fn characteristics(&self) -> (r: Vec<Characteristic>)
        ensures
            r@ == self.characteristics@,
    {
        slice_to_vec(self.characteristics.as_slice())
    }

    /// Returns true iff we are currently connected to the device.
    pub fn is_connected(&self) -> (r: bool)
        ensures
            r == (self.state == ConnectionState::Connected),
    {
        self.state == ConnectionState::Connected
    }

    /// The record of every unit of transport I/O issued so far.
    pub fn transport_calls(&self) -> (r: &Vec<TransportCall>)
        ensures
            r@ == self.calls@,
    {
        &self.calls
    }

    /// The notifications delivered so far, in injection order.
    pub fn notifications(&self) -> (r: &Vec<ValueNotification>)
        ensures
            r@ == self.received@,
    {
        &self.received
    }

    /// Whether notifications for the given value handle are subscribed.
    pub fn is_subscribed(&self, handle: u16) -> (r: bool)
        ensures
            r == self.subscriptions@.contains(handle),
    {
        contains_handle(&self.subscriptions, handle)
    }

    /// Creates a connection to the device. Synchronous: it returns only
    /// once the link is established, and the modeled link always accepts,
    /// so success is owed on every input. Connecting while already
    /// connected is a no-op: peripherals allow only one connection at a
    /// time, and the existing link is kept.
    pub fn connect(&mut self) -> (r: Result<(), Error>)
        requires
            old(self).wf(),
        ensures
            final(self).wf(),
            r == Ok::<(), Error>(()),
            final(self).state == ConnectionState::Connected,
            old(self).state == ConnectionState::Connected ==> *final(self) == *old(self),
            old(self).state != ConnectionState::Connected ==> final(self).calls@ == old(
                self,
            ).calls@.push(TransportCall::Connect),
            final(self).address == old(self).address,
            final(self).properties == old(self).properties,
            final(self).characteristics == old(self).characteristics,
            final(self).remote == old(self).remote,
            final(self).subscriptions == old(self).subscriptions,
            final(self).pending == old(self).pending,
            final(self).received == old(self).received,
    {
        if self.state == ConnectionState::Connected {
            return Ok(());
        }
        self.state = ConnectionState::Connecting;
        self.calls.push(TransportCall::Connect);
        self.state = ConnectionState::Connected;
        Ok(())
    }

    /// Terminates the connection to the device. Synchronous and owed
    /// success on every input; disconnecting while already disconnected is
    /// a no-op. Tearing the link down forgets the subscriptions that lived
    /// on it.
    pub fn disconnect(&mut self) -> (r: Result<(), Error>)
        requires
            old(self).wf(),
        ensures
            final(self).wf(),
            r == Ok::<(), Error>(()),
            final(self).state == ConnectionState::Disconnected,
            old(self).state == ConnectionState::Disconnected ==> *final(self) == *old(self),
            old(self).state != ConnectionState::Disconnected ==> final(self).calls@ == old(
                self,
            ).calls@.push(TransportCall::Disconnect) && final(self).subscriptions@ == Seq::<
                u16,
            >::empty(),
            final(self).address == old(self).address,
            final(self).properties == old(self).properties,
            final(self).characteristics == old(self).characteristics,
            final(self).remote == old(self).remote,
            final(self).pending == old(self).pending,
            final(self).received == old(self).received,
    {
        if self.state == ConnectionState::Disconnected {
            return Ok(());
        }
        self.state = ConnectionState::Disconnecting;
        self.calls.push(TransportCall::Disconnect);
        self.subscriptions = Vec::new();
        self.state = ConnectionState::Disconnected;
        Ok(())
    }
}

/// Whether some entry of `s` shares its identity with `c`.
pub open spec fn has_key(s: Seq<Characteristic>, c: Characteristic) -> bool {
    exists|k: int| 0 <= k < s.len() && key_eq(s[k], c)
}

/// The fields of a peripheral that no GATT data operation touches: its
/// identity, its advertising snapshot, and both characteristic tables.
pub open spec fn unchanged_device(a: Peripheral, b: Peripheral) -> bool {
    &&& b.address == a.address
    &&& b.properties == a.properties
    &&& b.characteristics == a.characteristics
    &&& b.remote == a.remote
}

impl Peripheral {
    /// Sends a command (write without response) to the characteristic.
    /// Rejected with no I/O while not connected, and when the
    /// characteristic does not support writes without response; otherwise
    /// the write is issued and accepted.
    pub fn command(&mut self, characteristic: &Characteristic, data: &[u8]) -> (r: Result<
        (),
        Error,
    >)
        requires
            old(self).wf(),
        ensures
            final(self).wf(),
            old(self).state != ConnectionState::Connected ==> r == Err::<(), Error>(
                Error::NotConnected,
            ) && *final(self) == *old(self),
            old(self).state == ConnectionState::Connected && !can_command(characteristic.properties)
                ==> r == Err::<(), Error>(Error::CapabilityUnsupported) && *final(self) == *old(
                self,
            ),
            old(self).state == ConnectionState::Connected && can_command(characteristic.properties)
                ==> {
                &&& r == Ok::<(), Error>(())
                &&& pushed(old(self).calls@, final(self).calls@)
                &&& (final(self).calls@.last() matches TransportCall::Command(h, d) && h
                    == characteristic.value_handle && d@ == data@)
                &&& unchanged_device(*old(self), *final(self))
                &&& final(self).state == old(self).state
                &&& final(self).subscriptions == old(self).subscriptions
                &&& final(self).pending == old(self).pending
                &&& final(self).received == old(self).received
            },
    {
        if self.state != ConnectionState::Connected {
            return Err(Error::NotConnected);
        }
        if characteristic.properties.bits & 0x04 == 0 {
            return Err(Error::CapabilityUnsupported);
        }
        let ghost c0 = self.calls@;
        self.calls.push(TransportCall::Command(characteristic.value_handle, slice_to_vec(data)));
        proof {
            assert(self.calls@.subrange(0, c0.len() as int) =~= c0);
        }
        Ok(())
    }

    /// Takes the next injected completion off the queue: the payload when
    /// one was injected, a transport failure when a failure was injected
    /// or the queue is empty (the link produced no completion).
    fn take_completion(&mut self) -> (r: Result<Vec<u8>, Error>)
        ensures
            final(self).pending@ == (if old(self).pending@.len() > 0 {
                old(self).pending@.remove(0)
            } else {
                old(self).pending@
            }),
            old(self).pending@.len() == 0 ==> r == Err::<Vec<u8>, Error>(Error::Transport),
            old(self).pending@.len() > 0 ==> (match old(self).pending@[0] {
                Some(v) => r matches Ok(out) && out@ == v@,
                None => r == Err::<Vec<u8>, Error>(Error::Transport),
            }),
            unchanged_device(*old(self), *final(self)),
            final(self).state == old(self).state,
            final(self).subscriptions == old(self).subscriptions,
            final(self).calls == old(self).calls,
            final(self).received == old(self).received,
    {
        if self.pending.len() > 0 {
            let resp = self.pending.remove(0);
            match resp {
                Some(d) => Ok(d),
                None => Err(Error::Transport),
            }
        } else {
            Err(Error::Transport)
        }
    }

    /// Sends a request (write with response) to the device and resolves it
    /// against the next injected completion. Rejected with no I/O while
    /// not connected, and when the characteristic does not support writes.
    pub fn request(&mut self, characteristic: &Characteristic, data: &[u8]) -> (r: Result<
        Vec<u8>,
        Error,
    >)
        requires
            old(self).wf(),
        ensures
            final(self).wf(),
            old(self).state != ConnectionState::Connected ==> r == Err::<Vec<u8>, Error>(
                Error::NotConnected,
            ) && *final(self) == *old(self),
            old(self).state == ConnectionState::Connected && !can_request(characteristic.properties)
                ==> r == Err::<Vec<u8>, Error>(Error::CapabilityUnsupported) && *final(self) == *old(
                self,
            ),
            old(self).state == ConnectionState::Connected && can_request(characteristic.properties)
                ==> {
                &&& pushed(old(self).calls@, final(self).calls@)
                &&& (final(self).calls@.last() matches TransportCall::Request(h, d) && h
                    == characteristic.value_handle && d@ == data@)
                &&& final(self).pending@ == (if old(self).pending@.len() > 0 {
                    old(self).pending@.remove(0)
                } else {
                    old(self).pending@
                })
                &&& old(self).pending@.len() == 0 ==> r == Err::<Vec<u8>, Error>(Error::Transport)
                &&& old(self).pending@.len() > 0 ==> (match old(self).pending@[0] {
                    Some(v) => r matches Ok(out) && out@ == v@,
                    None => r == Err::<Vec<u8>, Error>(Error::Transport),
                })
                &&& unchanged_device(*old(self), *final(self))
                &&& final(self).state == old(self).state
                &&& final(self).subscriptions == old(self).subscriptions
                &&& final(self).received == old(self).received
            },
    {
        if self.state != ConnectionState::Connected {
            return Err(Error::NotConnected);
        }
        if characteristic.properties.bits & 0x08 == 0 {
            return Err(Error::CapabilityUnsupported);
        }
        let ghost c0 = self.calls@;
        self.calls.push(TransportCall::Request(characteristic.value_handle, slice_to_vec(data)));
        proof {
            assert(self.calls@.subrange(0, c0.len() as int) =~= c0);
        }
        self.take_completion()
    }

    /// Sends a read to the device and resolves it against the next
    /// injected completion. Rejected with no I/O while not connected, and
    /// when the characteristic does not support reads.
    pub fn read(&mut self, characteristic: &Characteristic) -> (r: Result<Vec<u8>, Error>)
        requires
            old(self).wf(),
        ensures
            final(self).wf(),
            old(self).state != ConnectionState::Connected ==> r == Err::<Vec<u8>, Error>(
                Error::NotConnected,
            ) && *final(self) == *old(self),
            old(self).state == ConnectionState::Connected && !can_read(characteristic.properties)
                ==> r == Err::<Vec<u8>, Error>(Error::CapabilityUnsupported) && *final(self) == *old(
                self,
            ),
            old(self).state == ConnectionState::Connected && can_read(characteristic.properties)
                ==> {
                &&& final(self).calls@ == old(self).calls@.push(TransportCall::Read(
                    characteristic.value_handle,
                ))
                &&& final(self).pending@ == (if old(self).pending@.len() > 0 {
                    old(self).pending@.remove(0)
                } else {
                    old(self).pending@
                })
                &&& old(self).pending@.len() == 0 ==> r == Err::<Vec<u8>, Error>(Error::Transport)
                &&& old(self).pending@.len() > 0 ==> (match old(self).pending@[0] {
                    Some(v) => r matches Ok(out) && out@ == v@,
                    None => r == Err::<Vec<u8>, Error>(Error::Transport),
                })
                &&& unchanged_device(*old(self), *final(self))
                &&& final(self).state == old(self).state
                &&& final(self).subscriptions == old(self).subscriptions
                &&& final(self).received == old(self).received
            },
    {
        if self.state != ConnectionState::Connected {
            return Err(Error::NotConnected);
        }
        if characteristic.properties.bits & 0x02 == 0 {
            return Err(Error::CapabilityUnsupported);
        }
        self.calls.push(TransportCall::Read(characteristic.value_handle));
        self.take_completion()
    }

    /// Sends a read-by-type request over the handle range covered by the
    /// characteristic, for the given declaration UUID, and resolves it
    /// against the next injected completion. Rejected with no I/O while
    /// not connected, and when the characteristic does not support reads.
    pub fn read_by_type(&mut self, characteristic: &Characteristic, uuid: UUID) -> (r: Result<
        Vec<u8>,
        Error,
    >)
        requires
            old(self).wf(),
        ensures
            final(self).wf(),
            old(self).state != ConnectionState::Connected ==> r == Err::<Vec<u8>, Error>(
                Error::NotConnected,
            ) && *final(self) == *old(self),
            old(self).state == ConnectionState::Connected && !can_read(characteristic.properties)
                ==> r == Err::<Vec<u8>, Error>(Error::CapabilityUnsupported) && *final(self) == *old(
                self,
            ),
            old(self).state == ConnectionState::Connected && can_read(characteristic.properties)
                ==> {
                &&& final(self).calls@ == old(self).calls@.push(TransportCall::ReadByType(
                    characteristic.start_handle,
                    characteristic.end_handle,
                    uuid,
                ))
                &&& final(self).pending@ == (if old(self).pending@.len() > 0 {
                    old(self).pending@.remove(0)
                } else {
                    old(self).pending@
                })
                &&& old(self).pending@.len() == 0 ==> r == Err::<Vec<u8>, Error>(Error::Transport)
                &&& old(self).pending@.len() > 0 ==> (match old(self).pending@[0] {
                    Some(v) => r matches Ok(out) && out@ == v@,
                    None => r == Err::<Vec<u8>, Error>(Error::Transport),
                })
                &&& unchanged_device(*old(self), *final(self))
                &&& final(self).state == old(self).state
                &&& final(self).subscriptions == old(self).subscriptions
                &&& final(self).received == old(self).received
            },
    {
        if self.state != ConnectionState::Connected {
            return Err(Error::NotConnected);
        }
        if characteristic.properties.bits & 0x02 == 0 {
            return Err(Error::CapabilityUnsupported);
        }
        self.calls.push(
            TransportCall::ReadByType(
                characteristic.start_handle,
                characteristic.end_handle,
                uuid,
            ),
        );
        self.take_completion()
    }

    /// Enables notifications for the characteristic: notify when its flags
    /// allow it, indicate otherwise (notify is preferred when both are
    /// set). Rejected with no I/O while not connected, and when the flags
    /// allow neither. Subscribing an already-subscribed handle issues the
    /// request again but keeps the one subscription.
    pub fn subscribe(&mut self, characteristic: &Characteristic) -> (r: Result<(), Error>)
        requires
            old(self).wf(),
        ensures
            final(self).wf(),
            old(self).state != ConnectionState::Connected ==> r == Err::<(), Error>(
                Error::NotConnected,
            ) && *final(self) == *old(self),
            old(self).state == ConnectionState::Connected && !can_notify(characteristic.properties)
                && !can_indicate(characteristic.properties) ==> r == Err::<(), Error>(
                Error::CapabilityUnsupported,
            ) && *final(self) == *old(self),
            old(self).state == ConnectionState::Connected && (can_notify(characteristic.properties)
                || can_indicate(characteristic.properties)) ==> {
                &&& r == Ok::<(), Error>(())
                &&& final(self).calls@ == old(self).calls@.push(TransportCall::Subscribe(
                    characteristic.value_handle,
                    !can_notify(characteristic.properties),
                ))
                &&& final(self).subscriptions@ == (if old(self).subscriptions@.contains(
                    characteristic.value_handle,
                ) {
                    old(self).subscriptions@
                } else {
                    old(self).subscriptions@.push(characteristic.value_handle)
                })
                &&& unchanged_device(*old(self), *final(self))
                &&& final(self).state == old(self).state
                &&& final(self).pending == old(self).pending
                &&& final(self).received == old(self).received
            },
    {
        if self.state != ConnectionState::Connected {
            return Err(Error::NotConnected);
        }
        let bits = characteristic.properties.bits;
        if bits & 0x10 == 0 && bits & 0x20 == 0 {
            return Err(Error::CapabilityUnsupported);
        }
        let indicate = bits & 0x10 == 0;
        self.calls.push(TransportCall::Subscribe(characteristic.value_handle, indicate));
        if !contains_handle(&self.subscriptions, characteristic.value_handle) {
            self.subscriptions.push(characteristic.value_handle);
        }
        Ok(())
    }

    /// Disables notifications for the characteristic, symmetrically to
    /// `subscribe`: same state and capability checks, and the handle
    /// leaves the subscription set.
    pub fn unsubscribe(&mut self, characteristic: &Characteristic) -> (r: Result<(), Error>)
        requires
            old(self).wf(),
        ensures
            final(self).wf(),
            old(self).state != ConnectionState::Connected ==> r == Err::<(), Error>(
                Error::NotConnected,
            ) && *final(self) == *old(self),
            old(self).state == ConnectionState::Connected && !can_notify(characteristic.properties)
                && !can_indicate(characteristic.properties) ==> r == Err::<(), Error>(
                Error::CapabilityUnsupported,
            ) && *final(self) == *old(self),
            old(self).state == ConnectionState::Connected && (can_notify(characteristic.properties)
                || can_indicate(characteristic.properties)) ==> {
                &&& r == Ok::<(), Error>(())
                &&& final(self).calls@ == old(self).calls@.push(TransportCall::Unsubscribe(
                    characteristic.value_handle,
                    !can_notify(characteristic.properties),
                ))
                &&& !final(self).subscriptions@.contains(characteristic.value_handle)
                &&& forall|x: u16|
                    x != characteristic.value_handle ==> (final(self).subscriptions@.contains(x)
                        <==> old(self).subscriptions@.contains(x))
                &&& final(self).subscriptions@.len() == old(self).subscriptions@.len() - (if old(
                    self,
                ).subscriptions@.contains(characteristic.value_handle) {
                    1int
                } else {
                    0int
                })
                &&& unchanged_device(*old(self), *final(self))
                &&& final(self).state == old(self).state
                &&& final(self).pending == old(self).pending
                &&& final(self).received == old(self).received
            },
    {
        if self.state != ConnectionState::Connected {
            return Err(Error::NotConnected);
        }
        let bits = characteristic.properties.bits;
        if bits & 0x10 == 0 && bits & 0x20 == 0 {
            return Err(Error::CapabilityUnsupported);
        }
        let indicate = bits & 0x10 == 0;
        self.calls.push(TransportCall::Unsubscribe(characteristic.value_handle, indicate));
        match index_of_handle(&self.subscriptions, characteristic.value_handle) {
            Some(i) => {
                let ghost s0 = self.subscriptions@;
                self.subscriptions.remove(i);
                proof {
                    lemma_remove_at(s0, i as int);
                }
            },
            None => {},
        }
        Ok(())
    }

    /// Hands the peripheral one unsolicited value notification from the
    /// transport. It reaches the notification record exactly when the
    /// device is connected and the handle is subscribed, and notifications
    /// are recorded in the order they are injected; the return value says
    /// whether it was delivered.
    pub fn deliver_notification(&mut self, handle: u16, value: Vec<u8>) -> (r: bool)
        requires
            old(self).wf(),
        ensures
            final(self).wf(),
            r == (old(self).state == ConnectionState::Connected
                && old(self).subscriptions@.contains(handle)),
            r ==> final(self).received@ == old(self).received@.push(
                (ValueNotification { handle, value }),
            ),
            !r ==> *final(self) == *old(self),
            unchanged_device(*old(self), *final(self)),
            final(self).state == old(self).state,
            final(self).subscriptions == old(self).subscriptions,
            final(self).calls == old(self).calls,
            final(self).pending == old(self).pending,
    {
        if self.state != ConnectionState::Connected {
            return false;
        }
        if !contains_handle(&self.subscriptions, handle) {
            return false;
        }
        self.received.push(ValueNotification { handle, value });
        true
    }

    /// Queues the payload of the next request or read completion, as the
    /// transport would deliver it.
    pub fn push_response(&mut self, data: Vec<u8>)
        requires
            old(self).wf(),
        ensures
            final(self).wf(),
            final(self).pending@ == old(self).pending@.push(Some(data)),
            unchanged_device(*old(self), *final(self)),
            final(self).state == old(self).state,
            final(self).subscriptions == old(self).subscriptions,
            final(self).calls == old(self).calls,
            final(self).received == old(self).received,
    {
        self.pending.push(Some(data));
    }

    /// Queues a transport failure as the next request or read completion.
    pub fn push_failure(&mut self)
        requires
            old(self).wf(),
        ensures
            final(self).wf(),
            final(self).pending@ == old(self).pending@.push(None),
            unchanged_device(*old(self), *final(self)),
            final(self).state == old(self).state,
            final(self).subscriptions == old(self).subscriptions,
            final(self).calls == old(self).calls,
            final(self).received == old(self).received,
    {
        self.pending.push(None);
    }

    /// Merges one further advertising report from this device into its
    /// properties, as the discovery path does: present fields overwrite,
    /// absent fields keep their prior value, the discovery count grows.
    pub fn deliver_report(&mut self, r: AdvertisingReport)
        requires
            old(self).wf(),
        ensures
            final(self).wf(),
            merged_props(old(self).properties, r, final(self).properties),
            final(self).address == old(self).address,
            final(self).state == old(self).state,
            final(self).characteristics == old(self).characteristics,
            final(self).remote == old(self).remote,
            final(self).subscriptions == old(self).subscriptions,
            final(self).calls == old(self).calls,
            final(self).pending == old(self).pending,
            final(self).received == old(self).received,
    {
        self.properties.merge_report(r);
    }

    /// Places one characteristic in the remote device's own table, where
    /// discovery will find it; an entry with the same identity is
    /// replaced.
    pub fn add_remote_characteristic(&mut self, c: Characteristic)
        requires
            old(self).wf(),
        ensures
            final(self).wf(),
            forall|d: Characteristic|
                #[trigger] final(self).remote@.contains(d) <==> (d == c || (old(
                    self,
                ).remote@.contains(d) && !key_eq(d, c))),
            final(self).address == old(self).address,
            final(self).properties == old(self).properties,
            final(self).state == old(self).state,
            final(self).characteristics == old(self).characteristics,
            final(self).subscriptions == old(self).subscriptions,
            final(self).calls == old(self).calls,
            final(self).pending == old(self).pending,
            final(self).received == old(self).received,
    {
        upsert_sorted(&mut self.remote, c);
    }
}

/// The window predicate of one discovery: whether a characteristic's
/// start handle lies in the inclusive window.
pub open spec fn window_pred(start: u16, end: u16) -> spec_fn(Characteristic) -> bool {
    |c: Characteristic| in_window(c, start, end)
}

/// Filtering keeps a strictly identity-sorted sequence strictly sorted,
/// and yields only elements of the original.
proof fn lemma_filter_sorted(s: Seq<Characteristic>, pred: spec_fn(Characteristic) -> bool)
    requires
        strictly_sorted(s),
    ensures
        strictly_sorted(s.filter(pred)),
        forall|i: int| 0 <= i < s.filter(pred).len() ==> s.contains(#[trigger] s.filter(pred)[i]),
    decreases s.len(),
{
    reveal(Seq::filter);
    let t = s.filter(pred);
    if s.len() > 0 {
        let d = s.drop_last();
        let t1 = d.filter(pred);
        assert(strictly_sorted(d));
        lemma_filter_sorted(d, pred);
        assert forall|i: int| 0 <= i < t1.len() implies s.contains(t1[i]) by {
            assert(d.contains(t1[i]));
            let k = choose|k: int| 0 <= k < d.len() && d[k] == t1[i];
            assert(s[k] == t1[i]);
            assert(s.contains(t1[i]));
        }
        if pred(s.last()) {
            assert(t == t1.push(s.last()));
            assert forall|p: int, q: int| 0 <= p < q < t.len() implies key_lt(t[p], t[q]) by {
                if q == t.len() - 1 {
                    assert(d.contains(t1[p]));
                    let k = choose|k: int| 0 <= k < d.len() && d[k] == t1[p];
                    assert(s[k] == t[p]);
                    assert(key_lt(s[k], s[s.len() - 1]));
                }
            }
            assert forall|i: int| 0 <= i < t.len() implies s.contains(t[i]) by {
                if i == t.len() - 1 {
                    assert(s[s.len() - 1] == t[i]);
                    assert(s.contains(t[i]));
                }
            }
        } else {
            assert(t == t1);
        }
    }
}

/// One step of merging a discovery result into the cache: upserting entry
/// `j` of the found list extends the membership account from the first
/// `j` found entries to the first `j + 1`.
proof fn lemma_merge_step(
    cache_prev: Seq<Characteristic>,
    cache_new: Seq<Characteristic>,
    cache0: Seq<Characteristic>,
    f: Seq<Characteristic>,
    j: int,
)
    requires
        0 <= j < f.len(),
        strictly_sorted(f),
        forall|d: Characteristic|
            #[trigger] cache_prev.contains(d) <==> (f.take(j).contains(d) || (cache0.contains(d)
                && !has_key(f.take(j), d))),
        forall|d: Characteristic|
            #[trigger] cache_new.contains(d) <==> (d == f[j] || (cache_prev.contains(d) && !key_eq(
                d,
                f[j],
            ))),
    ensures
        forall|d: Characteristic|
            #[trigger] cache_new.contains(d) <==> (f.take(j + 1).contains(d) || (cache0.contains(d)
                && !has_key(f.take(j + 1), d))),
{
    assert forall|d: Characteristic| #[trigger] cache_new.contains(d) implies (f.take(
        j + 1,
    ).contains(d) || (cache0.contains(d) && !has_key(f.take(j + 1), d))) by {
        if d == f[j] {
            assert(f.take(j + 1)[j] == d);
            assert(f.take(j + 1).contains(d));
        } else {
            if f.take(j).contains(d) {
                let k = choose|k: int| 0 <= k < j && f.take(j)[k] == d;
                assert(f.take(j + 1)[k] == d);
                assert(f.take(j + 1).contains(d));
            } else {
                assert(!has_key(f.take(j + 1), d)) by {
                    if has_key(f.take(j + 1), d) {
                        let k = choose|k: int|
                            0 <= k < j + 1 && #[trigger] key_eq(f.take(j + 1)[k], d);
                        if k < j {
                            assert(f.take(j)[k] == f.take(j + 1)[k]);
                            assert(has_key(f.take(j), d));
                        } else {
                            lemma_key_order(f[j], d, d);
                        }
                    }
                }
            }
        }
    }
    assert forall|d: Characteristic| (f.take(j + 1).contains(d) || (cache0.contains(d) && !has_key(
        f.take(j + 1),
        d,
    ))) implies #[trigger] cache_new.contains(d) by {
        if f.take(j + 1).contains(d) {
            let k = choose|k: int| 0 <= k < j + 1 && #[trigger] f.take(j + 1)[k] == d;
            if k < j {
                assert(f.take(j)[k] == d);
                assert(f.take(j).contains(d));
                lemma_key_order(f[k], f[j], f[j]);
            }
        } else {
            assert(!has_key(f.take(j), d)) by {
                if has_key(f.take(j), d) {
                    let k = choose|k: int| 0 <= k < j && #[trigger] key_eq(f.take(j)[k], d);
                    assert(f.take(j + 1)[k] == f.take(j)[k]);
                    assert(has_key(f.take(j + 1), d));
                }
            }
            assert(cache_prev.contains(d));
            assert(!key_eq(d, f[j])) by {
                if key_eq(d, f[j]) {
                    lemma_key_order(d, f[j], f[j]);
                    assert(key_eq(f.take(j + 1)[j], d));
                    assert(has_key(f.take(j + 1), d));
                }
            }
        }
    }
}

impl Peripheral {
    /// Discovers the characteristics whose start handle lies in the
    /// inclusive window, as the remote device's table reports them. The
    /// result is exactly the in-window slice of that table, in identity
    /// order, and it is merged into the cached characteristic set: an
    /// already-known identity is updated in place, a new one enters at its
    /// sorted position, and entries outside the window are kept. Rejected
    /// with no I/O while not connected.
    #[verifier::loop_isolation(false)]
    pub fn discover_characteristics_in_range(&mut self, start: u16, end: u16) -> (r: Result<
        Vec<Characteristic>,
        Error,
    >)
        requires
            old(self).wf(),
        ensures
            final(self).wf(),
            old(self).state != ConnectionState::Connected ==> r == Err::<Vec<Characteristic>, Error>(
                Error::NotConnected,
            ) && *final(self) == *old(self),
            old(self).state == ConnectionState::Connected ==> {
                &&& final(self).calls@ == old(self).calls@.push(TransportCall::Discover(start, end))
                &&& (r matches Ok(found) && found@ == old(self).remote@.filter(
                    window_pred(start, end),
                ))
                &&& forall|d: Characteristic|
                    #[trigger] final(self).characteristics@.contains(d) <==> (old(
                        self,
                    ).remote@.filter(window_pred(start, end)).contains(d) || (old(
                        self,
                    ).characteristics@.contains(d) && !has_key(
                        old(self).remote@.filter(window_pred(start, end)),
                        d,
                    )))
                &&& final(self).address == old(self).address
                &&& final(self).properties == old(self).properties
                &&& final(self).state == old(self).state
                &&& final(self).remote == old(self).remote
                &&& final(self).subscriptions == old(self).subscriptions
                &&& final(self).pending == old(self).pending
                &&& final(self).received == old(self).received
            },
    {
        if self.state != ConnectionState::Connected {
            return Err(Error::NotConnected);
        }
        self.calls.push(TransportCall::Discover(start, end));
        let ghost pred = window_pred(start, end);
        let mut found: Vec<Characteristic> = Vec::new();
        let n = self.remote.len();
        let mut i: usize = 0;
        while i < n
            invariant
                i <= n,
                found@ == self.remote@.take(i as int).filter(pred),
            decreases n - i,
        {
            let c = self.remote[i];
            proof {
                reveal(Seq::filter);
                assert(self.remote@.take(i + 1).drop_last() =~= self.remote@.take(i as int));
                assert(self.remote@.take(i + 1).last() == self.remote@[i as int]);
            }
            if start <= c.start_handle && c.start_handle <= end {
                found.push(c);
            }
            proof {
                assert(found@ == self.remote@.take(i + 1).filter(pred));
            }
            i = i + 1;
        }
        proof {
            assert(self.remote@.take(n as int) =~= self.remote@);
            lemma_filter_sorted(self.remote@, pred);
        }
        let ghost f = found@;
        let ghost cache0 = self.characteristics@;
        let m = found.len();
        let mut j: usize = 0;
        while j < m
            invariant
                j <= m,
                found@ == f,
                strictly_sorted(self.characteristics@),
                forall|d: Characteristic|
                    #[trigger] self.characteristics@.contains(d) <==> (f.take(j as int).contains(d)
                        || (cache0.contains(d) && !has_key(f.take(j as int), d))),
                self.address == old(self).address,
                self.properties == old(self).properties,
                self.state == old(self).state,
                self.remote == old(self).remote,
                self.subscriptions == old(self).subscriptions,
                self.calls@ == old(self).calls@.push(TransportCall::Discover(start, end)),
                self.pending == old(self).pending,
                self.received == old(self).received,
            decreases m - j,
        {
            let c = found[j];
            let ghost prev = self.characteristics@;
            upsert_sorted(&mut self.characteristics, c);
            proof {
                lemma_merge_step(prev, self.characteristics@, cache0, f, j as int);
            }
            j = j + 1;
        }
        proof {
            assert(f.take(m as int) =~= f);
        }
        Ok(found)
    }

    /// Discovers all characteristics of the device over the full handle
    /// range, merging them into the cached set as the windowed discovery
    /// does. Rejected with no I/O while not connected.
    pub fn discover_characteristics(&mut self) -> (r: Result<Vec<Characteristic>, Error>)
        requires
            old(self).wf(),
        ensures
            final(self).wf(),
            old(self).state != ConnectionState::Connected ==> r == Err::<Vec<Characteristic>, Error>(
                Error::NotConnected,
            ) && *final(self) == *old(self),
            old(self).state == ConnectionState::Connected ==> {
                &&& final(self).calls@ == old(self).calls@.push(
                    TransportCall::Discover(0x0001, 0xFFFF),
                )
                &&& (r matches Ok(found) && found@ == old(self).remote@.filter(
                    window_pred(0x0001, 0xFFFF),
                ))
                &&& forall|d: Characteristic|
                    #[trigger] final(self).characteristics@.contains(d) <==> (old(
                        self,
                    ).remote@.filter(window_pred(0x0001, 0xFFFF)).contains(d) || (old(
                        self,
                    ).characteristics@.contains(d) && !has_key(
                        old(self).remote@.filter(window_pred(0x0001, 0xFFFF)),
                        d,
                    )))
                &&& final(self).address == old(self).address
                &&& final(self).properties == old(self).properties
                &&& final(self).state == old(self).state
                &&& final(self).remote == old(self).remote
                &&& final(self).subscriptions == old(self).subscriptions
                &&& final(self).pending == old(self).pending
                &&& final(self).received == old(self).received
            },
    {
        self.discover_characteristics_in_range(0x0001, 0xFFFF)
    }
}

/// The position of the given handle in a vector of handles, if present.
fn index_of_handle(v: &Vec<u16>, h: u16) -> (r: Option<usize>)
    ensures
        match r {
            Some(i) => i < v@.len() && v@[i as int] == h,
            None => !v@.contains(h),
        },
{
    let mut i: usize = 0;
    while i < v.len()
        invariant
            i <= v@.len(),
            forall|j: int| 0 <= j < i ==> v@[j] != h,
        decreases v@.len() - i,
    {
        if v[i] == h {
            return Some(i);
        }
        i = i + 1;
    }
    None
}

/// Removing one entry from a duplicate-free sequence of handles removes
/// exactly that handle and keeps every other.
proof fn lemma_remove_at(s: Seq<u16>, i: int)
    requires
        no_dups(s),
        0 <= i < s.len(),
    ensures
        no_dups(s.remove(i)),
        !s.remove(i).contains(s[i]),
        forall|x: u16| x != s[i] ==> (s.remove(i).contains(x) <==> s.contains(x)),
{
    let t = s.remove(i);
    assert forall|x: u16| t.contains(x) implies (x == s[i] ==> false) && s.contains(x) by {
        let k = choose|k: int| 0 <= k < t.len() && t[k] == x;
        if k < i {
            assert(s[k] == x);
        } else {
            assert(s[k + 1] == x);
        }
    }
    assert forall|x: u16| x != s[i] && s.contains(x) implies t.contains(x) by {
        let k = choose|k: int| 0 <= k < s.len() && s[k] == x;
        if k < i {
            assert(t[k] == x);
        } else {
            assert(t[k - 1] == x);
        }
    }
}

/// Whether a vector of handles holds the given handle.
fn contains_handle(v: &Vec<u16>, h: u16) -> (r: bool)
    ensures
        r == v@.contains(h),
{
    let mut i: usize = 0;
    while i < v.len()
        invariant
            i <= v@.len(),
            forall|j: int| 0 <= j < i ==> v@[j] != h,
        decreases v@.len() - i,
    {
        if v[i] == h {
            return true;
        }
        i = i + 1;
    }
    false
}

} // verus!
