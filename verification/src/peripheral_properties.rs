//! Advertising-derived snapshots of a remote device, and the merge of
//! newer advertising reports into an existing snapshot.

use vstd::prelude::*;
use vstd::slice::slice_to_vec;

use crate::address_type::AddressType;
use crate::bdaddr::BDAddr;

verus! {

/// Whether two snapshots carry the same information: every field equal,
/// with the name and the manufacturer payload compared by contents.
pub open spec fn props_eqv(a: PeripheralProperties, b: PeripheralProperties) -> bool {
    &&& a.address == b.address
    &&& a.address_type == b.address_type
    &&& match (a.local_name, b.local_name) {
        (Some(x), Some(y)) => x@ == y@,
        (None, None) => true,
        _ => false,
    }
    &&& a.tx_power_level == b.tx_power_level
    &&& match (a.manufacturer_data, b.manufacturer_data) {
        (Some(x), Some(y)) => x@ == y@,
        (None, None) => true,
        _ => false,
    }
    &&& a.discovery_count == b.discovery_count
    &&& a.has_scan_response == b.has_scan_response
}

/// What a first advertising report leaves in the registry: every field
/// taken from the report, with one report counted.
pub open spec fn initial_props(r: AdvertisingReport, p: PeripheralProperties) -> bool {
    &&& p.address == r.address
    &&& p.address_type == r.address_type
    &&& p.local_name == r.local_name
    &&& p.tx_power_level == r.tx_power_level
    &&& p.manufacturer_data == r.manufacturer_data
    &&& p.discovery_count == 1
    &&& p.has_scan_response == r.is_scan_response
}

/// What merging report `r` into snapshot `p0` yields: fields present in
/// the report overwrite, absent fields keep their prior value, the
/// discovery count strictly increases (saturating at the largest 32-bit
/// count), and a scan response once seen is never forgotten.
pub open spec fn merged_props(
    p0: PeripheralProperties,
    r: AdvertisingReport,
    p1: PeripheralProperties,
) -> bool {
    &&& p1.address == p0.address
    &&& p1.address_type == r.address_type
    &&& p1.local_name == (if r.local_name is Some {
        r.local_name
    } else {
        p0.local_name
    })
    &&& p1.tx_power_level == (if r.tx_power_level is Some {
        r.tx_power_level
    } else {
        p0.tx_power_level
    })
    &&& p1.manufacturer_data == (if r.manufacturer_data is Some {
        r.manufacturer_data
    } else {
        p0.manufacturer_data
    })
    &&& p1.discovery_count == (if p0.discovery_count < u32::MAX {
        p0.discovery_count + 1
    } else {
        u32::MAX as int
    })
    &&& p1.has_scan_response == (p0.has_scan_response || r.is_scan_response)
}

/// One raw advertising report as the underlying transport delivers it:
/// the advertiser's address and address kind, whatever optional fields the
/// report carried, and whether it was a scan response.
#[derive(Debug, Clone)]
pub struct AdvertisingReport {
    /// The address of the advertising device.
    pub address: BDAddr,
    /// The kind of that address (public or random).
    pub address_type: AddressType,
    /// The advertised local name, when the report carried one.
    pub local_name: Option<String>,
    /// The advertised transmission power level, when the report carried one.
    pub tx_power_level: Option<i8>,
    /// Unstructured manufacturer data, when the report carried any.
    pub manufacturer_data: Option<Vec<u8>>,
    /// Whether this report is a scan response.
    pub is_scan_response: bool,
}

/// The properties of a peripheral, as determined by the advertising reports
/// received for it. A snapshot is mutated only by merging newer reports
/// into it: fields present in the new report overwrite, absent fields keep
/// their prior value, and the discovery count grows with every merge.
#[derive(Debug, Clone)]
pub struct PeripheralProperties {
    /// The address of this peripheral.
    pub address: BDAddr,
    /// The kind of address (either random or public).
    pub address_type: AddressType,
    /// The local name. This is generally a human-readable string that
    /// identifies the kind of device.
    pub local_name: Option<String>,
    /// The transmission power level for the device.
    pub tx_power_level: Option<i8>,
    /// Unstructured data set by the device manufacturer.
    pub manufacturer_data: Option<Vec<u8>>,
    /// Number of advertising reports seen for this device.
    pub discovery_count: u32,
    /// Whether a scan response has been seen for this device.
    pub has_scan_response: bool,
}

/// Law: merging an advertising report preserves every optional field the
/// report leaves absent, overwrites every field it carries, and strictly
/// increases the discovery count — for every count below the largest value
/// a 32-bit counter can hold, at which the count saturates.
pub proof fn lemma_merge_law(
    p0: PeripheralProperties,
    r: AdvertisingReport,
    p1: PeripheralProperties,
)
    requires
        merged_props(p0, r, p1),
    ensures
        r.local_name is None ==> p1.local_name == p0.local_name,
        r.local_name is Some ==> p1.local_name == r.local_name,
        r.tx_power_level is None ==> p1.tx_power_level == p0.tx_power_level,
        r.tx_power_level is Some ==> p1.tx_power_level == r.tx_power_level,
        r.manufacturer_data is None ==> p1.manufacturer_data == p0.manufacturer_data,
        r.manufacturer_data is Some ==> p1.manufacturer_data == r.manufacturer_data,
        p0.discovery_count < u32::MAX ==> p1.discovery_count > p0.discovery_count,
        p0.has_scan_response ==> p1.has_scan_response,
{
}

impl Default for PeripheralProperties {
    /// The default snapshot: the all-zero address, a public address kind,
    /// no optional field, no report seen.
    fn default() -> (r: Self)
        ensures
            r.address.address@ =~= Seq::new(6, |i: int| 0u8),
            r.address_type == AddressType::Public,
            r.local_name is None,
            r.tx_power_level is None,
            r.manufacturer_data is None,
            r.discovery_count == 0,
            !r.has_scan_response,
    {
        PeripheralProperties {
            address: BDAddr { address: [0u8; 6] },
            address_type: AddressType::Public,
            local_name: None,
            tx_power_level: None,
            manufacturer_data: None,
            discovery_count: 0,
            has_scan_response: false,
        }
    }
}

impl PeripheralProperties {
    /// The snapshot a first advertising report produces: every field taken
    /// from the report, with one report counted.
    pub fn from_report(r: AdvertisingReport) -> (p: PeripheralProperties)
        ensures
            initial_props(r, p),
    {
        PeripheralProperties {
            address: r.address,
            address_type: r.address_type,
            local_name: r.local_name,
            tx_power_level: r.tx_power_level,
            manufacturer_data: r.manufacturer_data,
            discovery_count: 1,
            has_scan_response: r.is_scan_response,
        }
    }

    /// An independent copy of this snapshot, so that a caller's view
    /// cannot be invalidated by later merges into the live registry.
    pub fn snapshot(&self) -> (r: PeripheralProperties)
        ensures
            props_eqv(r, *self),
    {
        PeripheralProperties {
            address: self.address,
            address_type: self.address_type,
            local_name: match &self.local_name {
                Some(n) => Some(n.clone()),
                None => None,
            },
            tx_power_level: self.tx_power_level,
            manufacturer_data: match &self.manufacturer_data {
                Some(d) => Some(slice_to_vec(d.as_slice())),
                None => None,
            },
            discovery_count: self.discovery_count,
            has_scan_response: self.has_scan_response,
        }
    }

    /// Merges a newer advertising report into this snapshot.
    ///
    /// Law: fields present in the report overwrite the snapshot's, fields
    /// absent from the report keep their prior value, the discovery count
    /// strictly increases with every merge (until it saturates at the
    /// largest count a 32-bit counter can hold), and a scan response once
    /// seen is never forgotten. The address is not touched: a report is
    /// merged only into the snapshot of its own device.
    pub fn merge_report(&mut self, r: AdvertisingReport)
        ensures
            merged_props(*old(self), r, *final(self)),
    {
        self.address_type = r.address_type;
        if r.local_name.is_some() {
            self.local_name = r.local_name;
        }
        if r.tx_power_level.is_some() {
            self.tx_power_level = r.tx_power_level;
        }
        if r.manufacturer_data.is_some() {
            self.manufacturer_data = r.manufacturer_data;
        }
        if self.discovery_count < u32::MAX {
            self.discovery_count = self.discovery_count + 1;
        }
        self.has_scan_response = self.has_scan_response || r.is_scan_response;
    }
}

} // verus!
