//! The central role: the scan lifecycle and the registry of discovered
//! peripherals, fed by advertising reports and handing out snapshots.

use vstd::prelude::*;

use crate::bdaddr::BDAddr;
use crate::central_event::CentralEvent;
use crate::peripheral_properties::initial_props;
use crate::peripheral_properties::merged_props;
use crate::peripheral_properties::props_eqv;
use crate::peripheral_properties::AdvertisingReport;
use crate::peripheral_properties::PeripheralProperties;
use crate::Error;

verus! {

/// Whether some registry entry carries the given address.
pub open spec fn has_addr(s: Seq<PeripheralProperties>, a: BDAddr) -> bool {
    exists|i: int| 0 <= i < s.len() && s[i].address.address@ == a.address@
}

/// The client side of device discovery: whether a scan is running and in
/// which mode, whether duplicate advertisements update rather than
/// re-discover, and the registry of every peripheral seen so far, keyed by
/// address. The registry is mutated only by merging advertising reports;
/// readers receive independent snapshots.
#[derive(Debug)]
pub struct Central {
    /// Whether a scan is currently running.
    pub scanning: bool,
    /// Whether the next scan is active (notifying advertisers) rather than
    /// passive; active by default.
    pub active: bool,
    /// Whether repeated advertisements from a known address update the
    /// existing entry and emit an update event, instead of re-emitting a
    /// discovery event; on by default.
    pub filter_duplicates: bool,
    /// Every peripheral seen so far, one entry per address; entries are
    /// not pruned when a device stops advertising.
    pub peripherals: Vec<PeripheralProperties>,
}

impl Central {
    /// The structural invariant: one registry entry per address.
    pub open spec fn wf(&self) -> bool {
        forall|i: int, j: int|
            0 <= i < j < self.peripherals@.len() ==> self.peripherals@[i].address.address@
                != self.peripherals@[j].address.address@
    }

    /// A fresh central: not scanning, active scan mode, duplicate
    /// filtering on, nothing discovered.
    pub fn new() -> (c: Central)
        ensures
            c.wf(),
            !c.scanning,
            c.active,
            c.filter_duplicates,
            c.peripherals@ == Seq::<PeripheralProperties>::empty(),
    {
        Central { scanning: false, active: true, filter_duplicates: true, peripherals: Vec::new() }
    }

    /// Starts a scan. Idempotent: starting an already-active scan is a
    /// no-op, not an error, and the modeled transport never rejects the
    /// operation, so success is owed on every input.
    pub fn start_scan(&mut self) -> (r: Result<(), Error>)
        requires
            old(self).wf(),
        ensures
            final(self).wf(),
            r == Ok::<(), Error>(()),
            final(self).scanning,
            final(self).active == old(self).active,
            final(self).filter_duplicates == old(self).filter_duplicates,
            final(self).peripherals == old(self).peripherals,
    {
        self.scanning = true;
        Ok(())
    }

    /// Stops a scan. Idempotent: stopping an inactive scan is a no-op, not
    /// an error.
    pub fn stop_scan(&mut self) -> (r: Result<(), Error>)
        requires
            old(self).wf(),
        ensures
            final(self).wf(),
            r == Ok::<(), Error>(()),
            !final(self).scanning,
            final(self).active == old(self).active,
            final(self).filter_duplicates == old(self).filter_duplicates,
            final(self).peripherals == old(self).peripherals,
    {
        self.scanning = false;
        Ok(())
    }

    /// Selects active or passive mode for the next scan start; an
    /// in-progress scan is not restarted.
    pub fn active(&mut self, enabled: bool)
        requires
            old(self).wf(),
        ensures
            final(self).wf(),
            final(self).active == enabled,
            final(self).scanning == old(self).scanning,
            final(self).filter_duplicates == old(self).filter_duplicates,
            final(self).peripherals == old(self).peripherals,
    {
        self.active = enabled;
    }

    /// Selects whether repeated advertisements from a known address update
    /// the existing entry rather than re-announce a discovery.
    pub fn filter_duplicates(&mut self, enabled: bool)
        requires
            old(self).wf(),
        ensures
            final(self).wf(),
            final(self).filter_duplicates == enabled,
            final(self).scanning == old(self).scanning,
            final(self).active == old(self).active,
            final(self).peripherals == old(self).peripherals,
    {
        self.filter_duplicates = enabled;
    }

    /// Feeds one raw advertising report into the registry and says which
    /// event to announce. A report from a new address creates the entry
    /// and announces a discovery; a report from a known address merges
    /// into its entry, and announces an update when duplicate filtering is
    /// on, a discovery again when it is off.
    pub fn deliver_report(&mut self, r: AdvertisingReport) -> (ev: CentralEvent)
        requires
            old(self).wf(),
        ensures
            final(self).wf(),
            final(self).scanning == old(self).scanning,
            final(self).active == old(self).active,
            final(self).filter_duplicates == old(self).filter_duplicates,
            !has_addr(old(self).peripherals@, r.address) ==> {
                &&& final(self).peripherals@.len() == old(self).peripherals@.len() + 1
                &&& final(self).peripherals@.subrange(0, old(self).peripherals@.len() as int)
                    == old(self).peripherals@
                &&& initial_props(r, final(self).peripherals@.last())
                &&& ev == CentralEvent::DeviceDiscovered(r.address)
            },
            has_addr(old(self).peripherals@, r.address) ==> {
                &&& final(self).peripherals@.len() == old(self).peripherals@.len()
                &&& exists|i: int|
                    0 <= i < old(self).peripherals@.len()
                        && (#[trigger] old(self).peripherals@[i]).address.address@
                        == r.address.address@
                        && merged_props(old(self).peripherals@[i], r, final(self).peripherals@[i])
                        && (forall|j: int|
                        0 <= j < old(self).peripherals@.len() && j != i
                            ==> final(self).peripherals@[j] == old(self).peripherals@[j])
                &&& ev == (if old(self).filter_duplicates {
                    CentralEvent::DeviceUpdated(r.address)
                } else {
                    CentralEvent::DeviceDiscovered(r.address)
                })
            },
    {
        let address = r.address;
        match find_index(&self.peripherals, address) {
            Some(i) => {
                let ghost s0 = self.peripherals@;
                let mut p = self.peripherals.remove(i);
                p.merge_report(r);
                let ghost pm = p;
                self.peripherals.insert(i, p);
                proof {
                    assert(self.peripherals@ =~= s0.update(i as int, pm));
                    assert forall|a: int, b: int|
                        0 <= a < b < self.peripherals@.len() implies self.peripherals@[a].address.address@
                        != self.peripherals@[b].address.address@ by {
                        assert(self.peripherals@[a].address == s0[a].address);
                        assert(self.peripherals@[b].address == s0[b].address);
                    }
                }
                if self.filter_duplicates {
                    CentralEvent::DeviceUpdated(address)
                } else {
                    CentralEvent::DeviceDiscovered(address)
                }
            },
            None => {
                let ghost s0 = self.peripherals@;
                self.peripherals.push(PeripheralProperties::from_report(r));
                proof {
                    assert(self.peripherals@.subrange(0, s0.len() as int) =~= s0);
                }
                CentralEvent::DeviceDiscovered(address)
            },
        }
    }

    /// Returns an independent snapshot of every peripheral seen so far,
    /// including ones that are no longer advertising.
    #[verifier::loop_isolation(false)]
    pub fn peripherals(&self) -> (r: Vec<PeripheralProperties>)
        ensures
            r@.len() == self.peripherals@.len(),
            forall|i: int| 0 <= i < r@.len() ==> props_eqv(#[trigger] r@[i], self.peripherals@[i]),
    {
        let mut out: Vec<PeripheralProperties> = Vec::new();
        let n = self.peripherals.len();
        let mut i: usize = 0;
        while i < n
            invariant
                i <= n,
                out@.len() == i,
                forall|k: int| 0 <= k < i ==> props_eqv(#[trigger] out@[k], self.peripherals@[k]),
            decreases n - i,
        {
            out.push(self.peripherals[i].snapshot());
            i = i + 1;
        }
        out
    }

    /// Returns a snapshot of the peripheral with the given address if it
    /// has been discovered, and no value otherwise — never an error.
    pub fn peripheral(&self, address: BDAddr) -> (r: Option<PeripheralProperties>)
        ensures
            match r {
                Some(p) => exists|i: int|
                    0 <= i < self.peripherals@.len() && #[trigger] self.peripherals@[i].address.address@
                        == address.address@ && props_eqv(p, self.peripherals@[i]),
                None => !has_addr(self.peripherals@, address),
            },
    {
        match find_index(&self.peripherals, address) {
            Some(i) => Some(self.peripherals[i].snapshot()),
            None => None,
        }
    }
}

/// The position of the registry entry with the given address, if any.
fn find_index(v: &Vec<PeripheralProperties>, address: BDAddr) -> (r: Option<usize>)
    ensures
        match r {
            Some(i) => i < v@.len() && v@[i as int].address.address@ == address.address@,
            None => forall|j: int|
                0 <= j < v@.len() ==> v@[j].address.address@ != address.address@,
        },
{
    let mut i: usize = 0;
    while i < v.len()
        invariant
            i <= v@.len(),
            forall|j: int| 0 <= j < i ==> v@[j].address.address@ != address.address@,
        decreases v@.len() - i,
    {
        if v[i].address == address {
            return Some(i);
        }
        i = i + 1;
    }
    None
}

} // verus!
