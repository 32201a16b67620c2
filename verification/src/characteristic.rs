//! One GATT characteristic exposed by a remote device, and the total order
//! that keeps discovered characteristics in a handle-sorted set.

use vstd::prelude::*;
use vstd::string::StringExecFns;

use crate::char_prop_flags::CharPropFlags;
use crate::text::hex2;
use crate::text::hex4;
use crate::text::push_hex_byte;
use crate::text::push_hex_u16;
use crate::uuid::uuid_eq;
use crate::uuid::uuid_lt;
use crate::uuid::uuid_render;
use crate::uuid::lemma_uuid_order;
use crate::uuid::UUID;

verus! {

/// A Bluetooth characteristic: a handle range, the value handle, the UUID
/// that identifies its behavior, and the set of operations it supports.
/// Handles are opaque server-assigned integers; this layer does not
/// validate their ranges for overlap.
#[derive(Debug, Clone, Copy, Hash, Eq, PartialOrd, Ord)]
pub struct Characteristic {
    /// The start of the handle range that contains this characteristic.
    pub start_handle: u16,
    /// The end of the handle range that contains this characteristic.
    pub end_handle: u16,
    /// The value handle of the characteristic.
    pub value_handle: u16,
    /// The UUID for this characteristic. This uniquely identifies its
    /// behavior.
    pub uuid: UUID,
    /// The set of properties for this characteristic. An operation that is
    /// not supported by the characteristic (for example subscribing to one
    /// without the NOTIFY or INDICATE flag) fails without any I/O.
    pub properties: CharPropFlags,
}

impl PartialEq for Characteristic {
    fn eq(&self, o: &Characteristic) -> (r: bool) {
        self.start_handle == o.start_handle && self.end_handle == o.end_handle
            && self.value_handle == o.value_handle && self.uuid == o.uuid
            && self.properties.bits == o.properties.bits
    }
}

impl vstd::std_specs::cmp::PartialEqSpecImpl for Characteristic {
    open spec fn obeys_eq_spec() -> bool {
        true
    }

    open spec fn eq_spec(&self, o: &Characteristic) -> bool {
        char_eq(*self, *o)
    }
}

/// Whether two characteristics have the same identity: the same handles and
/// the same UUID. Re-discovery matches cached entries by this key, so that
/// a characteristic reported again with changed property flags replaces its
/// old entry instead of standing beside it.
pub open spec fn key_eq(a: Characteristic, b: Characteristic) -> bool {
    &&& a.start_handle == b.start_handle
    &&& a.end_handle == b.end_handle
    &&& a.value_handle == b.value_handle
    &&& uuid_eq(a.uuid, b.uuid)
}

/// The strict order on characteristic identities: start handle, then end
/// handle, then value handle, then UUID, lexicographically.
pub open spec fn key_lt(a: Characteristic, b: Characteristic) -> bool {
    if a.start_handle != b.start_handle {
        a.start_handle < b.start_handle
    } else if a.end_handle != b.end_handle {
        a.end_handle < b.end_handle
    } else if a.value_handle != b.value_handle {
        a.value_handle < b.value_handle
    } else {
        uuid_lt(a.uuid, b.uuid)
    }
}

/// Whether two characteristics are equal in full: the same identity and the
/// same property mask.
pub open spec fn char_eq(a: Characteristic, b: Characteristic) -> bool {
    key_eq(a, b) && a.properties.bits == b.properties.bits
}

/// The strict total order on characteristics: start handle, then end
/// handle, then value handle, then UUID, then property mask,
/// lexicographically over that tuple.
pub open spec fn char_lt(a: Characteristic, b: Characteristic) -> bool {
    key_lt(a, b) || (key_eq(a, b) && a.properties.bits < b.properties.bits)
}

/// Law: the characteristic order is a strict total order. It never orders
/// equal characteristics, it is asymmetric and transitive, and two
/// characteristics that neither orders before the other are equal in full,
/// so sorting admits ties only on full equality.
pub proof fn lemma_characteristic_order(a: Characteristic, b: Characteristic, c: Characteristic)
    ensures
        char_eq(a, b) ==> !char_lt(a, b),
        char_lt(a, b) ==> !char_lt(b, a),
        char_lt(a, b) && char_lt(b, c) ==> char_lt(a, c),
        !char_lt(a, b) && !char_lt(b, a) ==> char_eq(a, b),
{
    lemma_uuid_order(a.uuid, b.uuid, c.uuid);
    lemma_uuid_order(b.uuid, a.uuid, c.uuid);
}

/// Whether a sequence of characteristics is strictly sorted by identity,
/// which also makes every identity in it unique.
pub open spec fn strictly_sorted(s: Seq<Characteristic>) -> bool {
    forall|i: int, j: int| 0 <= i < j < s.len() ==> key_lt(s[i], s[j])
}

/// The identity order is a strict total order, and identity equality is a
/// congruence for it.
pub proof fn lemma_key_order(a: Characteristic, b: Characteristic, c: Characteristic)
    ensures
        key_eq(a, b) ==> !key_lt(a, b),
        key_eq(a, b) ==> key_eq(b, a),
        key_lt(a, b) ==> !key_lt(b, a),
        key_lt(a, b) && key_lt(b, c) ==> key_lt(a, c),
        !key_lt(a, b) && !key_lt(b, a) ==> key_eq(a, b),
        key_eq(a, b) && key_eq(b, c) ==> key_eq(a, c),
        key_eq(a, b) && key_lt(b, c) ==> key_lt(a, c),
        key_lt(a, b) && key_eq(b, c) ==> key_lt(a, c),
{
    lemma_uuid_order(a.uuid, b.uuid, c.uuid);
    lemma_uuid_order(b.uuid, a.uuid, c.uuid);
    lemma_uuid_order(a.uuid, c.uuid, b.uuid);
    lemma_uuid_order(c.uuid, b.uuid, a.uuid);
}

/// Replacing the entry whose identity `c` shares keeps a sorted vector
/// sorted, and swaps exactly that entry for `c`.
proof fn lemma_replace_at(s: Seq<Characteristic>, c: Characteristic, i: int)
    requires
        strictly_sorted(s),
        0 <= i < s.len(),
        key_eq(s[i], c),
    ensures
        strictly_sorted(s.update(i, c)),
        forall|d: Characteristic|
            #[trigger] s.update(i, c).contains(d) <==> (d == c || (s.contains(d) && !key_eq(d, c))),
{
    let t = s.update(i, c);
    assert forall|p: int, q: int| 0 <= p < q < t.len() implies key_lt(t[p], t[q]) by {
        if p == i {
            lemma_key_order(s[i], c, s[q]);
            lemma_key_order(c, s[i], s[q]);
        } else if q == i {
            lemma_key_order(s[p], s[i], c);
        }
    }
    assert forall|d: Characteristic| #[trigger] t.contains(d) implies (d == c || (s.contains(d)
        && !key_eq(d, c))) by {
        let idx = choose|k: int| 0 <= k < t.len() && t[k] == d;
        if idx != i {
            assert(s[idx] == d);
            assert(s.contains(d));
            if idx < i {
                lemma_key_order(s[idx], s[i], c);
                lemma_key_order(d, c, c);
            } else {
                lemma_key_order(c, s[i], s[idx]);
                lemma_key_order(s[i], c, s[idx]);
                lemma_key_order(c, d, d);
            }
        }
    }
    assert forall|d: Characteristic| (d == c || (s.contains(d) && !key_eq(d, c))) implies #[trigger]
        t.contains(d) by {
        if d == c {
            assert(t[i] == d);
        } else {
            let idx = choose|k: int| 0 <= k < s.len() && s[k] == d;
            if idx == i {
                lemma_key_order(s[i], c, c);
            } else {
                assert(t[idx] == d);
            }
        }
    }
}

/// Inserting `c` between the entries that order before it and those it
/// orders before keeps a sorted vector sorted, and adds exactly `c`.
proof fn lemma_insert_at(s: Seq<Characteristic>, c: Characteristic, i: int)
    requires
        strictly_sorted(s),
        0 <= i <= s.len(),
        forall|j: int| 0 <= j < i ==> key_lt(s[j], c),
        forall|j: int| i <= j < s.len() ==> key_lt(c, s[j]),
    ensures
        strictly_sorted(s.insert(i, c)),
        forall|d: Characteristic| #[trigger] s.insert(i, c).contains(d) <==> (d == c || s.contains(
            d,
        )),
        forall|d: Characteristic| #[trigger] s.contains(d) ==> !key_eq(d, c),
{
    let t = s.insert(i, c);
    assert forall|p: int, q: int| 0 <= p < q < t.len() implies key_lt(t[p], t[q]) by {
        if p < i && q == i {
        } else if p == i && q > i {
        } else if p < i && q > i {
            lemma_key_order(s[p], c, s[q - 1]);
        }
    }
    assert forall|d: Characteristic| #[trigger] t.contains(d) implies (d == c || s.contains(d)) by {
        let idx = choose|k: int| 0 <= k < t.len() && t[k] == d;
        if idx < i {
            assert(s[idx] == d);
            assert(s.contains(d));
        } else if idx > i {
            assert(s[idx - 1] == d);
            assert(s.contains(d));
        }
    }
    assert forall|d: Characteristic| (d == c || s.contains(d)) implies #[trigger] t.contains(d) by {
        if d == c {
            assert(t[i] == d);
        } else {
            let idx = choose|k: int| 0 <= k < s.len() && s[k] == d;
            if idx < i {
                assert(t[idx] == d);
            } else {
                assert(t[idx + 1] == d);
            }
        }
    }
    assert forall|d: Characteristic| #[trigger] s.contains(d) implies !key_eq(d, c) by {
        let idx = choose|k: int| 0 <= k < s.len() && s[k] == d;
        if idx < i {
            lemma_key_order(s[idx], c, c);
            lemma_key_order(d, c, c);
        } else {
            lemma_key_order(c, s[idx], s[idx]);
            lemma_key_order(c, d, d);
            lemma_key_order(d, c, c);
        }
    }
}

/// Merges one characteristic into a strictly identity-sorted vector: an
/// entry with the same identity is replaced by `c` (so re-discovery
/// updates rather than duplicates), any other characteristic enters at its
/// sorted position.
#[verifier::loop_isolation(false)]
pub fn upsert_sorted(v: &mut Vec<Characteristic>, c: Characteristic)
    requires
        strictly_sorted(old(v)@),
    ensures
        strictly_sorted(final(v)@),
        forall|d: Characteristic|
            #[trigger] final(v)@.contains(d) <==> (d == c || (old(v)@.contains(d) && !key_eq(
                d,
                c,
            ))),
        old(v)@.len() <= final(v)@.len() <= old(v)@.len() + 1,
{
    let ghost v0 = v@;
    let mut i: usize = 0;
    while i < v.len() && v[i].key_before(&c)
        invariant
            i <= v@.len(),
            v@ == v0,
            forall|j: int| 0 <= j < i ==> key_lt(v@[j], c),
        decreases v@.len() - i,
    {
        i = i + 1;
    }
    if i < v.len() && v[i].same_key(&c) {
        v.remove(i);
        v.insert(i, c);
        proof {
            assert(v@ =~= v0.update(i as int, c));
            lemma_replace_at(v0, c, i as int);
        }
    } else {
        proof {
            if i < v0.len() {
                lemma_key_order(v0[i as int], c, c);
                lemma_key_order(c, v0[i as int], c);
            }
            assert forall|j: int| i <= j < v0.len() implies key_lt(c, v0[j]) by {
                lemma_key_order(c, v0[i as int], v0[j]);
            }
            lemma_insert_at(v0, c, i as int);
        }
        v.insert(i, c);
        proof {
            assert(v@ =~= v0.insert(i as int, c));
        }
    }
}

/// The canonical text form of a characteristic: its handles and property
/// mask in hexadecimal, and its UUID.
pub open spec fn char_render(c: Characteristic) -> Seq<char> {
    "handle: 0x"@ + hex4(c.start_handle) + ", char properties: 0x"@ + hex2(c.properties.bits)
        + ", char value handle: 0x"@ + hex4(c.value_handle) + ", end handle: 0x"@ + hex4(
        c.end_handle,
    ) + ", uuid: "@ + uuid_render(c.uuid)
}

impl Characteristic {
    /// Whether this characteristic orders strictly before `other` in the
    /// handle-then-UUID-then-mask order.
    pub fn lt(&self, other: &Characteristic) -> (r: bool)
        ensures
            r == char_lt(*self, *other),
    {
        if self.start_handle != other.start_handle {
            return self.start_handle < other.start_handle;
        }
        if self.end_handle != other.end_handle {
            return self.end_handle < other.end_handle;
        }
        if self.value_handle != other.value_handle {
            return self.value_handle < other.value_handle;
        }
        if self.uuid.lt(&other.uuid) {
            return true;
        }
        if other.uuid.lt(&self.uuid) {
            return false;
        }
        proof {
            lemma_uuid_order(self.uuid, other.uuid, other.uuid);
        }
        self.properties.bits < other.properties.bits
    }

    /// Whether this characteristic's identity orders strictly before
    /// `other`'s: start handle, then end handle, then value handle, then
    /// UUID.
    pub fn key_before(&self, other: &Characteristic) -> (r: bool)
        ensures
            r == key_lt(*self, *other),
    {
        if self.start_handle != other.start_handle {
            return self.start_handle < other.start_handle;
        }
        if self.end_handle != other.end_handle {
            return self.end_handle < other.end_handle;
        }
        if self.value_handle != other.value_handle {
            return self.value_handle < other.value_handle;
        }
        self.uuid.lt(&other.uuid)
    }

    /// Whether this characteristic has the same identity (handles and UUID)
    /// as `other`, whatever their property masks.
    pub fn same_key(&self, other: &Characteristic) -> (r: bool)
        ensures
            r == key_eq(*self, *other),
    {
        self.start_handle == other.start_handle && self.end_handle == other.end_handle
            && self.value_handle == other.value_handle && self.uuid == other.uuid
    }

    /// Renders the canonical text form.
    pub fn to_str(&self) -> (r: String)
        ensures
            r@ == char_render(*self),
    {
        let mut s = String::from_str("handle: 0x");
        push_hex_u16(&mut s, self.start_handle);
        s.append(", char properties: 0x");
        push_hex_byte(&mut s, self.properties.bits);
        s.append(", char value handle: 0x");
        push_hex_u16(&mut s, self.value_handle);
        s.append(", end handle: 0x");
        push_hex_u16(&mut s, self.end_handle);
        s.append(", uuid: ");
        let u = self.uuid.to_str();
        s.append(u.as_str());
        s
    }
}

} // verus!
