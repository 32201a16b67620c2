//! Attribute type identifiers: 2-byte or 16-byte Bluetooth UUIDs.

use vstd::prelude::*;

use crate::text::push_char;
use crate::text::push_hex_byte;
use crate::text::render_rev;

verus! {

/// A Bluetooth UUID. These can either be 2 bytes or 16 bytes long. UUIDs
/// uniquely identify various objects in the Bluetooth universe.
///
/// The two length variants are not numerically comparable, so the total
/// order used for sorted containers is fixed here by design: the variant
/// tag is compared first (every 16-bit value orders before every 128-bit
/// value), then the payload (numerically for 16-bit values, and for
/// 128-bit values lexicographically from index 0 upward).
#[derive(Debug, Clone, Copy, Hash, Eq, PartialOrd, Ord)]
pub enum UUID {
    B16(u16),
    B128([u8; 16]),
}

impl PartialEq for UUID {
    fn eq(&self, o: &UUID) -> (r: bool) {
        match (*self, *o) {
            (UUID::B16(a), UUID::B16(b)) => a == b,
            (UUID::B128(x), UUID::B128(y)) => {
                let mut i: usize = 0;
                while i < 16
                    invariant
                        i <= 16,
                        uuid_eq(*self, *o) == (x@ == y@),
                        forall|j: int| 0 <= j < i ==> x@[j] == y@[j],
                    decreases 16 - i,
                {
                    if x[i] != y[i] {
                        proof {
                            assert(x@[i as int] != y@[i as int]);
                        }
                        return false;
                    }
                    i = i + 1;
                }
                proof {
                    assert(x@ =~= y@);
                }
                true
            },
            _ => false,
        }
    }
}

impl vstd::std_specs::cmp::PartialEqSpecImpl for UUID {
    open spec fn obeys_eq_spec() -> bool {
        true
    }

    open spec fn eq_spec(&self, o: &UUID) -> bool {
        uuid_eq(*self, *o)
    }
}

/// Whether two UUIDs are the same identifier: the same variant with the
/// same payload.
pub open spec fn uuid_eq(a: UUID, b: UUID) -> bool {
    match (a, b) {
        (UUID::B16(u), UUID::B16(v)) => u == v,
        (UUID::B128(x), UUID::B128(y)) => x@ == y@,
        _ => false,
    }
}

/// Lexicographic strict order on two equal-length byte sequences, decided
/// from position `i` upward.
pub open spec fn lex_lt_from(x: Seq<u8>, y: Seq<u8>, i: int) -> bool
    recommends
        x.len() == y.len(),
        0 <= i,
    decreases x.len() - i,
{
    if i < 0 || i >= x.len() || i >= y.len() {
        false
    } else if x[i] < y[i] {
        true
    } else if x[i] > y[i] {
        false
    } else {
        lex_lt_from(x, y, i + 1)
    }
}

/// The strict total order on UUIDs: variant tag first (16-bit before
/// 128-bit), then the payload.
pub open spec fn uuid_lt(a: UUID, b: UUID) -> bool {
    match (a, b) {
        (UUID::B16(u), UUID::B16(v)) => u < v,
        (UUID::B16(u), UUID::B128(y)) => true,
        (UUID::B128(x), UUID::B16(v)) => false,
        (UUID::B128(x), UUID::B128(y)) => lex_lt_from(x@, y@, 0),
    }
}

/// The lexicographic order is asymmetric.
proof fn lemma_lex_asym(x: Seq<u8>, y: Seq<u8>, i: int)
    requires
        lex_lt_from(x, y, i),
    ensures
        !lex_lt_from(y, x, i),
    decreases x.len() - i,
{
    if 0 <= i && i < x.len() && i < y.len() && x[i] == y[i] {
        lemma_lex_asym(x, y, i + 1);
    }
}

/// The lexicographic order is transitive.
proof fn lemma_lex_trans(x: Seq<u8>, y: Seq<u8>, z: Seq<u8>, i: int)
    requires
        x.len() == y.len() == z.len(),
        lex_lt_from(x, y, i),
        lex_lt_from(y, z, i),
    ensures
        lex_lt_from(x, z, i),
    decreases x.len() - i,
{
    if 0 <= i && i < x.len() && x[i] == y[i] && y[i] == z[i] {
        lemma_lex_trans(x, y, z, i + 1);
    }
}

/// Two equal-length sequences that neither orders before the other agree
/// from position `i` upward.
proof fn lemma_lex_total(x: Seq<u8>, y: Seq<u8>, i: int)
    requires
        x.len() == y.len(),
        0 <= i,
        !lex_lt_from(x, y, i),
        !lex_lt_from(y, x, i),
    ensures
        forall|j: int| i <= j < x.len() ==> x[j] == y[j],
    decreases x.len() - i,
{
    if i < x.len() {
        lemma_lex_total(x, y, i + 1);
    }
}

/// Law: the UUID order is a strict total order. It is irreflexive and
/// asymmetric, transitive, and total: two UUIDs that neither orders before
/// the other are the same identifier.
pub proof fn lemma_uuid_order(a: UUID, b: UUID, c: UUID)
    ensures
        uuid_eq(a, b) ==> !uuid_lt(a, b),
        uuid_lt(a, b) ==> !uuid_lt(b, a),
        uuid_lt(a, b) && uuid_lt(b, c) ==> uuid_lt(a, c),
        !uuid_lt(a, b) && !uuid_lt(b, a) ==> uuid_eq(a, b),
{
    match (a, b) {
        (UUID::B128(x), UUID::B128(y)) => {
            if lex_lt_from(x@, y@, 0) {
                lemma_lex_asym(x@, y@, 0);
            }
            if !lex_lt_from(x@, y@, 0) && !lex_lt_from(y@, x@, 0) {
                lemma_lex_total(x@, y@, 0);
                assert(x@ =~= y@);
            }
            match c {
                UUID::B128(z) => {
                    if lex_lt_from(x@, y@, 0) && lex_lt_from(y@, z@, 0) {
                        lemma_lex_trans(x@, y@, z@, 0);
                    }
                },
                _ => {},
            }
        },
        _ => {},
    }
}

/// The canonical text form of a UUID: for a 16-bit value the high byte then
/// the low byte, for a 128-bit value the bytes from index 15 down to 0,
/// each as two uppercase hexadecimal digits, colon-separated.
pub open spec fn uuid_render(u: UUID) -> Seq<char> {
    match u {
        UUID::B16(v) => render_rev(seq![(v & 0xFF) as u8, (v >> 8) as u8]),
        UUID::B128(a) => render_rev(a@),
    }
}

/// The byte length of the UUID: exactly 2 or 16.
pub open spec fn spec_size(u: UUID) -> usize {
    match u {
        UUID::B16(_) => 2,
        UUID::B128(_) => 16,
    }
}

impl UUID {
    /// The byte length of this UUID: 2 for the short form, 16 for the long
    /// form.
    pub fn size(&self) -> (r: usize)
        ensures
            r == spec_size(*self),
    {
        match *self {
            UUID::B16(_) => 2,
            UUID::B128(_) => 16,
        }
    }

    /// Whether this UUID orders strictly before `other` in the fixed total
    /// order: variant tag first, then payload.
    pub fn lt(&self, other: &UUID) -> (r: bool)
        ensures
            r == uuid_lt(*self, *other),
    {
        match (*self, *other) {
            (UUID::B16(u), UUID::B16(v)) => u < v,
            (UUID::B16(_), UUID::B128(_)) => true,
            (UUID::B128(_), UUID::B16(_)) => false,
            (UUID::B128(x), UUID::B128(y)) => {
                let mut i: usize = 0;
                while i < 16
                    invariant
                        i <= 16,
                        uuid_lt(*self, *other) == lex_lt_from(x@, y@, 0),
                        forall|j: int| 0 <= j < i ==> x@[j] == y@[j],
                        lex_lt_from(x@, y@, 0) == lex_lt_from(x@, y@, i as int),
                    decreases 16 - i,
                {
                    if x[i] < y[i] {
                        proof {
                            assert(lex_lt_from(x@, y@, i as int));
                        }
                        return true;
                    }
                    if x[i] > y[i] {
                        proof {
                            assert(!lex_lt_from(x@, y@, i as int));
                        }
                        return false;
                    }
                    proof {
                        assert(lex_lt_from(x@, y@, i as int) == lex_lt_from(x@, y@, i + 1));
                    }
                    i = i + 1;
                }
                proof {
                    assert(!lex_lt_from(x@, y@, 16));
                }
                false
            },
        }
    }

    /// Renders the canonical text form, highest-index byte printed first.
    pub fn to_str(&self) -> (r: String)
        ensures
            r@ =~= uuid_render(*self),
    {
        let mut s = String::new();
        match *self {
            UUID::B16(v) => {
                let hi = (v >> 8) as u8;
                let lo = (v & 0xFF) as u8;
                push_hex_byte(&mut s, hi);
                push_char(&mut s, ':');
                push_hex_byte(&mut s, lo);
            },
            UUID::B128(a) => {
                let mut j: usize = 0;
                while j < 16
                    invariant
                        j <= 16,
                        s@ =~= uuid_render(UUID::B128(a)).take(if j == 0 {
                            0int
                        } else {
                            3 * j - 1
                        }),
                    decreases 16 - j,
                {
                    if j > 0 {
                        push_char(&mut s, ':');
                    }
                    push_hex_byte(&mut s, a[15 - j]);
                    proof {
                        assert(s@ =~= uuid_render(UUID::B128(a)).take(3 * (j + 1) - 1));
                    }
                    j = j + 1;
                }
                proof {
                    assert(s@ =~= uuid_render(UUID::B128(a)));
                }
            },
        }
        s
    }
}

} // verus!
