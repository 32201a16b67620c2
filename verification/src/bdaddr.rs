//! The 6-byte link-layer address that identifies a Bluetooth device.

use vstd::prelude::*;
use vstd::string::StrSliceExecFns;

use crate::text::hex_val;
use crate::text::lemma_hex_digit_val;
use crate::text::push_char;
use crate::text::push_hex_byte;
use crate::text::render_rev;

verus! {

/// Stores the 6 byte address used to identify Bluetooth devices. Equality
/// and hashing are byte-exact; the canonical text form is colon-separated
/// uppercase hexadecimal with the most significant byte (index 5) printed
/// first.
#[derive(Debug, Clone, Copy, Hash, Eq)]
pub struct BDAddr {
    pub address: [u8; 6],
}

impl PartialEq for BDAddr {
    fn eq(&self, o: &BDAddr) -> (r: bool) {
        let r = self.address[0] == o.address[0] && self.address[1] == o.address[1]
            && self.address[2] == o.address[2] && self.address[3] == o.address[3]
            && self.address[4] == o.address[4] && self.address[5] == o.address[5];
        proof {
            if r {
                assert(self.address@ =~= o.address@);
            }
        }
        r
    }
}

impl vstd::std_specs::cmp::PartialEqSpecImpl for BDAddr {
    open spec fn obeys_eq_spec() -> bool {
        true
    }

    open spec fn eq_spec(&self, o: &BDAddr) -> bool {
        self.address@ == o.address@
    }
}

impl Default for BDAddr {
    /// The default address is all-zero.
    fn default() -> (r: Self)
        ensures
            r.address@ =~= Seq::new(6, |i: int| 0u8),
    {
        BDAddr { address: [0u8; 6] }
    }
}

/// Whether a character sequence is the canonical text form of some address:
/// 17 characters, colons at positions 2, 5, 8, 11 and 14, uppercase
/// hexadecimal digits everywhere else.
pub open spec fn addr_text_valid(s: Seq<char>) -> bool {
    &&& s.len() == 17
    &&& s[2] == ':'
    &&& s[5] == ':'
    &&& s[8] == ':'
    &&& s[11] == ':'
    &&& s[14] == ':'
    &&& hex_val(s[0]) < 16
    &&& hex_val(s[1]) < 16
    &&& hex_val(s[3]) < 16
    &&& hex_val(s[4]) < 16
    &&& hex_val(s[6]) < 16
    &&& hex_val(s[7]) < 16
    &&& hex_val(s[9]) < 16
    &&& hex_val(s[10]) < 16
    &&& hex_val(s[12]) < 16
    &&& hex_val(s[13]) < 16
    &&& hex_val(s[15]) < 16
    &&& hex_val(s[16]) < 16
}

/// The bytes encoded by a canonical address text: byte 5 is printed first,
/// so byte k stands at positions (5 - k) * 3 and (5 - k) * 3 + 1.
pub open spec fn addr_of_text(s: Seq<char>) -> Seq<u8>
    recommends
        addr_text_valid(s),
{
    seq![
        (hex_val(s[15]) * 16 + hex_val(s[16])) as u8,
        (hex_val(s[12]) * 16 + hex_val(s[13])) as u8,
        (hex_val(s[9]) * 16 + hex_val(s[10])) as u8,
        (hex_val(s[6]) * 16 + hex_val(s[7])) as u8,
        (hex_val(s[3]) * 16 + hex_val(s[4])) as u8,
        (hex_val(s[0]) * 16 + hex_val(s[1])) as u8,
    ]
}

/// What parsing an address text yields: the encoded bytes when the text is
/// canonical, and no value otherwise.
pub open spec fn spec_parse_addr(s: Seq<char>) -> Option<Seq<u8>> {
    if addr_text_valid(s) {
        Some(addr_of_text(s))
    } else {
        None
    }
}

/// Reads the two hexadecimal digits at positions `p` and `p + 1`, or yields
/// `None` when either character is not an uppercase hexadecimal digit.
fn parse_hex_pair(s: &str, p: usize) -> (r: Option<u8>)
    requires
        p + 2 <= s@.len(),
        s@.len() <= usize::MAX,
    ensures
        match r {
            Some(b) => hex_val(s@[p as int]) < 16 && hex_val(s@[p + 1]) < 16
                && b == (hex_val(s@[p as int]) * 16 + hex_val(s@[p + 1])) as u8,
            None => hex_val(s@[p as int]) >= 16 || hex_val(s@[p + 1]) >= 16,
        },
{
    let hi = hex_val_of_char(s.get_char(p));
    let lo = hex_val_of_char(s.get_char(p + 1));
    if hi < 16 && lo < 16 {
        Some(hi * 16 + lo)
    } else {
        None
    }
}

/// The value of an uppercase hexadecimal digit character, or 255 for any
/// other character.
fn hex_val_of_char(c: char) -> (r: u8)
    ensures
        r == hex_val(c),
{
    match c {
        '0' => 0,
        '1' => 1,
        '2' => 2,
        '3' => 3,
        '4' => 4,
        '5' => 5,
        '6' => 6,
        '7' => 7,
        '8' => 8,
        '9' => 9,
        'A' => 10,
        'B' => 11,
        'C' => 12,
        'D' => 13,
        'E' => 14,
        'F' => 15,
        _ => 255,
    }
}

impl BDAddr {
    /// Renders the canonical text form: the six bytes as colon-separated
    /// uppercase hexadecimal, byte 5 printed first.
    pub fn to_str(&self) -> (r: String)
        ensures
            r@ =~= render_rev(self.address@),
    {
        let mut s = String::new();
        push_hex_byte(&mut s, self.address[5]);
        push_char(&mut s, ':');
        push_hex_byte(&mut s, self.address[4]);
        push_char(&mut s, ':');
        push_hex_byte(&mut s, self.address[3]);
        push_char(&mut s, ':');
        push_hex_byte(&mut s, self.address[2]);
        push_char(&mut s, ':');
        push_hex_byte(&mut s, self.address[1]);
        push_char(&mut s, ':');
        push_hex_byte(&mut s, self.address[0]);
        s
    }

    /// Parses the canonical text form back into an address. Exactly the
    /// texts of the canonical shape are accepted; anything else yields
    /// `None`, never an error.
    pub fn parse_str(s: &str) -> (r: Option<BDAddr>)
        ensures
            match r {
                Some(a) => spec_parse_addr(s@) == Some(a.address@),
                None => spec_parse_addr(s@) is None,
            },
    {
        if s.unicode_len() != 17 {
            return None;
        }
        if s.get_char(2) != ':' || s.get_char(5) != ':' || s.get_char(8) != ':'
            || s.get_char(11) != ':' || s.get_char(14) != ':' {
            return None;
        }
        let b5 = match parse_hex_pair(s, 0) {
            Some(b) => b,
            None => {
                return None;
            },
        };
        let b4 = match parse_hex_pair(s, 3) {
            Some(b) => b,
            None => {
                return None;
            },
        };
        let b3 = match parse_hex_pair(s, 6) {
            Some(b) => b,
            None => {
                return None;
            },
        };
        let b2 = match parse_hex_pair(s, 9) {
            Some(b) => b,
            None => {
                return None;
            },
        };
        let b1 = match parse_hex_pair(s, 12) {
            Some(b) => b,
            None => {
                return None;
            },
        };
        let b0 = match parse_hex_pair(s, 15) {
            Some(b) => b,
            None => {
                return None;
            },
        };
        let a = BDAddr { address: [b0, b1, b2, b3, b4, b5] };
        proof {
            assert(addr_text_valid(s@));
            assert(a.address@ =~= addr_of_text(s@));
        }
        Some(a)
    }
}

/// Law: the canonical text form round-trips. For every address, parsing the
/// rendered text succeeds and reproduces the original six bytes.
pub proof fn lemma_addr_round_trip(a: BDAddr)
    ensures
        spec_parse_addr(render_rev(a.address@)) == Some(a.address@),
{
    let s = render_rev(a.address@);
    assert forall|k: int| 0 <= k < 6 implies hex_val(s[(5 - k) * 3]) == a.address@[k] / 16
        && hex_val(s[(5 - k) * 3 + 1]) == a.address@[k] % 16 by {
        lemma_hex_digit_val(a.address@[k] / 16);
        lemma_hex_digit_val(a.address@[k] % 16);
    }
    assert(addr_text_valid(s));
    assert(addr_of_text(s) =~= a.address@);
}

} // verus!
