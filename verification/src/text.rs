//! Rendering bytes as colon-separated uppercase hexadecimal text, the
//! canonical textual form shared by device addresses and attribute UUIDs.

use vstd::prelude::*;

verus! {

/// The uppercase hexadecimal digit for a value below 16 (and '0' for any
/// other value, which renderers never pass).
pub open spec fn hex_digit(n: u8) -> char {
    if n == 0 {
        '0'
    } else if n == 1 {
        '1'
    } else if n == 2 {
        '2'
    } else if n == 3 {
        '3'
    } else if n == 4 {
        '4'
    } else if n == 5 {
        '5'
    } else if n == 6 {
        '6'
    } else if n == 7 {
        '7'
    } else if n == 8 {
        '8'
    } else if n == 9 {
        '9'
    } else if n == 10 {
        'A'
    } else if n == 11 {
        'B'
    } else if n == 12 {
        'C'
    } else if n == 13 {
        'D'
    } else if n == 14 {
        'E'
    } else if n == 15 {
        'F'
    } else {
        '0'
    }
}

/// The value of an uppercase hexadecimal digit character, or 255 for any
/// character that is not one.
pub open spec fn hex_val(c: char) -> u8 {
    if c == '0' {
        0
    } else if c == '1' {
        1
    } else if c == '2' {
        2
    } else if c == '3' {
        3
    } else if c == '4' {
        4
    } else if c == '5' {
        5
    } else if c == '6' {
        6
    } else if c == '7' {
        7
    } else if c == '8' {
        8
    } else if c == '9' {
        9
    } else if c == 'A' {
        10
    } else if c == 'B' {
        11
    } else if c == 'C' {
        12
    } else if c == 'D' {
        13
    } else if c == 'E' {
        14
    } else if c == 'F' {
        15
    } else {
        255
    }
}

/// Reading back the digit written for a value below 16 gives the value.
pub proof fn lemma_hex_digit_val(n: u8)
    requires
        n < 16,
    ensures
        hex_val(hex_digit(n)) == n,
{
}

/// The character at position `i` of the canonical rendering of `b`: bytes
/// are printed last-to-first, two uppercase hexadecimal digits each,
/// separated by colons.
pub open spec fn render_rev_at(b: Seq<u8>, i: int) -> char
    recommends
        b.len() > 0,
        0 <= i < 3 * b.len() - 1,
{
    if i % 3 == 2 {
        ':'
    } else {
        let byte = b[b.len() - 1 - i / 3];
        if i % 3 == 0 {
            hex_digit(byte / 16)
        } else {
            hex_digit(byte % 16)
        }
    }
}

/// The canonical rendering of a non-empty byte sequence: each byte as two
/// uppercase hexadecimal digits, bytes printed last-to-first and separated
/// by colons, so a sequence of n bytes renders as 3n - 1 characters.
pub open spec fn render_rev(b: Seq<u8>) -> Seq<char>
    recommends
        b.len() > 0,
{
    Seq::new((3 * b.len() - 1) as nat, |i: int| render_rev_at(b, i))
}

/// A byte as two uppercase hexadecimal digits, high digit first.
pub open spec fn hex2(b: u8) -> Seq<char> {
    seq![hex_digit(b / 16), hex_digit(b % 16)]
}

/// A 16-bit value as four uppercase hexadecimal digits, high byte first.
pub open spec fn hex4(v: u16) -> Seq<char> {
    hex2((v >> 8) as u8) + hex2((v & 0xFF) as u8)
}

/// Relies on String::push: appends the given character to the end of the
/// string.
#[verifier::external_body]
pub(crate) fn push_char(s: &mut String, c: char)
    ensures
        final(s)@ == old(s)@.push(c),
{
    s.push(c);
}

/// Appends the uppercase hexadecimal digit of a value below 16.
pub(crate) fn push_hex_digit(s: &mut String, n: u8)
    requires
        n < 16,
    ensures
        final(s)@ == old(s)@.push(hex_digit(n)),
{
    let c = match n {
        0 => '0',
        1 => '1',
        2 => '2',
        3 => '3',
        4 => '4',
        5 => '5',
        6 => '6',
        7 => '7',
        8 => '8',
        9 => '9',
        10 => 'A',
        11 => 'B',
        12 => 'C',
        13 => 'D',
        14 => 'E',
        _ => 'F',
    };
    push_char(s, c);
}

/// Appends a byte as two uppercase hexadecimal digits, high digit first.
pub(crate) fn push_hex_byte(s: &mut String, b: u8)
    ensures
        final(s)@ == old(s)@ + hex2(b),
{
    let ghost s0 = s@;
    push_hex_digit(s, b / 16);
    push_hex_digit(s, b % 16);
    proof {
        assert(s@ =~= s0 + hex2(b));
    }
}

/// Appends a 16-bit value as four uppercase hexadecimal digits, high byte
/// first.
pub(crate) fn push_hex_u16(s: &mut String, v: u16)
    ensures
        final(s)@ == old(s)@ + hex4(v),
{
    let ghost s0 = s@;
    push_hex_byte(s, (v >> 8) as u8);
    push_hex_byte(s, (v & 0xFF) as u8);
    proof {
        assert(s@ =~= s0 + hex4(v));
    }
}

} // verus!
