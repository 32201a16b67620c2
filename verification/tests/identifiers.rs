use rumble::AddressType;
use rumble::BDAddr;
use rumble::CharPropFlags;
use rumble::Characteristic;
use rumble::UUID;

fn addr(bytes: [u8; 6]) -> BDAddr {
    BDAddr { address: bytes }
}

#[test]
fn address_renders_most_significant_byte_first() {
    let a = addr([0xFF, 0xEE, 0xDD, 0xCC, 0xBB, 0xAA]);
    assert_eq!(a.to_str(), "AA:BB:CC:DD:EE:FF");
}

#[test]
fn address_default_is_all_zero() {
    let a = BDAddr::default();
    assert_eq!(a.address, [0u8; 6]);
    assert_eq!(a.to_str(), "00:00:00:00:00:00");
}

#[test]
fn address_round_trips_through_text() {
    let cases = [
        [0x00, 0x00, 0x00, 0x00, 0x00, 0x00],
        [0xFF, 0xFF, 0xFF, 0xFF, 0xFF, 0xFF],
        [0x01, 0x23, 0x45, 0x67, 0x89, 0xAB],
        [0xAA, 0x00, 0xBB, 0x00, 0xCC, 0x0F],
    ];
    for bytes in cases {
        let a = addr(bytes);
        let text = a.to_str();
        let parsed = BDAddr::parse_str(&text).expect("canonical text must parse");
        assert_eq!(parsed, a);
    }
}

#[test]
fn address_parse_accepts_canonical_text() {
    let a = BDAddr::parse_str("AA:BB:CC:DD:EE:FF").unwrap();
    assert_eq!(a.address, [0xFF, 0xEE, 0xDD, 0xCC, 0xBB, 0xAA]);
}

#[test]
fn address_parse_rejects_non_canonical_text() {
    assert!(BDAddr::parse_str("").is_none());
    assert!(BDAddr::parse_str("AA:BB:CC:DD:EE").is_none());
    assert!(BDAddr::parse_str("AA:BB:CC:DD:EE:FF:00").is_none());
    assert!(BDAddr::parse_str("aa:bb:cc:dd:ee:ff").is_none());
    assert!(BDAddr::parse_str("AA-BB-CC-DD-EE-FF").is_none());
    assert!(BDAddr::parse_str("AA:BB:CC:DD:EE:FG").is_none());
    assert!(BDAddr::parse_str("AA:BB:CC:DD:EE:F").is_none());
}

#[test]
fn address_equality_is_byte_exact() {
    assert_eq!(addr([1, 2, 3, 4, 5, 6]), addr([1, 2, 3, 4, 5, 6]));
    assert_ne!(addr([1, 2, 3, 4, 5, 6]), addr([1, 2, 3, 4, 5, 7]));
}

#[test]
fn address_type_codes_round_trip() {
    assert_eq!(AddressType::from_u8(0), Some(AddressType::Public));
    assert_eq!(AddressType::from_u8(1), Some(AddressType::Random));
    assert_eq!(AddressType::from_u8(0).unwrap().num(), 0);
    assert_eq!(AddressType::from_u8(1).unwrap().num(), 1);
    assert_eq!(AddressType::Public.num(), 0);
    assert_eq!(AddressType::Random.num(), 1);
}

#[test]
fn address_type_unknown_codes_decode_to_none() {
    for code in 2..=255u8 {
        assert_eq!(AddressType::from_u8(code), None);
    }
}

#[test]
fn address_type_default_is_public() {
    assert_eq!(AddressType::default(), AddressType::Public);
}

#[test]
fn uuid_sizes_are_exact() {
    assert_eq!(UUID::B16(0x2A00).size(), 2);
    assert_eq!(UUID::B128([0u8; 16]).size(), 16);
}

#[test]
fn uuid_renders_highest_byte_first() {
    assert_eq!(UUID::B16(0x2A00).to_str(), "2A:00");
    let mut bytes = [0u8; 16];
    bytes[15] = 0xAB;
    bytes[0] = 0x01;
    let text = UUID::B128(bytes).to_str();
    assert_eq!(text.len(), 47);
    assert!(text.starts_with("AB:00:00"));
    assert!(text.ends_with("00:01"));
}

#[test]
fn uuid_order_puts_short_form_first() {
    let short = UUID::B16(0xFFFF);
    let long = UUID::B128([0u8; 16]);
    assert!(short.lt(&long));
    assert!(!long.lt(&short));
    assert!(UUID::B16(1).lt(&UUID::B16(2)));
    assert!(!UUID::B16(2).lt(&UUID::B16(1)));
    let mut hi = [0u8; 16];
    hi[0] = 1;
    assert!(UUID::B128([0u8; 16]).lt(&UUID::B128(hi)));
    assert!(!UUID::B128(hi).lt(&UUID::B128([0u8; 16])));
    assert!(!UUID::B128(hi).lt(&UUID::B128(hi)));
}

#[test]
fn flags_combine_as_sets() {
    let read = CharPropFlags::from_bits(CharPropFlags::READ);
    let notify = CharPropFlags::from_bits(CharPropFlags::NOTIFY);
    let both = read.union(notify);
    assert_eq!(both.bits(), 0x12);
    assert!(both.contains(read));
    assert!(both.contains(notify));
    assert!(!read.contains(notify));
    assert_eq!(both.intersect(read).bits(), CharPropFlags::READ);
    assert_eq!(read.intersect(notify).bits(), 0);
    assert!(CharPropFlags::empty().is_empty());
    assert!(!read.is_empty());
}

#[test]
fn flags_bit_positions_are_fixed() {
    assert_eq!(CharPropFlags::BROADCAST, 0x01);
    assert_eq!(CharPropFlags::READ, 0x02);
    assert_eq!(CharPropFlags::WRITE_WITHOUT_RESPONSE, 0x04);
    assert_eq!(CharPropFlags::WRITE, 0x08);
    assert_eq!(CharPropFlags::NOTIFY, 0x10);
    assert_eq!(CharPropFlags::INDICATE, 0x20);
    assert_eq!(CharPropFlags::AUTHENTICATED_SIGNED_WRITES, 0x40);
    assert_eq!(CharPropFlags::EXTENDED_PROPERTIES, 0x80);
}

fn ch(start: u16, end: u16, value: u16, uuid: UUID, bits: u8) -> Characteristic {
    Characteristic {
        start_handle: start,
        end_handle: end,
        value_handle: value,
        uuid,
        properties: CharPropFlags::from_bits(bits),
    }
}

#[test]
fn characteristic_order_is_lexicographic() {
    let a = ch(1, 4, 2, UUID::B16(0x2A00), 0x02);
    let b = ch(2, 4, 2, UUID::B16(0x2A00), 0x02);
    let c = ch(1, 5, 2, UUID::B16(0x2A00), 0x02);
    let d = ch(1, 4, 3, UUID::B16(0x2A00), 0x02);
    let e = ch(1, 4, 2, UUID::B16(0x2A01), 0x02);
    let f = ch(1, 4, 2, UUID::B16(0x2A00), 0x10);
    assert!(a.lt(&b));
    assert!(a.lt(&c));
    assert!(a.lt(&d));
    assert!(a.lt(&e));
    assert!(a.lt(&f));
    assert!(!b.lt(&a));
    assert!(!a.lt(&a));
}

#[test]
fn characteristic_order_has_no_ties_short_of_equality() {
    let a = ch(3, 9, 4, UUID::B16(0x2A37), 0x12);
    let b = ch(3, 9, 4, UUID::B16(0x2A37), 0x12);
    assert!(!a.lt(&b));
    assert!(!b.lt(&a));
    assert_eq!(a, b);
}

#[test]
fn characteristic_sorts_deterministically() {
    let c1 = ch(5, 9, 6, UUID::B16(0x2A00), 0x02);
    let c2 = ch(1, 4, 2, UUID::B16(0x2A05), 0x08);
    let c3 = ch(1, 4, 2, UUID::B16(0x2A01), 0x08);
    let mut v = vec![c1.clone(), c2.clone(), c3.clone()];
    v.sort_by(|x, y| {
        if x.lt(y) {
            std::cmp::Ordering::Less
        } else if y.lt(x) {
            std::cmp::Ordering::Greater
        } else {
            std::cmp::Ordering::Equal
        }
    });
    assert_eq!(v, vec![c3, c2, c1]);
}

#[test]
fn characteristic_renders_handles_and_uuid() {
    let c = ch(0x0012, 0x0034, 0x0013, UUID::B16(0x2A37), 0x12);
    assert_eq!(
        c.to_str(),
        "handle: 0x0012, char properties: 0x12, char value handle: 0x0013, \
         end handle: 0x0034, uuid: 2A:37"
    );
}

#[test]
fn characteristic_same_key_ignores_properties() {
    let a = ch(1, 4, 2, UUID::B16(0x2A00), 0x02);
    let b = ch(1, 4, 2, UUID::B16(0x2A00), 0x10);
    let c = ch(1, 4, 3, UUID::B16(0x2A00), 0x02);
    assert!(a.same_key(&b));
    assert!(!a.same_key(&c));
}
