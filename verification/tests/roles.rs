use rumble::AddressType;
use rumble::AdvertisingReport;
use rumble::BDAddr;
use rumble::Central;
use rumble::CentralEvent;
use rumble::CharPropFlags;
use rumble::Characteristic;
use rumble::ConnectionState;
use rumble::Error;
use rumble::Peripheral;
use rumble::TransportCall;
use rumble::UUID;

fn addr(bytes: [u8; 6]) -> BDAddr {
    BDAddr { address: bytes }
}

fn ch(start: u16, end: u16, value: u16, bits: u8) -> Characteristic {
    Characteristic {
        start_handle: start,
        end_handle: end,
        value_handle: value,
        uuid: UUID::B16(0x2A00 + start),
        properties: CharPropFlags::from_bits(bits),
    }
}

fn report(address: BDAddr) -> AdvertisingReport {
    AdvertisingReport {
        address,
        address_type: AddressType::Public,
        local_name: None,
        tx_power_level: None,
        manufacturer_data: None,
        is_scan_response: false,
    }
}

fn connected_peripheral() -> Peripheral {
    let mut p = Peripheral::new(addr([1, 2, 3, 4, 5, 6]), AddressType::Public);
    p.connect().unwrap();
    p
}

#[test]
fn gatt_operations_while_disconnected_fail_without_io() {
    let mut p = Peripheral::new(addr([1, 2, 3, 4, 5, 6]), AddressType::Public);
    let c = ch(1, 4, 2, 0xFF);
    assert_eq!(p.command(&c, &[1, 2]), Err(Error::NotConnected));
    assert_eq!(p.request(&c, &[1, 2]), Err(Error::NotConnected));
    assert_eq!(p.read(&c), Err(Error::NotConnected));
    assert_eq!(p.read_by_type(&c, UUID::B16(0x2803)), Err(Error::NotConnected));
    assert_eq!(p.subscribe(&c), Err(Error::NotConnected));
    assert_eq!(p.unsubscribe(&c), Err(Error::NotConnected));
    assert!(p.discover_characteristics().is_err());
    assert!(p.discover_characteristics_in_range(1, 10).is_err());
    assert_eq!(p.transport_calls().len(), 0);
    assert!(!p.is_connected());
}

#[test]
fn operations_without_the_needed_flag_fail_without_io() {
    let mut p = connected_peripheral();
    let calls_after_connect = p.transport_calls().len();
    let read_only = ch(1, 4, 2, CharPropFlags::READ);
    let write_only = ch(5, 8, 6, CharPropFlags::WRITE);
    assert_eq!(p.command(&read_only, &[0]), Err(Error::CapabilityUnsupported));
    assert_eq!(p.request(&read_only, &[0]), Err(Error::CapabilityUnsupported));
    assert_eq!(p.read(&write_only), Err(Error::CapabilityUnsupported));
    assert_eq!(p.read_by_type(&write_only, UUID::B16(0x2803)), Err(Error::CapabilityUnsupported));
    assert_eq!(p.transport_calls().len(), calls_after_connect);
}

#[test]
fn connect_and_disconnect_are_idempotent() {
    let mut p = Peripheral::new(addr([1, 2, 3, 4, 5, 6]), AddressType::Public);
    assert_eq!(p.disconnect(), Ok(()));
    assert_eq!(p.transport_calls().len(), 0);
    assert_eq!(p.connect(), Ok(()));
    assert!(p.is_connected());
    assert_eq!(p.transport_calls().len(), 1);
    assert_eq!(p.connect(), Ok(()));
    assert_eq!(p.transport_calls().len(), 1);
    assert_eq!(p.disconnect(), Ok(()));
    assert!(!p.is_connected());
    assert_eq!(p.transport_calls().len(), 2);
    assert!(matches!(p.transport_calls()[0], TransportCall::Connect));
    assert!(matches!(p.transport_calls()[1], TransportCall::Disconnect));
}

#[test]
fn command_records_the_write() {
    let mut p = connected_peripheral();
    let c = ch(1, 4, 2, CharPropFlags::WRITE_WITHOUT_RESPONSE);
    assert_eq!(p.command(&c, &[0xDE, 0xAD]), Ok(()));
    match &p.transport_calls()[1] {
        TransportCall::Command(handle, data) => {
            assert_eq!(*handle, 2);
            assert_eq!(data, &vec![0xDE, 0xAD]);
        }
        other => panic!("unexpected transport call {:?}", other),
    }
}

#[test]
fn request_resolves_against_injected_completions() {
    let mut p = connected_peripheral();
    let c = ch(1, 4, 2, CharPropFlags::WRITE);
    p.push_response(vec![9, 8, 7]);
    assert_eq!(p.request(&c, &[1]), Ok(vec![9, 8, 7]));
    assert_eq!(p.request(&c, &[2]), Err(Error::Transport));
    p.push_failure();
    assert_eq!(p.request(&c, &[3]), Err(Error::Transport));
}

#[test]
fn read_resolves_against_injected_completions() {
    let mut p = connected_peripheral();
    let c = ch(1, 4, 2, CharPropFlags::READ);
    p.push_response(vec![0x2A]);
    p.push_response(vec![0x2B]);
    assert_eq!(p.read(&c), Ok(vec![0x2A]));
    assert_eq!(p.read_by_type(&c, UUID::B16(0x2803)), Ok(vec![0x2B]));
    assert_eq!(p.read(&c), Err(Error::Transport));
    match &p.transport_calls()[2] {
        TransportCall::ReadByType(start, end, uuid) => {
            assert_eq!((*start, *end), (1, 4));
            assert_eq!(*uuid, UUID::B16(0x2803));
        }
        other => panic!("unexpected transport call {:?}", other),
    }
}

#[test]
fn subscribe_needs_notify_or_indicate() {
    let mut p = connected_peripheral();
    let read_only = ch(1, 4, 2, CharPropFlags::READ);
    assert_eq!(p.subscribe(&read_only), Err(Error::CapabilityUnsupported));
    assert_eq!(p.unsubscribe(&read_only), Err(Error::CapabilityUnsupported));
    assert!(!p.is_subscribed(2));

    let notifying = ch(5, 8, 6, CharPropFlags::READ | CharPropFlags::NOTIFY);
    assert_eq!(p.subscribe(&notifying), Ok(()));
    assert!(p.is_subscribed(6));
    match p.transport_calls().last().unwrap() {
        TransportCall::Subscribe(handle, indicate) => {
            assert_eq!(*handle, 6);
            assert!(!*indicate);
        }
        other => panic!("unexpected transport call {:?}", other),
    }
}

#[test]
fn subscribe_prefers_notify_and_falls_back_to_indicate() {
    let mut p = connected_peripheral();
    let both = ch(1, 4, 2, CharPropFlags::NOTIFY | CharPropFlags::INDICATE);
    let indicate_only = ch(5, 8, 6, CharPropFlags::INDICATE);
    assert_eq!(p.subscribe(&both), Ok(()));
    assert_eq!(p.subscribe(&indicate_only), Ok(()));
    assert!(matches!(p.transport_calls()[1], TransportCall::Subscribe(2, false)));
    assert!(matches!(p.transport_calls()[2], TransportCall::Subscribe(6, true)));
}

#[test]
fn notifications_reach_subscribed_handles_in_order() {
    let mut p = connected_peripheral();
    let c = ch(1, 4, 2, CharPropFlags::NOTIFY);
    assert_eq!(p.subscribe(&c), Ok(()));
    assert!(p.deliver_notification(2, vec![1]));
    assert!(!p.deliver_notification(9, vec![2]));
    assert!(p.deliver_notification(2, vec![3]));
    let seen = p.notifications();
    assert_eq!(seen.len(), 2);
    assert_eq!((seen[0].handle, seen[0].value.clone()), (2, vec![1]));
    assert_eq!((seen[1].handle, seen[1].value.clone()), (2, vec![3]));
}

#[test]
fn unsubscribe_removes_the_subscription() {
    let mut p = connected_peripheral();
    let c = ch(1, 4, 2, CharPropFlags::NOTIFY);
    assert_eq!(p.subscribe(&c), Ok(()));
    assert!(p.is_subscribed(2));
    assert_eq!(p.unsubscribe(&c), Ok(()));
    assert!(!p.is_subscribed(2));
    assert!(!p.deliver_notification(2, vec![1]));
    assert_eq!(p.notifications().len(), 0);
}

#[test]
fn disconnect_forgets_subscriptions() {
    let mut p = connected_peripheral();
    let c = ch(1, 4, 2, CharPropFlags::NOTIFY);
    assert_eq!(p.subscribe(&c), Ok(()));
    assert_eq!(p.disconnect(), Ok(()));
    assert!(!p.is_subscribed(2));
}

#[test]
fn discovery_returns_the_window_and_merges_the_cache() {
    let mut p = connected_peripheral();
    let c1 = ch(2, 4, 3, CharPropFlags::READ);
    let c2 = ch(5, 8, 6, CharPropFlags::WRITE);
    let far = ch(20, 24, 21, CharPropFlags::READ);
    p.add_remote_characteristic(c2.clone());
    p.add_remote_characteristic(c1.clone());
    p.add_remote_characteristic(far.clone());

    let found = p.discover_characteristics_in_range(1, 10).unwrap();
    assert_eq!(found, vec![c1.clone(), c2.clone()]);
    assert_eq!(p.characteristics(), vec![c1.clone(), c2.clone()]);

    let all = p.discover_characteristics().unwrap();
    assert_eq!(all, vec![c1.clone(), c2.clone(), far.clone()]);
    assert_eq!(p.characteristics(), vec![c1, c2, far]);
}

#[test]
fn rediscovery_replaces_updated_entries_without_duplicating() {
    let mut p = connected_peripheral();
    let c1 = ch(2, 4, 3, CharPropFlags::READ);
    let c2 = ch(5, 8, 6, CharPropFlags::WRITE);
    p.add_remote_characteristic(c1.clone());
    p.add_remote_characteristic(c2.clone());
    assert_eq!(p.discover_characteristics_in_range(1, 10).unwrap(), vec![c1.clone(), c2.clone()]);

    let mut c1_updated = c1.clone();
    c1_updated.properties = CharPropFlags::from_bits(CharPropFlags::READ | CharPropFlags::NOTIFY);
    p.add_remote_characteristic(c1_updated.clone());
    assert_eq!(
        p.discover_characteristics_in_range(1, 10).unwrap(),
        vec![c1_updated.clone(), c2.clone()]
    );
    assert_eq!(p.characteristics(), vec![c1_updated, c2]);
}

#[test]
fn peripheral_reports_its_identity() {
    let a = addr([1, 2, 3, 4, 5, 6]);
    let p = Peripheral::new(a, AddressType::Random);
    assert_eq!(p.address(), a);
    let props = p.properties();
    assert_eq!(props.address, a);
    assert_eq!(props.address_type, AddressType::Random);
    assert_eq!(props.discovery_count, 0);
}

#[test]
fn peripheral_properties_update_with_reports() {
    let a = addr([1, 2, 3, 4, 5, 6]);
    let mut p = Peripheral::new(a, AddressType::Public);
    let mut r = report(a);
    r.local_name = Some(String::from("sensor"));
    p.deliver_report(r);
    let props = p.properties();
    assert_eq!(props.local_name, Some(String::from("sensor")));
    assert_eq!(props.discovery_count, 1);
}

#[test]
fn duplicate_advertisements_update_a_single_entry() {
    let mut central = Central::new();
    central.start_scan().unwrap();
    let a = BDAddr::parse_str("AA:BB:CC:DD:EE:FF").unwrap();

    let first = central.deliver_report(report(a));
    assert!(matches!(first, CentralEvent::DeviceDiscovered(x) if x == a));

    let second = central.deliver_report(report(a));
    assert!(matches!(second, CentralEvent::DeviceUpdated(x) if x == a));

    let known = central.peripherals();
    assert_eq!(known.len(), 1);
    assert_eq!(known[0].address, a);
    assert_eq!(known[0].discovery_count, 2);
}

#[test]
fn unfiltered_duplicates_announce_discovery_again() {
    let mut central = Central::new();
    central.filter_duplicates(false);
    let a = addr([1, 2, 3, 4, 5, 6]);
    central.deliver_report(report(a));
    let again = central.deliver_report(report(a));
    assert!(matches!(again, CentralEvent::DeviceDiscovered(x) if x == a));
    assert_eq!(central.peripherals().len(), 1);
    assert_eq!(central.peripherals()[0].discovery_count, 2);
}

#[test]
fn merging_overwrites_present_fields_and_keeps_absent_ones() {
    let mut central = Central::new();
    let a = addr([1, 2, 3, 4, 5, 6]);
    let mut r1 = report(a);
    r1.local_name = Some(String::from("beacon"));
    r1.tx_power_level = Some(-40);
    central.deliver_report(r1);

    let mut r2 = report(a);
    r2.tx_power_level = Some(-20);
    r2.manufacturer_data = Some(vec![0xCA, 0xFE]);
    r2.is_scan_response = true;
    central.deliver_report(r2);

    let p = central.peripheral(a).unwrap();
    assert_eq!(p.local_name, Some(String::from("beacon")));
    assert_eq!(p.tx_power_level, Some(-20));
    assert_eq!(p.manufacturer_data, Some(vec![0xCA, 0xFE]));
    assert_eq!(p.discovery_count, 2);
    assert!(p.has_scan_response);
}

#[test]
fn unknown_addresses_yield_no_value() {
    let central = Central::new();
    assert!(central.peripheral(addr([9, 9, 9, 9, 9, 9])).is_none());
}

#[test]
fn scan_control_is_idempotent() {
    let mut central = Central::new();
    assert_eq!(central.stop_scan(), Ok(()));
    assert!(!central.scanning);
    assert_eq!(central.start_scan(), Ok(()));
    assert_eq!(central.start_scan(), Ok(()));
    assert!(central.scanning);
    assert_eq!(central.stop_scan(), Ok(()));
    assert!(!central.scanning);
    central.active(false);
    assert!(!central.active);
    central.active(true);
    assert!(central.active);
}

#[test]
fn registry_hands_out_independent_snapshots() {
    let mut central = Central::new();
    let a = addr([1, 2, 3, 4, 5, 6]);
    let mut r1 = report(a);
    r1.local_name = Some(String::from("first"));
    central.deliver_report(r1);

    let snapshot = central.peripheral(a).unwrap();
    let mut r2 = report(a);
    r2.local_name = Some(String::from("second"));
    central.deliver_report(r2);

    assert_eq!(snapshot.local_name, Some(String::from("first")));
    assert_eq!(central.peripheral(a).unwrap().local_name, Some(String::from("second")));
}

#[test]
fn distinct_addresses_get_distinct_entries() {
    let mut central = Central::new();
    let a = addr([1, 2, 3, 4, 5, 6]);
    let b = addr([6, 5, 4, 3, 2, 1]);
    central.deliver_report(report(a));
    central.deliver_report(report(b));
    assert_eq!(central.peripherals().len(), 2);
    assert_eq!(central.peripheral(a).unwrap().address, a);
    assert_eq!(central.peripheral(b).unwrap().address, b);
}

#[test]
fn default_properties_are_empty() {
    let p = rumble::PeripheralProperties::default();
    assert_eq!(p.address, BDAddr::default());
    assert_eq!(p.address_type, AddressType::Public);
    assert_eq!(p.local_name, None);
    assert_eq!(p.tx_power_level, None);
    assert_eq!(p.manufacturer_data, None);
    assert_eq!(p.discovery_count, 0);
    assert!(!p.has_scan_response);
}

#[test]
fn scan_response_flag_is_kept_once_seen() {
    let mut central = Central::new();
    let a = addr([1, 2, 3, 4, 5, 6]);
    let mut r1 = report(a);
    r1.is_scan_response = true;
    central.deliver_report(r1);
    central.deliver_report(report(a));
    assert!(central.peripheral(a).unwrap().has_scan_response);
}

#[test]
fn connection_state_starts_disconnected() {
    let p = Peripheral::new(addr([1, 2, 3, 4, 5, 6]), AddressType::Public);
    assert_eq!(p.state, ConnectionState::Disconnected);
    assert_eq!(p.characteristics().len(), 0);
}
