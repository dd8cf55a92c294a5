use std::collections::{HashMap, HashSet};

use bluez_monitor::bluetooth::{
    Address, AddressType, CaptureTime, Device, DeviceProperty, Modalias,
};

#[test]
fn fold_of_nothing_is_the_empty_snapshot() {
    let device = Device::from(vec![]);
    assert_eq!(device.timestamp, CaptureTime::default());
    assert_eq!(device.address, Address([0; 6]));
    assert_eq!(device.address_type, None);
    assert_eq!(device.name, None);
    assert!(device.uuids.is_empty());
    assert_eq!(device.class, None);
    assert_eq!(device.appearance, None);
    assert!(!device.paired);
    assert!(!device.connected);
    assert!(!device.trusted);
    assert!(!device.blocked);
    assert!(!device.wake_allowed);
    assert!(!device.legacy_pairing);
    assert_eq!(device.alias, None);
    assert_eq!(device.modalias, None);
    assert_eq!(device.icon, None);
    assert!(device.manufacturer_data.is_empty());
    assert!(device.advertising_data.is_empty());
    assert!(device.advertising_flags.is_empty());
    assert_eq!(device.tx_power, None);
    assert_eq!(device.rssi, None);
    assert!(device.service_data.is_empty());
    assert!(!device.services_resolved);
}

#[test]
fn default_snapshot_is_the_fold_of_nothing() {
    let device = Device::default();
    assert_eq!(device.name, None);
    assert_eq!(device.rssi, None);
    assert_eq!(device.address, Address::default());
    assert_eq!(device.timestamp.secs(), 0);
    assert_eq!(device.timestamp.nanos(), 0);
}

#[test]
fn fold_sets_every_field_an_event_names() {
    let mut uuids = HashSet::new();
    uuids.insert(0x0000_180f_0000_1000_8000_0080_5f9b_34fb_u128);
    let mut manufacturer = HashMap::new();
    manufacturer.insert(76u16, vec![1u8, 2, 3]);
    let mut advertising = HashMap::new();
    advertising.insert(9u8, vec![0x57u8]);
    let mut service = HashMap::new();
    service.insert(7u128, vec![9u8, 8]);
    let device = Device::from(vec![
        DeviceProperty::Name("Widget".to_string()),
        DeviceProperty::AddressType(AddressType::LeRandom),
        DeviceProperty::Icon("phone".to_string()),
        DeviceProperty::Class(0x5a020c),
        DeviceProperty::Appearance(64),
        DeviceProperty::Uuids(uuids.clone()),
        DeviceProperty::Paired(true),
        DeviceProperty::Connected(true),
        DeviceProperty::Trusted(true),
        DeviceProperty::Blocked(true),
        DeviceProperty::WakeAllowed(true),
        DeviceProperty::Alias("My widget".to_string()),
        DeviceProperty::LegacyPairing(true),
        DeviceProperty::Modalias(Modalias {
            source: "usb".to_string(),
            vendor: 0x1d6b,
            product: 0x0246,
            device: 0x0540,
        }),
        DeviceProperty::Rssi(-60),
        DeviceProperty::TxPower(4),
        DeviceProperty::ManufacturerData(manufacturer.clone()),
        DeviceProperty::ServiceData(service.clone()),
        DeviceProperty::ServicesResolved(true),
        DeviceProperty::AdvertisingFlags(vec![0x06]),
        DeviceProperty::AdvertisingData(advertising.clone()),
    ]);
    assert_eq!(device.name, Some("Widget".to_string()));
    assert_eq!(device.address_type, Some(AddressType::LeRandom));
    assert_eq!(device.icon, Some("phone".to_string()));
    assert_eq!(device.class, Some(0x5a020c));
    assert_eq!(device.appearance, Some(64));
    assert_eq!(device.uuids, uuids);
    assert!(device.paired);
    assert!(device.connected);
    assert!(device.trusted);
    assert!(device.blocked);
    assert!(device.wake_allowed);
    assert_eq!(device.alias, Some("My widget".to_string()));
    assert!(device.legacy_pairing);
    assert_eq!(
        device.modalias,
        Some(Modalias { source: "usb".to_string(), vendor: 0x1d6b, product: 0x0246, device: 0x0540 })
    );
    assert_eq!(device.rssi, Some(-60));
    assert_eq!(device.tx_power, Some(4));
    assert_eq!(device.manufacturer_data, manufacturer);
    assert_eq!(device.service_data, service);
    assert!(device.services_resolved);
    assert_eq!(device.advertising_flags, vec![0x06]);
    assert_eq!(device.advertising_data, advertising);
    // No event names the address or the capture time.
    assert_eq!(device.address, Address([0; 6]));
    assert_eq!(device.timestamp, CaptureTime::default());
}

#[test]
fn fold_lets_the_last_event_of_a_field_win() {
    let device = Device::from(vec![
        DeviceProperty::Rssi(-60),
        DeviceProperty::Name("first".to_string()),
        DeviceProperty::Rssi(-75),
        DeviceProperty::Paired(true),
        DeviceProperty::Name("second".to_string()),
        DeviceProperty::Paired(false),
        DeviceProperty::Rssi(-42),
    ]);
    assert_eq!(device.rssi, Some(-42));
    assert_eq!(device.name, Some("second".to_string()));
    assert!(!device.paired);
    assert_eq!(device.tx_power, None);
}

#[test]
fn fold_takes_duplicates() {
    let device = Device::from(vec![
        DeviceProperty::TxPower(8),
        DeviceProperty::TxPower(8),
        DeviceProperty::TxPower(8),
    ]);
    assert_eq!(device.tx_power, Some(8));
    assert_eq!(device.rssi, None);
}

#[test]
fn fold_replaces_collections_whole() {
    let mut first = HashMap::new();
    first.insert(1u16, vec![1u8]);
    first.insert(2u16, vec![2u8]);
    let mut second = HashMap::new();
    second.insert(3u16, vec![3u8]);
    let device = Device::from(vec![
        DeviceProperty::ManufacturerData(first),
        DeviceProperty::AdvertisingFlags(vec![1, 2, 3]),
        DeviceProperty::ManufacturerData(second.clone()),
        DeviceProperty::AdvertisingFlags(vec![]),
    ]);
    assert_eq!(device.manufacturer_data, second);
    assert!(device.advertising_flags.is_empty());
}

#[test]
fn fold_passes_over_unrecorded_properties() {
    let device = Device::from(vec![
        DeviceProperty::Other,
        DeviceProperty::Rssi(-1),
        DeviceProperty::Other,
    ]);
    assert_eq!(device.rssi, Some(-1));
    assert_eq!(device.name, None);
}

#[test]
fn fold_passes_extreme_readings_through() {
    let device = Device::from(vec![
        DeviceProperty::Rssi(i16::MIN),
        DeviceProperty::TxPower(i16::MAX),
        DeviceProperty::Name(String::new()),
    ]);
    assert_eq!(device.rssi, Some(i16::MIN));
    assert_eq!(device.tx_power, Some(i16::MAX));
    assert_eq!(device.name, Some(String::new()));
}

#[test]
fn apply_sets_one_field_and_keeps_the_rest() {
    let mut device = Device::from(vec![
        DeviceProperty::Name("Widget".to_string()),
        DeviceProperty::Rssi(-60),
    ]);
    device.apply(DeviceProperty::Rssi(-70));
    assert_eq!(device.rssi, Some(-70));
    assert_eq!(device.name, Some("Widget".to_string()));
    device.apply(DeviceProperty::Other);
    assert_eq!(device.rssi, Some(-70));
    assert_eq!(device.name, Some("Widget".to_string()));
}

#[test]
fn clone_of_a_snapshot_holds_the_same() {
    let mut uuids = HashSet::new();
    uuids.insert(1u128);
    uuids.insert(2u128);
    let mut device = Device::from(vec![
        DeviceProperty::Name("Widget".to_string()),
        DeviceProperty::Uuids(uuids.clone()),
        DeviceProperty::AdvertisingFlags(vec![1, 2]),
        DeviceProperty::Rssi(-60),
    ]);
    device.address = Address([1, 2, 3, 4, 5, 6]);
    device.timestamp = CaptureTime::new(10, 20).unwrap();
    let copy = device.clone();
    assert_eq!(copy.name, device.name);
    assert_eq!(copy.uuids, uuids);
    assert_eq!(copy.advertising_flags, vec![1, 2]);
    assert_eq!(copy.rssi, Some(-60));
    assert_eq!(copy.address, Address([1, 2, 3, 4, 5, 6]));
    assert_eq!(copy.timestamp, device.timestamp);
}

#[test]
fn address_is_written_in_upper_case_hex_with_colons() {
    assert_eq!(Address([0xAA, 0xBB, 0xCC, 0xDD, 0xEE, 0xFF]).to_string(), "AA:BB:CC:DD:EE:FF");
    assert_eq!(Address([0x11, 0x22, 0x33, 0x44, 0x55, 0x66]).to_string(), "11:22:33:44:55:66");
    assert_eq!(Address([0, 1, 0x0a, 0x10, 0x9f, 0xf0]).to_string(), "00:01:0A:10:9F:F0");
    assert_eq!(Address::default().to_string(), "00:00:00:00:00:00");
}

#[test]
fn capture_time_takes_what_a_duration_can_hold() {
    let time = CaptureTime::new(1_700_000_000, 123_456_789).unwrap();
    assert_eq!(time.secs(), 1_700_000_000);
    assert_eq!(time.nanos(), 123_456_789);
    assert!(CaptureTime::new(0, 0).is_some());
    assert!(CaptureTime::new(i64::MAX as u64, 999_999_999).is_some());
    assert!(CaptureTime::new(i64::MAX as u64 + 1, 0).is_none());
    assert!(CaptureTime::new(u64::MAX, 0).is_none());
    assert!(CaptureTime::new(0, 1_000_000_000).is_none());
    assert!(CaptureTime::new(0, u32::MAX).is_none());
    assert_eq!(CaptureTime::new(0, 0), Some(CaptureTime::default()));
}
