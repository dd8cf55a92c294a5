use bluez_monitor::bluetooth::{Address, Device, DeviceProperty};
use bluez_monitor::config::PrometheusExporter;
use bluez_monitor::prometheus::exporter::{Gauge, GaugeVec};
use bluez_monitor::prometheus::Exporter;

fn seen(address: [u8; 6], properties: Vec<DeviceProperty>) -> Device {
    let mut device = Device::from(properties);
    device.address = Address(address);
    device
}

fn exporter() -> Exporter {
    Exporter::with_host(PrometheusExporter { host: "0.0.0.0:9099".to_string() }, "h1".to_string())
}

fn gauge(address: &str, host: &str, name: &str, value: i16) -> Gauge {
    Gauge { address: address.to_string(), host: host.to_string(), name: name.to_string(), value }
}

#[test]
fn first_write_asks_for_the_endpoint() {
    let mut sink = exporter();
    assert!(!sink.is_listening());
    assert_eq!(sink.write(seen([1; 6], vec![])), Some("0.0.0.0:9099".to_string()));
    assert!(sink.is_listening());
    assert_eq!(sink.write(seen([1; 6], vec![])), None);
    assert_eq!(sink.write(seen([2; 6], vec![DeviceProperty::Rssi(-1)])), None);
    assert!(sink.is_listening());
}

#[test]
fn a_fresh_sink_has_no_gauges() {
    let sink = exporter();
    assert!(sink.rssi_gauges().is_empty());
    assert!(sink.tx_power_gauges().is_empty());
    let sink = Exporter::new(PrometheusExporter::default());
    assert!(!sink.is_listening());
    assert!(sink.rssi_gauges().is_empty());
}

#[test]
fn rssi_without_tx_power_leaves_the_tx_power_gauges() {
    let mut sink = exporter();
    sink.write(seen([0x11, 0x22, 0x33, 0x44, 0x55, 0x66], vec![
        DeviceProperty::Rssi(-60),
        DeviceProperty::TxPower(4),
    ]));
    let before = sink.tx_power_gauges();
    assert_eq!(before, vec![gauge("11:22:33:44:55:66", "h1", "", 4)]);
    sink.write(seen([0x11, 0x22, 0x33, 0x44, 0x55, 0x66], vec![DeviceProperty::Rssi(-70)]));
    assert_eq!(sink.tx_power_gauges(), before);
    assert_eq!(sink.rssi_gauges(), vec![gauge("11:22:33:44:55:66", "h1", "", -70)]);
}

#[test]
fn a_snapshot_without_readings_leaves_all_gauges() {
    let mut sink = exporter();
    sink.write(seen([1; 6], vec![DeviceProperty::Rssi(-60), DeviceProperty::TxPower(4)]));
    sink.write(seen([1; 6], vec![DeviceProperty::Name("Widget".to_string())]));
    assert_eq!(sink.rssi_gauges(), vec![gauge("01:01:01:01:01:01", "h1", "", -60)]);
    assert_eq!(sink.tx_power_gauges(), vec![gauge("01:01:01:01:01:01", "h1", "", 4)]);
}

#[test]
fn gauges_are_kept_for_each_address_and_name() {
    let mut sink = exporter();
    sink.write(seen([1; 6], vec![DeviceProperty::Rssi(-60)]));
    sink.write(seen([2; 6], vec![DeviceProperty::Rssi(-50)]));
    sink.write(seen([1; 6], vec![
        DeviceProperty::Rssi(-40),
        DeviceProperty::Name("Widget".to_string()),
    ]));
    sink.write(seen([2; 6], vec![DeviceProperty::Rssi(-55)]));
    assert_eq!(
        sink.rssi_gauges(),
        vec![
            gauge("01:01:01:01:01:01", "h1", "", -60),
            gauge("02:02:02:02:02:02", "h1", "", -55),
            gauge("01:01:01:01:01:01", "h1", "Widget", -40),
        ]
    );
    assert!(sink.tx_power_gauges().is_empty());
}

#[test]
fn a_family_is_a_map_from_label_values() {
    let family = GaugeVec::new();
    assert_eq!(family.get("a", "h", "n"), None);
    let family = family.set("a".to_string(), "h".to_string(), "n".to_string(), 1);
    let family = family.set("b".to_string(), "h".to_string(), "n".to_string(), 2);
    assert_eq!(family.get("a", "h", "n"), Some(1));
    assert_eq!(family.get("b", "h", "n"), Some(2));
    assert_eq!(family.get("a", "h", ""), None);
    assert_eq!(family.get("a", "", "n"), None);
    let family = family.set("a".to_string(), "h".to_string(), "n".to_string(), -3);
    assert_eq!(family.get("a", "h", "n"), Some(-3));
    assert_eq!(family.get("b", "h", "n"), Some(2));
    assert_eq!(family.gauges(), vec![gauge("a", "h", "n", -3), gauge("b", "h", "n", 2)]);
}
