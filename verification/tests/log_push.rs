use bluez_monitor::bluetooth::{Address, CaptureTime, Device, DeviceProperty};
use bluez_monitor::loki::{EntryAdapter, Labels, Push, PushRequest, StreamAdapter, Timestamp};

fn seen(address: [u8; 6], properties: Vec<DeviceProperty>) -> Device {
    let mut device = Device::from(properties);
    device.address = Address(address);
    device.timestamp = CaptureTime::new(1_700_000_000, 123_456_789).unwrap();
    device
}

#[test]
fn labels_without_a_name_have_no_name_key() {
    let device = seen([0xAA, 0xBB, 0xCC, 0xDD, 0xEE, 0xFF], vec![]);
    let labels = Labels::from(&device, "h1");
    assert_eq!(labels.0, "{address=\"AA:BB:CC:DD:EE:FF\", host=\"h1\"}");
    assert!(!labels.0.contains("name"));
}

#[test]
fn labels_with_a_name_end_with_it() {
    let device = seen(
        [0x11, 0x22, 0x33, 0x44, 0x55, 0x66],
        vec![DeviceProperty::Name("Widget".to_string())],
    );
    assert_eq!(
        Labels::from(&device, "h1").0,
        "{address=\"11:22:33:44:55:66\", host=\"h1\", name=\"Widget\"}"
    );
}

#[test]
fn labels_with_an_empty_name_keep_the_key() {
    let device = seen([0; 6], vec![DeviceProperty::Name(String::new())]);
    assert_eq!(
        Labels::from(&device, "").0,
        "{address=\"00:00:00:00:00:00\", host=\"\", name=\"\"}"
    );
}

#[test]
fn labels_quote_what_needs_quoting() {
    let device = seen([0; 6], vec![DeviceProperty::Name("a \"b\"\n\\c".to_string())]);
    assert_eq!(
        Labels::from(&device, "h\t1").0,
        "{address=\"00:00:00:00:00:00\", host=\"h\\t1\", name=\"a \\\"b\\\"\\n\\\\c\"}"
    );
}

#[test]
fn push_is_one_stream_with_one_entry() {
    let mut sink = Push::with_host((), "h1".to_string());
    let device = seen([0xAA, 0xBB, 0xCC, 0xDD, 0xEE, 0xFF], vec![DeviceProperty::Rssi(-60)]);
    let request = sink.write(device, "{\"rssi\":-60}".to_string());
    assert_eq!(
        request,
        PushRequest {
            streams: vec![StreamAdapter {
                labels: "{address=\"AA:BB:CC:DD:EE:FF\", host=\"h1\"}".to_string(),
                entries: vec![EntryAdapter {
                    timestamp: Some(Timestamp { seconds: 1_700_000_000, nanos: 123_456_789 }),
                    line: "{\"rssi\":-60}".to_string(),
                }],
                hash: 0,
            }],
        }
    );
    assert_eq!(sink.host, "h1");
}

#[test]
fn push_carries_the_line_as_given() {
    let mut sink = Push::with_host((), "h1".to_string());
    let request = sink.write(seen([1, 2, 3, 4, 5, 6], vec![]), String::new());
    assert_eq!(request.streams.len(), 1);
    assert_eq!(request.streams[0].entries.len(), 1);
    assert_eq!(request.streams[0].entries[0].line, "");
}

#[test]
fn timestamp_has_the_seconds_and_nanoseconds_of_the_capture() {
    assert_eq!(
        Timestamp::from(CaptureTime::new(0, 0).unwrap()),
        Timestamp { seconds: 0, nanos: 0 }
    );
    assert_eq!(
        Timestamp::from(CaptureTime::new(i64::MAX as u64, 999_999_999).unwrap()),
        Timestamp { seconds: i64::MAX, nanos: 999_999_999 }
    );
}

#[test]
fn labels_read_as_their_text() {
    let device = seen([0xAA, 0xBB, 0xCC, 0xDD, 0xEE, 0xFF], vec![]);
    let labels = Labels::from(&device, "h1");
    assert_eq!(labels.as_str(), "{address=\"AA:BB:CC:DD:EE:FF\", host=\"h1\"}");
    assert_eq!(*labels, labels.0);
    assert_eq!(labels.len(), 40);
}
