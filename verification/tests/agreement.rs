use std::time::{Duration, UNIX_EPOCH};

use bluez_monitor::bluetooth::{Address, CaptureTime};
use bluez_monitor::loki::Timestamp;
use bluez_monitor::transport::{report_failure, Reply};

#[test]
fn address_reads_as_the_radio_stack_writes_it() {
    for octets in [
        [0u8; 6],
        [0xff; 6],
        [0xAA, 0xBB, 0xCC, 0xDD, 0xEE, 0xFF],
        [0x11, 0x22, 0x33, 0x44, 0x55, 0x66],
        [0x00, 0x0f, 0xf0, 0x09, 0x90, 0xa0],
        [1, 2, 3, 4, 5, 6],
    ] {
        assert_eq!(Address(octets).to_string(), bluer::Address(octets).to_string());
    }
    for octet in 0..=255u8 {
        let octets = [octet, 0, octet, 255, octet, 1];
        assert_eq!(Address(octets).to_string(), bluer::Address(octets).to_string());
    }
}

#[test]
fn timestamp_is_the_one_of_the_wire_library() {
    for (secs, nanos) in [
        (0u64, 0u32),
        (0, 1),
        (1, 0),
        (1_700_000_000, 123_456_789),
        (4_102_444_800, 999_999_999),
    ] {
        let ours = Timestamp::from(CaptureTime::new(secs, nanos).unwrap());
        let theirs = prost_types::Timestamp::from(UNIX_EPOCH + Duration::new(secs, nanos));
        assert_eq!(ours.seconds, theirs.seconds);
        assert_eq!(ours.nanos, theirs.nanos);
    }
}

#[test]
fn success_is_what_the_http_library_calls_success() {
    for code in 100..1000u16 {
        let status = reqwest::StatusCode::from_u16(code).unwrap();
        let reply = Reply::Status { code, body: String::new() };
        assert_eq!(report_failure("", &reply).is_none(), status.is_success());
    }
}
