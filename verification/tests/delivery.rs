use bluez_monitor::config::{Loki, PrometheusRemoteWrite};
use bluez_monitor::transport::{
    basic_auth, compress, header, report_failure, BasicAuth, Header, HttpRequest, Reply,
};
use bluez_monitor::{loki, prometheus};

fn remote_write_config(username: Option<&str>, password: Option<&str>) -> PrometheusRemoteWrite {
    PrometheusRemoteWrite {
        url: "http://metrics.example/api/v1/write".to_string(),
        username: username.map(|text| text.to_string()),
        password: password.map(|text| text.to_string()),
    }
}

fn loki_config(username: Option<&str>, password: Option<&str>) -> Loki {
    Loki {
        url: "http://logs.example/loki/api/v1/push".to_string(),
        username: username.map(|text| text.to_string()),
        password: password.map(|text| text.to_string()),
    }
}

fn pair(name: &str, value: &str) -> Header {
    Header { name: name.to_string(), value: value.to_string() }
}

fn decompressed(body: &[u8]) -> Vec<u8> {
    snap::raw::Decoder::new().decompress_vec(body).unwrap()
}

#[test]
fn body_is_the_snappy_block_of_the_message() {
    let message: Vec<u8> = (0..200u32).map(|i| (i % 7) as u8).collect();
    let body = compress(&message).unwrap();
    assert_ne!(body, message);
    assert!(body.len() < message.len());
    assert_eq!(decompressed(&body), message);
}

#[test]
fn empty_message_still_has_a_body() {
    let body = compress(&vec![]).unwrap();
    assert_eq!(body, vec![0u8]);
    assert_eq!(decompressed(&body), Vec::<u8>::new());
}

#[test]
fn remote_write_request_has_its_headers() {
    let client = prometheus::DefaultClient::new(remote_write_config(None, None));
    let message = vec![10u8, 20, 30, 40];
    let request = client.remote_write(&message).unwrap();
    assert_eq!(request.url, "http://metrics.example/api/v1/write");
    assert_eq!(
        request.headers,
        vec![
            pair("Content-Type", "application/x-protobuf"),
            pair("Content-Encoding", "snappy"),
            pair("X-Prometheus-Remote-Write-Version", "0.1.0"),
            pair("User-Agent", "bluez-monitor/0.1.0"),
        ]
    );
    assert_eq!(request.basic_auth, None);
    assert_ne!(request.body, message);
    assert_eq!(decompressed(&request.body), message);
}

#[test]
fn remote_write_request_has_the_credentials() {
    let client = prometheus::DefaultClient::new(remote_write_config(Some("me"), Some("secret")));
    let request = client.remote_write(&vec![1u8]).unwrap();
    assert_eq!(
        request.basic_auth,
        Some(BasicAuth { username: "me".to_string(), password: Some("secret".to_string()) })
    );
    let client = prometheus::DefaultClient::new(remote_write_config(Some("me"), None));
    let request = client.remote_write(&vec![1u8]).unwrap();
    assert_eq!(request.basic_auth, Some(BasicAuth { username: "me".to_string(), password: None }));
    // A password alone is no credential.
    let client = prometheus::DefaultClient::new(remote_write_config(None, Some("secret")));
    let request = client.remote_write(&vec![1u8]).unwrap();
    assert_eq!(request.basic_auth, None);
}

#[test]
fn push_request_has_its_headers() {
    let client = loki::DefaultClient::new(loki_config(Some("me"), Some("secret")));
    let message = vec![7u8; 64];
    let request = client.push(&message).unwrap();
    assert_eq!(
        request,
        HttpRequest {
            url: "http://logs.example/loki/api/v1/push".to_string(),
            headers: vec![
                pair("Content-Type", "application/x-protobuf"),
                pair("Content-Encoding", "snappy"),
                pair("User-Agent", "bluez-monitor/0.1.0"),
            ],
            basic_auth: Some(BasicAuth {
                username: "me".to_string(),
                password: Some("secret".to_string()),
            }),
            body: compress(&message).unwrap(),
        }
    );
    assert_eq!(decompressed(&request.body), message);
}

#[test]
fn success_is_not_reported() {
    for code in [200u16, 201, 204, 299] {
        let reply = Reply::Status { code, body: "ok".to_string() };
        assert_eq!(report_failure("failed: ", &reply), None);
    }
}

#[test]
fn other_statuses_are_reported_with_the_body_quoted() {
    for code in [0u16, 100, 199, 300, 301, 400, 404, 500, 599, u16::MAX] {
        let reply = Reply::Status { code, body: "out of \"order\"".to_string() };
        assert_eq!(
            report_failure("failed: ", &reply),
            Some("failed: \"out of \\\"order\\\"\"".to_string())
        );
    }
}

#[test]
fn transport_failures_are_reported_as_they_are() {
    let reply = Reply::Failed("connection refused".to_string());
    assert_eq!(
        report_failure("failed: ", &reply),
        Some("failed: connection refused".to_string())
    );
}

#[test]
fn clients_report_under_their_own_words() {
    let bad = Reply::Status { code: 500, body: "boom".to_string() };
    let good = Reply::Status { code: 204, body: String::new() };
    let lost = Reply::Failed("timed out".to_string());
    let metrics = prometheus::DefaultClient::new(remote_write_config(None, None));
    assert_eq!(
        metrics.report(&bad),
        Some("prometheus remote write request failed: \"boom\"".to_string())
    );
    assert_eq!(
        metrics.report(&lost),
        Some("prometheus remote write request failed: timed out".to_string())
    );
    assert_eq!(metrics.report(&good), None);
    let logs = loki::DefaultClient::new(loki_config(None, None));
    assert_eq!(logs.report(&bad), Some("loki push request failed: \"boom\"".to_string()));
    assert_eq!(logs.report(&lost), Some("loki push request failed: timed out".to_string()));
    assert_eq!(logs.report(&good), None);
}

#[test]
fn helpers_build_what_they_are_given() {
    assert_eq!(header("A", "b"), pair("A", "b"));
    assert_eq!(basic_auth(&None, &None), None);
    assert_eq!(
        basic_auth(&Some("u".to_string()), &Some("p".to_string())),
        Some(BasicAuth { username: "u".to_string(), password: Some("p".to_string()) })
    );
}
