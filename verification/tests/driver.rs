use bluez_monitor::bluetooth::{
    AdapterEvent, Address, CaptureTime, Command, Device, DeviceProperty, Discovery,
    DiscoveryError, Signal,
};
use bluez_monitor::config::{
    host_name, host_name_or_empty, Config, Loki, Prometheus, PrometheusExporter,
    PrometheusRemoteWrite,
};
use bluez_monitor::device_writer::{fan_out, Delivery, DeviceWriter, DeviceWriters};
use bluez_monitor::driver::{sinks, Driver};
use bluez_monitor::loki::Push;
use bluez_monitor::prometheus::{Exporter, RemoteWrite};

type Writers = DeviceWriters<(), ()>;

fn widget() -> Address {
    Address([0x11, 0x22, 0x33, 0x44, 0x55, 0x66])
}

fn seen(properties: Vec<DeviceProperty>) -> Device {
    let mut device = Device::from(properties);
    device.address = widget();
    device.timestamp = CaptureTime::new(1_700_000_000, 0).unwrap();
    device
}

fn remote_write() -> Writers {
    DeviceWriters::PrometheusRemoteWrite(RemoteWrite::with_host((), "h1".to_string()))
}

fn log_push() -> Writers {
    DeviceWriters::Loki(Push::with_host((), "h1".to_string()))
}

fn exposition() -> Writers {
    DeviceWriters::PrometheusExporter(Exporter::with_host(
        PrometheusExporter { host: "127.0.0.1:9099".to_string() },
        "h1".to_string(),
    ))
}

fn remote_write_config() -> PrometheusRemoteWrite {
    PrometheusRemoteWrite { url: "http://m".to_string(), username: None, password: None }
}

fn loki_config() -> Loki {
    Loki { url: "http://l".to_string(), username: Some("u".to_string()), password: None }
}

#[test]
fn default_configuration_is_the_exposition_endpoint() {
    let config = Config::default();
    let prometheus = config.prometheus.unwrap();
    assert_eq!(prometheus.exporter.unwrap().host, "0.0.0.0:9099");
    assert!(prometheus.remote_write.is_none());
    assert!(config.loki.is_none());
    assert_eq!(PrometheusExporter::default().host, "0.0.0.0:9099");
    let prometheus = Prometheus::default();
    assert_eq!(prometheus.exporter.unwrap().host, "0.0.0.0:9099");
    assert!(prometheus.remote_write.is_none());
}

#[test]
fn missing_configuration_falls_back_to_the_default() {
    let config = Config::or_default(None);
    assert_eq!(config.prometheus.unwrap().exporter.unwrap().host, "0.0.0.0:9099");
    assert!(config.loki.is_none());
    let given = Config { prometheus: None, loki: Some(loki_config()) };
    let config = Config::or_default(Some(given));
    assert!(config.prometheus.is_none());
    assert_eq!(config.loki.unwrap().url, "http://l");
}

#[test]
fn host_name_is_empty_where_the_system_has_none() {
    assert_eq!(host_name_or_empty(None), "");
    assert_eq!(host_name_or_empty(Some("h1".to_string())), "h1");
    // Whatever the system says, it says it twice.
    assert_eq!(host_name(), host_name());
}

#[test]
fn sinks_follow_the_configuration() {
    assert!(sinks(Config { prometheus: None, loki: None }).is_empty());
    assert!(sinks(Config {
        prometheus: Some(Prometheus { exporter: None, remote_write: None }),
        loki: None,
    })
    .is_empty());
    let all = sinks(Config {
        prometheus: Some(Prometheus {
            exporter: Some(PrometheusExporter { host: "127.0.0.1:1".to_string() }),
            remote_write: Some(remote_write_config()),
        }),
        loki: Some(loki_config()),
    });
    assert_eq!(all.len(), 3);
    assert!(matches!(&all[0], DeviceWriters::PrometheusExporter(_)));
    assert!(
        matches!(&all[1], DeviceWriters::PrometheusRemoteWrite(sink) if sink.client.config.url == "http://m")
    );
    assert!(matches!(&all[2], DeviceWriters::Loki(sink) if sink.client.config.url == "http://l"
        && sink.client.config.username == Some("u".to_string())));
    let default = sinks(Config::default());
    assert_eq!(default.len(), 1);
    assert!(matches!(&default[0], DeviceWriters::PrometheusExporter(_)));
    let logs = sinks(Config { prometheus: None, loki: Some(loki_config()) });
    assert_eq!(logs.len(), 1);
    assert!(matches!(&logs[0], DeviceWriters::Loki(_)));
}

#[test]
fn constructors_make_the_sink_of_their_kind() {
    let writer: DeviceWriters<u8, u16> = DeviceWriters::prometheus_remote_write(3u8);
    assert!(matches!(writer, DeviceWriters::PrometheusRemoteWrite(ref sink) if sink.client == 3));
    let writer: DeviceWriters<u8, u16> = DeviceWriters::loki(4u16);
    assert!(matches!(writer, DeviceWriters::Loki(ref sink) if sink.client == 4));
    let writer: DeviceWriters<u8, u16> =
        DeviceWriters::prometheus_exporter(PrometheusExporter::default());
    assert!(matches!(writer, DeviceWriters::PrometheusExporter(ref sink) if !sink.is_listening()));
}

#[test]
fn driver_without_sinks_never_opens_a_session() {
    let mut driver: Driver<(), ()> = Driver::new(vec![]);
    assert!(driver.refuses());
    for signal in [
        Signal::Demand,
        Signal::Done,
        Signal::Event(AdapterEvent::DeviceAdded(widget())),
        Signal::Resolved(vec![], CaptureTime::default()),
        Signal::Demand,
        Signal::Closed,
    ] {
        assert!(matches!(driver.step(signal), Command::End));
        assert_eq!(driver.discovery, Discovery::Idle);
    }
}

#[test]
fn driver_with_a_sink_runs_the_stream() {
    let mut driver = Driver::new(vec![remote_write()]);
    assert!(!driver.refuses());
    assert_eq!(driver.discovery, Discovery::Idle);
    assert!(matches!(driver.step(Signal::Demand), Command::OpenSession));
    assert!(matches!(driver.step(Signal::Done), Command::DefaultAdapter));
    assert_eq!(driver.writers.len(), 1);
}

#[test]
fn one_added_device_gives_one_write_request() {
    let mut driver = Driver::new(vec![remote_write()]);
    let mut requests = vec![];
    let mut commands = vec![];
    for signal in [
        Signal::Demand,
        Signal::Done,
        Signal::Done,
        Signal::Done,
        Signal::Done,
        Signal::Event(AdapterEvent::DeviceAdded(widget())),
        Signal::Resolved(
            vec![DeviceProperty::Rssi(-60), DeviceProperty::Name("Widget".to_string())],
            CaptureTime::new(1_700_000_000, 0).unwrap(),
        ),
        Signal::Demand,
    ] {
        match driver.step(signal) {
            Command::Yield(device) => {
                assert_eq!(device.address, widget());
                for delivery in driver.fan_out(&device, "{}") {
                    match delivery {
                        Delivery::RemoteWrite(request) => requests.push(request),
                        other => panic!("unexpected delivery {:?}", other),
                    }
                }
            }
            other => commands.push(other),
        }
    }
    assert_eq!(commands.len(), 7);
    assert!(matches!(commands[5], Command::Resolve(address) if address == widget()));
    assert!(matches!(commands[6], Command::NextEvent));
    assert_eq!(requests.len(), 1);
    let request = &requests[0];
    assert_eq!(request.timeseries.len(), 1);
    assert_eq!(request.metadata.len(), 1);
    let series = &request.timeseries[0];
    let labels: Vec<(&str, &str)> =
        series.labels.iter().map(|label| (label.name.as_str(), label.value.as_str())).collect();
    assert_eq!(
        labels,
        vec![
            ("address", "11:22:33:44:55:66"),
            ("host", "h1"),
            ("name", "Widget"),
            ("__name__", "bluetooth_rssi"),
        ]
    );
    assert_eq!(series.samples.len(), 1);
    assert_eq!(f64::from(series.samples[0].value), -60.0);
    assert_eq!(series.samples[0].timestamp, 1_700_000_000_000);
}

#[test]
fn one_added_device_with_both_readings_gives_two_series() {
    let mut writers = vec![remote_write()];
    let device = seen(vec![
        DeviceProperty::Rssi(-60),
        DeviceProperty::TxPower(3),
        DeviceProperty::Name("Widget".to_string()),
    ]);
    let mut deliveries = fan_out(&mut writers, &device, "{}");
    assert_eq!(deliveries.len(), 1);
    match deliveries.pop().unwrap() {
        Delivery::RemoteWrite(request) => {
            assert_eq!(request.timeseries.len(), 2);
            for series in &request.timeseries {
                let names: Vec<&str> =
                    series.labels.iter().map(|label| label.name.as_str()).collect();
                assert_eq!(names, vec!["address", "host", "name", "__name__"]);
                assert_eq!(series.labels[2].value, "Widget");
            }
            assert_eq!(f64::from(request.timeseries[0].samples[0].value), -60.0);
            assert_eq!(f64::from(request.timeseries[1].samples[0].value), 3.0);
        }
        other => panic!("unexpected delivery {:?}", other),
    }
}

#[test]
fn fan_out_gives_each_sink_its_delivery_in_order() {
    let mut writers = vec![exposition(), remote_write(), log_push()];
    let device = seen(vec![DeviceProperty::Rssi(-60)]);
    let deliveries = fan_out(&mut writers, &device, "line one");
    assert_eq!(deliveries.len(), 3);
    assert!(
        matches!(&deliveries[0], Delivery::Exposed { listen: Some(address) } if address == "127.0.0.1:9099")
    );
    assert!(matches!(&deliveries[1], Delivery::RemoteWrite(request) if request.timeseries.len() == 1));
    assert!(
        matches!(&deliveries[2], Delivery::Push(request) if request.streams[0].entries[0].line == "line one")
    );
    let deliveries = fan_out(&mut writers, &device, "line two");
    assert!(matches!(&deliveries[0], Delivery::Exposed { listen: None }));
    assert!(
        matches!(&deliveries[2], Delivery::Push(request) if request.streams[0].entries[0].line == "line two")
    );
    assert!(
        matches!(&writers[0], DeviceWriters::PrometheusExporter(sink) if sink.rssi_gauges().len() == 1)
    );
}

#[test]
fn fan_out_to_no_sinks_delivers_nothing() {
    let mut writers: Vec<Writers> = vec![];
    assert!(fan_out(&mut writers, &seen(vec![]), "").is_empty());
}

#[test]
fn a_sink_gets_the_same_whatever_stands_beside_it() {
    let stream = vec![
        seen(vec![DeviceProperty::Rssi(-60)]),
        seen(vec![DeviceProperty::TxPower(1), DeviceProperty::Name("Widget".to_string())]),
        seen(vec![]),
        seen(vec![DeviceProperty::Rssi(-61), DeviceProperty::TxPower(2)]),
    ];
    let mut alone = vec![log_push()];
    let mut beside = vec![remote_write(), exposition(), log_push()];
    for (round, device) in stream.iter().enumerate() {
        let line = format!("record {}", round);
        let mut expected = fan_out(&mut alone, device, &line);
        let mut got = fan_out(&mut beside, device, &line);
        assert_eq!(got.len(), 3);
        match (expected.pop().unwrap(), got.pop().unwrap()) {
            (Delivery::Push(expected), Delivery::Push(got)) => {
                assert_eq!(got, expected);
                assert_eq!(got.streams[0].entries[0].line, line);
            }
            other => panic!("unexpected deliveries {:?}", other),
        }
    }
}

#[test]
fn write_goes_to_the_sink_that_it_is() {
    let device = seen(vec![DeviceProperty::Rssi(-60)]);
    let mut writer = remote_write();
    assert!(matches!(writer.write(device.clone(), "x".to_string()), Delivery::RemoteWrite(_)));
    let mut writer = log_push();
    assert!(matches!(writer.write(device.clone(), "x".to_string()), Delivery::Push(_)));
    let mut writer = exposition();
    assert!(matches!(
        writer.write(device.clone(), "x".to_string()),
        Delivery::Exposed { listen: Some(_) }
    ));
    assert!(matches!(writer.write(device, "x".to_string()), Delivery::Exposed { listen: None }));
}

#[test]
fn a_discovery_failure_is_the_last_thing_the_driver_hands_over() {
    let mut driver = Driver::new(vec![log_push()]);
    driver.step(Signal::Demand);
    let command = driver.step(Signal::Failed(DiscoveryError::Bluetooth("no adapter".to_string())));
    match command {
        Command::Fail(error) => assert_eq!(error.to_string(), "bluetooth error: no adapter"),
        other => panic!("expected a failure, got {:?}", other),
    }
    assert!(matches!(driver.step(Signal::Demand), Command::End));
    assert_eq!(driver.discovery, Discovery::Finished);
}

#[test]
fn every_sink_has_the_capability_to_be_written_to() {
    let device = seen(vec![DeviceProperty::Rssi(-60), DeviceProperty::TxPower(2)]);
    let mut sink = RemoteWrite::with_host((), "h1".to_string());
    match DeviceWriter::write(&mut sink, device.clone(), "x".to_string()) {
        Delivery::RemoteWrite(request) => assert_eq!(request.timeseries.len(), 2),
        other => panic!("unexpected delivery {:?}", other),
    }
    let mut sink = Push::with_host((), "h1".to_string());
    match DeviceWriter::write(&mut sink, device.clone(), "x".to_string()) {
        Delivery::Push(request) => assert_eq!(request.streams[0].entries[0].line, "x"),
        other => panic!("unexpected delivery {:?}", other),
    }
    let mut sink = Exporter::with_host(PrometheusExporter::default(), "h1".to_string());
    match DeviceWriter::write(&mut sink, device.clone(), "x".to_string()) {
        Delivery::Exposed { listen } => assert_eq!(listen, Some("0.0.0.0:9099".to_string())),
        other => panic!("unexpected delivery {:?}", other),
    }
    assert_eq!(sink.tx_power_gauges().len(), 1);
    let mut sink = log_push();
    assert!(matches!(
        DeviceWriter::write(&mut sink, device, "x".to_string()),
        Delivery::Push(_)
    ));
}

#[test]
fn clones_of_sinks_hold_the_same() {
    let mut sink = exposition();
    sink.write(seen(vec![DeviceProperty::Rssi(-60)]), String::new());
    let copy = sink.clone();
    match (&sink, &copy) {
        (DeviceWriters::PrometheusExporter(sink), DeviceWriters::PrometheusExporter(copy)) => {
            assert_eq!(copy.rssi_gauges(), sink.rssi_gauges());
            assert_eq!(copy.is_listening(), sink.is_listening());
        }
        other => panic!("unexpected sinks {:?}", other),
    }
    let copy = remote_write().clone();
    assert!(matches!(copy, DeviceWriters::PrometheusRemoteWrite(ref sink) if sink.host == "h1"));
    let copy = log_push().clone();
    assert!(matches!(copy, DeviceWriters::Loki(ref sink) if sink.host == "h1"));
}
