//! The remote-write sink: a snapshot becomes one series for each reading
//! it holds, with the metadata of that series.

use vstd::prelude::*;

use crate::bluetooth::device::{Device, DeviceView};
use crate::bluetooth::time::CaptureTime;
use crate::config::host_name;
use crate::prometheus::proto::metric_metadata::MetricType;
use crate::prometheus::proto::{
    label_views, Label, MetricMetadata, MetricMetadataView, Sample, TimeSeries, TimeSeriesView,
    WriteRequest, WriteRequestView,
};

verus! {

/// The labels that tell whose reading a series holds: the address, the
/// observing host and, where the device has one, its name.
pub open spec fn device_labels(device: DeviceView, host: Seq<char>) -> Seq<
    (Seq<char>, Seq<char>),
> {
    let labels = seq![("address"@, device.address.text()), ("host"@, host)];
    match device.name {
        Some(name) => labels.push(("name"@, name)),
        None => labels,
    }
}

/// The labels of the series of one metric: those of the device, then the
/// metric's name under `__name__`.
pub open spec fn series_labels(device: DeviceView, host: Seq<char>, metric: Seq<char>) -> Seq<
    (Seq<char>, Seq<char>),
> {
    device_labels(device, host).push(("__name__"@, metric))
}

/// The capture time as a sample carries it: the milliseconds since the
/// epoch, cut to 64 bits.
pub open spec fn sample_time(time: CaptureTime) -> i64 {
    time.millis() as i64
}

/// The value of a sample: the reading, or zero where there is none.
pub open spec fn sample_value(reading: Option<i16>) -> i16 {
    match reading {
        Some(value) => value,
        None => 0,
    }
}

/// The series of one metric for a snapshot: its labels and one sample, the
/// reading at capture time.
pub open spec fn series(
    device: DeviceView,
    host: Seq<char>,
    metric: Seq<char>,
    reading: Option<i16>,
) -> TimeSeriesView {
    TimeSeriesView {
        labels: series_labels(device, host, metric),
        samples: seq![
            Sample { value: sample_value(reading), timestamp: sample_time(device.timestamp) }
        ],
        exemplars: Seq::empty(),
    }
}

/// The series of the signal strength.
pub open spec fn rssi_series(device: DeviceView, host: Seq<char>) -> TimeSeriesView {
    series(device, host, "bluetooth_rssi"@, device.rssi)
}

/// The series of the transmit power.
pub open spec fn tx_power_series(device: DeviceView, host: Seq<char>) -> TimeSeriesView {
    series(device, host, "bluetooth_tx_power"@, device.tx_power)
}

/// The metadata of the signal strength family: a gauge.
pub open spec fn rssi_metadata() -> MetricMetadataView {
    MetricMetadataView {
        kind: MetricType::Gauge.number(),
        metric_family_name: "bluetooth_rssi"@,
        help: "The Received Signal Strength Indicator value for the bluetooth device."@,
        unit: "RSSI"@,
    }
}

/// The metadata of the transmit power family: a gauge.
pub open spec fn tx_power_metadata() -> MetricMetadataView {
    MetricMetadataView {
        kind: MetricType::Gauge.number(),
        metric_family_name: "bluetooth_tx_power"@,
        help: "The TX Power in dBm for the bluetooth device."@,
        unit: "dBm"@,
    }
}

/// The request that a snapshot is written with: the series of the signal
/// strength if the snapshot holds one, then that of the transmit power if
/// it holds one, and the metadata of each in the same order.
pub open spec fn write_request(device: DeviceView, host: Seq<char>) -> WriteRequestView {
    let rssi = device.rssi is Some;
    let tx_power = device.tx_power is Some;
    WriteRequestView {
        timeseries: (if rssi {
            seq![rssi_series(device, host)]
        } else {
            Seq::empty()
        }) + (if tx_power {
            seq![tx_power_series(device, host)]
        } else {
            Seq::empty()
        }),
        metadata: (if rssi {
            seq![rssi_metadata()]
        } else {
            Seq::empty()
        }) + (if tx_power {
            seq![tx_power_metadata()]
        } else {
            Seq::empty()
        }),
    }
}

/// A snapshot that holds a signal strength and no transmit power is
/// written as exactly one series with its metadata, that of the signal
/// strength; and the other way round.
pub proof fn lemma_absent_reading_is_skipped(device: DeviceView, host: Seq<char>)
    ensures
        device.rssi is Some && device.tx_power is None ==> write_request(device, host).timeseries
            == seq![rssi_series(device, host)] && write_request(device, host).metadata
            == seq![rssi_metadata()],
        device.rssi is None && device.tx_power is Some ==> write_request(device, host).timeseries
            == seq![tx_power_series(device, host)] && write_request(device, host).metadata
            == seq![tx_power_metadata()],
        device.rssi is None && device.tx_power is None ==> write_request(device, host).timeseries
            == Seq::<TimeSeriesView>::empty() && write_request(device, host).metadata
            == Seq::<MetricMetadataView>::empty(),
        write_request(device, host).timeseries.len() == write_request(device, host).metadata.len(),
        write_request(device, host).timeseries.len() == (if device.rssi is Some {
            1nat
        } else {
            0nat
        }) + (if device.tx_power is Some {
            1nat
        } else {
            0nat
        }),
{
    let request = write_request(device, host);
    if device.rssi is Some && device.tx_power is None {
        assert(request.timeseries =~= seq![rssi_series(device, host)]);
        assert(request.metadata =~= seq![rssi_metadata()]);
    }
    if device.rssi is None && device.tx_power is Some {
        assert(request.timeseries =~= seq![tx_power_series(device, host)]);
        assert(request.metadata =~= seq![tx_power_metadata()]);
    }
    if device.rssi is None && device.tx_power is None {
        assert(request.timeseries =~= Seq::<TimeSeriesView>::empty());
        assert(request.metadata =~= Seq::<MetricMetadataView>::empty());
    }
}

/// The labels of a device, in the order in which every series carries them.
#[derive(Debug, Clone)]
pub struct Labels(pub Vec<Label>);

impl Labels {
    /// The labels that tell whose reading a series holds.
    pub fn from(device: &Device, host: &str) -> (labels: Labels)
        ensures
            label_views(labels.0@) == device_labels(device@, host@),
    {
        let mut labels: Vec<Label> = Vec::new();
        labels.push(Label { name: "address".to_string(), value: device.address.to_string() });
        labels.push(Label { name: "host".to_string(), value: host.to_string() });
        assert(label_views(labels@) =~= seq![
            ("address"@, device@.address.text()),
            ("host"@, host@)
        ]);
        match &device.name {
            Some(name) => {
                let ghost before = labels@;
                labels.push(Label { name: "name".to_string(), value: name.clone() });
                assert(label_views(labels@) =~= label_views(before).push(("name"@, name@)));
            },
            None => {},
        }
        Labels(labels)
    }
}

/// The time of a capture in milliseconds since the epoch, cut to 64 bits.
pub fn sample_timestamp(time: CaptureTime) -> (millis: i64)
    ensures
        millis == sample_time(time),
        time.millis() <= i64::MAX ==> millis == time.millis(),
{
    let secs: u128 = time.secs() as u128;
    let sub: u128 = (time.nanos() / 1_000_000) as u128;
    let millis: u128 = secs * 1000 + sub;
    #[verifier::truncate]
    (millis as i64)
}

/// The remote-write sink. It holds the client that delivers its requests
/// and the name of the observing host.
#[derive(Debug)]
pub struct RemoteWrite<C> {
    pub client: C,
    pub host: String,
}

impl<C: Clone> Clone for RemoteWrite<C> {
    /// A sink with a clone of the client and the same host name.
    fn clone(&self) -> (copy: RemoteWrite<C>)
        ensures
            cloned(self.client, copy.client),
            copy.host == self.host,
    {
        RemoteWrite { client: self.client.clone(), host: self.host.clone() }
    }
}

impl<C> RemoteWrite<C> {
    /// A sink that labels its series with the name of this host.
    pub fn new(client: C) -> (writer: RemoteWrite<C>)
        ensures
            writer.client == client,
    {
        RemoteWrite { client, host: host_name() }
    }

    /// A sink that labels its series with the given host name.
    pub fn with_host(client: C, host: String) -> (writer: RemoteWrite<C>)
        ensures
            writer.client == client,
            writer.host == host,
    {
        RemoteWrite { client, host }
    }

    fn series(&self, device: &Device, metric: &str, reading: Option<i16>) -> (series: TimeSeries)
        ensures
            series@ == self::series(device@, self.host@, metric@, reading),
    {
        let mut labels = Labels::from(device, self.host.as_str());
        let ghost before = labels.0@;
        labels.0.push(Label { name: "__name__".to_string(), value: metric.to_string() });
        assert(label_views(labels.0@) =~= label_views(before).push(("__name__"@, metric@)));
        let mut samples: Vec<Sample> = Vec::new();
        samples.push(
            Sample {
                value: match reading {
                    Some(value) => value,
                    None => 0,
                },
                timestamp: sample_timestamp(device.timestamp),
            },
        );
        let series = TimeSeries { labels: labels.0, samples, exemplars: Vec::new() };
        assert(series@.samples =~= self::series(
            device@,
            self.host@,
            metric@,
            reading,
        ).samples);
        assert(series@.exemplars =~= Seq::empty());
        series
    }

    /// The series and the metadata of the signal strength of a snapshot.
    /// The sample holds zero where the snapshot holds no signal strength.
    pub fn get_rssi(&self, device: Device) -> (pair: (TimeSeries, MetricMetadata))
        ensures
            pair.0@ == rssi_series(device@, self.host@),
            pair.1@ == rssi_metadata(),
    {
        let series = self.series(&device, "bluetooth_rssi", device.rssi);
        let metadata = MetricMetadata {
            kind: i32::from(MetricType::Gauge),
            metric_family_name: "bluetooth_rssi".to_string(),
            help: "The Received Signal Strength Indicator value for the bluetooth device.".to_string(),
            unit: "RSSI".to_string(),
        };
        (series, metadata)
    }

    /// The series and the metadata of the transmit power of a snapshot.
    /// The sample holds zero where the snapshot holds no transmit power.
    pub fn get_tx_power(&self, device: Device) -> (pair: (TimeSeries, MetricMetadata))
        ensures
            pair.0@ == tx_power_series(device@, self.host@),
            pair.1@ == tx_power_metadata(),
    {
        let series = self.series(&device, "bluetooth_tx_power", device.tx_power);
        let metadata = MetricMetadata {
            kind: i32::from(MetricType::Gauge),
            metric_family_name: "bluetooth_tx_power".to_string(),
            help: "The TX Power in dBm for the bluetooth device.".to_string(),
            unit: "dBm".to_string(),
        };
        (series, metadata)
    }

    /// Turns a snapshot into the request to deliver: one series with
    /// its metadata for each reading that the snapshot holds, none for a
    /// reading it lacks. The sink itself does not change.
    pub fn write(&mut self, device: Device) -> (request: WriteRequest)
        ensures
            request@ == write_request(device@, old(self).host@),
            *final(self) == *old(self),
    {
        let mut request = WriteRequest { timeseries: Vec::new(), metadata: Vec::new() };
        assert(request@.timeseries =~= Seq::empty());
        assert(request@.metadata =~= Seq::empty());
        if device.rssi.is_some() {
            let (series, metadata) = self.get_rssi(device.clone());
            request.timeseries.push(series);
            request.metadata.push(metadata);
            assert(request@.timeseries =~= seq![rssi_series(device@, self.host@)]);
            assert(request@.metadata =~= seq![rssi_metadata()]);
        }
        if device.tx_power.is_some() {
            let ghost series_before = request@.timeseries;
            let ghost metadata_before = request@.metadata;
            let ghost host = self.host@;
            let ghost view = device@;
            let (series, metadata) = self.get_tx_power(device);
            request.timeseries.push(series);
            request.metadata.push(metadata);
            assert(request@.timeseries =~= series_before + seq![tx_power_series(view, host)]);
            assert(request@.metadata =~= metadata_before + seq![tx_power_metadata()]);
        }
        assert(request@.timeseries =~= write_request(device@, self.host@).timeseries);
        assert(request@.metadata =~= write_request(device@, self.host@).metadata);
        request
    }
}

} // verus!
