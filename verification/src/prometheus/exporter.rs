//! The exposition sink: gauges of the latest readings, one for each device,
//! host and name, which a scrape of the endpoint renders.

use vstd::prelude::*;

use crate::bluetooth::device::{Device, DeviceView};
use crate::config;
use crate::config::host_name;
use crate::text::text_of;

verus! {

/// The label values that tell one gauge of a family from another: the
/// address, the observing host, and the name of the device.
pub type LabelValues = (Seq<char>, Seq<char>, Seq<char>);

/// One gauge with the values of its labels.
#[derive(Debug, PartialEq, Eq)]
pub struct Gauge {
    pub address: String,
    pub host: String,
    pub name: String,
    pub value: i16,
}

impl Gauge {
    /// The label values of this gauge.
    pub open spec fn labels(self) -> LabelValues {
        (self.address@, self.host@, self.name@)
    }
}

impl Clone for Gauge {
    fn clone(&self) -> (copy: Gauge)
        ensures
            copy == *self,
    {
        Gauge {
            address: self.address.clone(),
            host: self.host.clone(),
            name: self.name.clone(),
            value: self.value,
        }
    }
}

/// The gauges of one metric family. No two of them have the same label
/// values, so the family is a map from label values to the value set last.
#[derive(Debug)]
pub struct GaugeVec {
    gauges: Vec<Gauge>,
}

/// Whether the gauge at `i` has the label values `labels`.
pub open spec fn is_at(gauges: Seq<Gauge>, labels: LabelValues, i: int) -> bool {
    0 <= i < gauges.len() && gauges[i].labels() == labels
}

/// Whether no two gauges have the same label values.
pub open spec fn distinct(gauges: Seq<Gauge>) -> bool {
    forall|i: int, j: int|
        0 <= i < j < gauges.len() ==> #[trigger] gauges[i].labels() != #[trigger] gauges[j].labels()
}

/// The map that gauges with distinct label values stand for.
pub open spec fn readings(gauges: Seq<Gauge>) -> Map<LabelValues, i16> {
    Map::new(
        |labels: LabelValues| exists|i: int| is_at(gauges, labels, i),
        |labels: LabelValues| gauges[choose|i: int| is_at(gauges, labels, i)].value,
    )
}

proof fn lemma_reading_at(gauges: Seq<Gauge>, i: int)
    requires
        distinct(gauges),
        0 <= i < gauges.len(),
    ensures
        readings(gauges).contains_key(gauges[i].labels()),
        readings(gauges)[gauges[i].labels()] == gauges[i].value,
{
    let labels = gauges[i].labels();
    assert(is_at(gauges, labels, i));
    let chosen = choose|k: int| is_at(gauges, labels, k);
    assert(is_at(gauges, labels, chosen));
    if chosen < i {
        assert(gauges[chosen].labels() != gauges[i].labels());
    }
    if i < chosen {
        assert(gauges[i].labels() != gauges[chosen].labels());
    }
}

proof fn lemma_update(gauges: Seq<Gauge>, i: int, gauge: Gauge)
    requires
        distinct(gauges),
        0 <= i < gauges.len(),
        gauges[i].labels() == gauge.labels(),
    ensures
        distinct(gauges.update(i, gauge)),
        readings(gauges.update(i, gauge)) == readings(gauges).insert(gauge.labels(), gauge.value),
{
    let after = gauges.update(i, gauge);
    assert forall|a: int, b: int| 0 <= a < b < after.len() implies #[trigger] after[a].labels()
        != #[trigger] after[b].labels() by {
        assert(gauges[a].labels() != gauges[b].labels());
    }
    let expected = readings(gauges).insert(gauge.labels(), gauge.value);
    assert forall|labels: LabelValues| readings(after).contains_key(labels)
        <==> expected.contains_key(labels) by {
        if readings(after).contains_key(labels) {
            let k = choose|k: int| is_at(after, labels, k);
            if k != i {
                assert(is_at(gauges, labels, k));
            }
        }
        if expected.contains_key(labels) {
            if labels == gauge.labels() {
                assert(is_at(after, labels, i));
            } else {
                let k = choose|k: int| is_at(gauges, labels, k);
                assert(is_at(after, labels, k));
            }
        }
    }
    assert forall|labels: LabelValues| readings(after).contains_key(labels) implies readings(
        after,
    )[labels] == expected[labels] by {
        let k = choose|k: int| is_at(after, labels, k);
        lemma_reading_at(after, k);
        if k != i {
            lemma_reading_at(gauges, k);
        }
    }
    assert(readings(after) =~= expected);
}

proof fn lemma_push(gauges: Seq<Gauge>, gauge: Gauge)
    requires
        distinct(gauges),
        forall|i: int| 0 <= i < gauges.len() ==> gauges[i].labels() != gauge.labels(),
    ensures
        distinct(gauges.push(gauge)),
        readings(gauges.push(gauge)) == readings(gauges).insert(gauge.labels(), gauge.value),
{
    let after = gauges.push(gauge);
    let last = gauges.len() as int;
    assert forall|a: int, b: int| 0 <= a < b < after.len() implies #[trigger] after[a].labels()
        != #[trigger] after[b].labels() by {
        if b < last {
            assert(gauges[a].labels() != gauges[b].labels());
        }
    }
    let expected = readings(gauges).insert(gauge.labels(), gauge.value);
    assert forall|labels: LabelValues| readings(after).contains_key(labels)
        <==> expected.contains_key(labels) by {
        if readings(after).contains_key(labels) {
            let k = choose|k: int| is_at(after, labels, k);
            if k != last {
                assert(is_at(gauges, labels, k));
            }
        }
        if expected.contains_key(labels) {
            if labels == gauge.labels() {
                assert(is_at(after, labels, last));
            } else {
                let k = choose|k: int| is_at(gauges, labels, k);
                assert(is_at(after, labels, k));
            }
        }
    }
    assert forall|labels: LabelValues| readings(after).contains_key(labels) implies readings(
        after,
    )[labels] == expected[labels] by {
        let k = choose|k: int| is_at(after, labels, k);
        lemma_reading_at(after, k);
        if k != last {
            lemma_reading_at(gauges, k);
        }
    }
    assert(readings(after) =~= expected);
}

impl View for GaugeVec {
    type V = Map<LabelValues, i16>;

    closed spec fn view(&self) -> Map<LabelValues, i16> {
        readings(self.gauges@)
    }
}

impl Clone for GaugeVec {
    /// A family with the same gauges.
    fn clone(&self) -> (copy: GaugeVec)
        ensures
            copy@ == self@,
    {
        GaugeVec { gauges: self.gauges() }
    }
}

impl GaugeVec {
    #[verifier::type_invariant]
    spec fn well_formed(self) -> bool {
        distinct(self.gauges@)
    }

    /// A family without gauges.
    pub fn new() -> (family: GaugeVec)
        ensures
            family@ == Map::<LabelValues, i16>::empty(),
    {
        let family = GaugeVec { gauges: Vec::new() };
        assert(family@ =~= Map::<LabelValues, i16>::empty());
        family
    }

    /// The family with the gauge of these label values set to `value`; the
    /// other gauges stay as they are.
    pub fn set(self, address: String, host: String, name: String, value: i16) -> (family:
        GaugeVec)
        ensures
            family@ == self@.insert((address@, host@, name@), value),
    {
        proof {
            use_type_invariant(&self);
        }
        let gauge = Gauge { address, host, name, value };
        let mut gauges = self.gauges;
        let mut i: usize = 0;
        while i < gauges.len()
            invariant
                i <= gauges.len(),
                gauges@ == self.gauges@,
                distinct(gauges@),
                gauge.labels() == (address@, host@, name@),
                gauge.value == value,
                forall|k: int| 0 <= k < i ==> gauges@[k].labels() != gauge.labels(),
            decreases gauges.len() - i,
        {
            let found = gauges[i].address == gauge.address && gauges[i].host == gauge.host
                && gauges[i].name == gauge.name;
            if found {
                proof {
                    lemma_update(gauges@, i as int, gauge);
                }
                gauges.set(i, gauge);
                return GaugeVec { gauges };
            }
            i = i + 1;
        }
        proof {
            lemma_push(gauges@, gauge);
        }
        gauges.push(gauge);
        GaugeVec { gauges }
    }

    /// The value of the gauge with these label values, if the family has
    /// that gauge.
    pub fn get(&self, address: &str, host: &str, name: &str) -> (value: Option<i16>)
        ensures
            value is Some <==> self@.contains_key((address@, host@, name@)),
            value matches Some(reading) ==> reading == self@[(address@, host@, name@)],
    {
        proof {
            use_type_invariant(self);
        }
        let wanted_address = address.to_string();
        let wanted_host = host.to_string();
        let wanted_name = name.to_string();
        let ghost labels = (address@, host@, name@);
        let mut i: usize = 0;
        while i < self.gauges.len()
            invariant
                i <= self.gauges.len(),
                distinct(self.gauges@),
                labels == (address@, host@, name@),
                labels == (wanted_address@, wanted_host@, wanted_name@),
                forall|k: int| 0 <= k < i ==> self.gauges@[k].labels() != labels,
            decreases self.gauges.len() - i,
        {
            let found = self.gauges[i].address == wanted_address && self.gauges[i].host
                == wanted_host && self.gauges[i].name == wanted_name;
            if found {
                proof {
                    lemma_reading_at(self.gauges@, i as int);
                }
                return Some(self.gauges[i].value);
            }
            i = i + 1;
        }
        proof {
            if self@.contains_key(labels) {
                let k = choose|k: int| is_at(self.gauges@, labels, k);
                assert(is_at(self.gauges@, labels, k));
            }
        }
        None
    }

    /// The gauges of the family, each once: what a rendering of the family
    /// shows.
    pub fn gauges(&self) -> (gauges: Vec<Gauge>)
        ensures
            distinct(gauges@),
            readings(gauges@) == self@,
    {
        proof {
            use_type_invariant(self);
        }
        let mut gauges: Vec<Gauge> = Vec::new();
        let mut i: usize = 0;
        while i < self.gauges.len()
            invariant
                i <= self.gauges.len(),
                gauges@ == self.gauges@.take(i as int),
            decreases self.gauges.len() - i,
        {
            gauges.push(self.gauges[i].clone());
            assert(gauges@ =~= self.gauges@.take(i + 1));
            i = i + 1;
        }
        assert(gauges@ =~= self.gauges@);
        gauges
    }
}

/// The label values under which the readings of a device are exposed: its
/// address, the observing host, and its name, empty where it has none.
pub open spec fn gauge_labels(device: DeviceView, host: Seq<char>) -> LabelValues {
    (
        device.address.text(),
        host,
        match device.name {
            Some(name) => name,
            None => Seq::empty(),
        },
    )
}

/// A family after a snapshot is written to it: the gauge of the device
/// holds the reading if the snapshot has one, and nothing changes if it has
/// none.
pub open spec fn exposed(
    family: Map<LabelValues, i16>,
    device: DeviceView,
    host: Seq<char>,
    reading: Option<i16>,
) -> Map<LabelValues, i16> {
    match reading {
        Some(value) => family.insert(gauge_labels(device, host), value),
        None => family,
    }
}

/// What an `Exporter` holds.
pub struct ExporterView {
    /// Where the endpoint listens.
    pub listen_address: Seq<char>,
    /// Whether the endpoint has been asked for.
    pub listening: bool,
    /// The name of the observing host.
    pub host: Seq<char>,
    /// The gauges of the signal strength.
    pub rssi: Map<LabelValues, i16>,
    /// The gauges of the transmit power.
    pub tx_power: Map<LabelValues, i16>,
}

impl ExporterView {
    /// A sink without gauges that has not asked for its endpoint.
    pub open spec fn fresh(listen_address: Seq<char>, host: Seq<char>) -> ExporterView {
        ExporterView {
            listen_address,
            listening: false,
            host,
            rssi: Map::empty(),
            tx_power: Map::empty(),
        }
    }

    /// The sink after a snapshot is written: the endpoint is asked for,
    /// and each family holds the reading of the device if the snapshot has
    /// one; a family of which it has none is as before.
    pub open spec fn written(self, device: DeviceView) -> ExporterView {
        ExporterView {
            listening: true,
            rssi: exposed(self.rssi, device, self.host, device.rssi),
            tx_power: exposed(self.tx_power, device, self.host, device.tx_power),
            ..self
        }
    }

    /// What a write asks of its caller: to start the endpoint at the
    /// listen address if it was not asked for before, else nothing.
    pub open spec fn listen(self) -> Option<Seq<char>> {
        if self.listening {
            None
        } else {
            Some(self.listen_address)
        }
    }
}

/// A write of a snapshot without transmit power leaves every gauge of the
/// transmit power as it was, and one without signal strength every gauge of
/// the signal strength.
pub proof fn lemma_absent_reading_leaves_gauges(exporter: ExporterView, device: DeviceView)
    ensures
        device.tx_power is None ==> exporter.written(device).tx_power == exporter.tx_power,
        device.rssi is None ==> exporter.written(device).rssi == exporter.rssi,
        device.rssi matches Some(value) ==> exporter.written(device).rssi[gauge_labels(
            device,
            exporter.host,
        )] == value,
        device.tx_power matches Some(value) ==> exporter.written(device).tx_power[gauge_labels(
            device,
            exporter.host,
        )] == value,
{
}

/// The exposition sink: the gauges of the signal strength and of the
/// transmit power, and whether the endpoint has been asked for.
#[derive(Debug)]
pub struct Exporter {
    config: config::PrometheusExporter,
    listening: bool,
    host: String,
    rssi: GaugeVec,
    tx_power: GaugeVec,
}

impl View for Exporter {
    type V = ExporterView;

    closed spec fn view(&self) -> ExporterView {
        ExporterView {
            listen_address: self.config.host@,
            listening: self.listening,
            host: self.host@,
            rssi: self.rssi@,
            tx_power: self.tx_power@,
        }
    }
}

impl Clone for Exporter {
    /// A sink that holds what this one holds.
    fn clone(&self) -> (copy: Exporter)
        ensures
            copy@ == self@,
    {
        Exporter {
            config: self.config.clone(),
            listening: self.listening,
            host: self.host.clone(),
            rssi: self.rssi.clone(),
            tx_power: self.tx_power.clone(),
        }
    }
}

impl Exporter {
    /// A sink without gauges, which exposes under the name of this host
    /// and has not asked for its endpoint yet.
    pub fn new(config: config::PrometheusExporter) -> (exporter: Exporter)
        ensures
            exists|host: Seq<char>| exporter@ == ExporterView::fresh(config.host@, host),
    {
        let host = host_name();
        let exporter = Exporter::with_host(config, host);
        assert(exporter@ == ExporterView::fresh(config.host@, host@));
        exporter
    }

    /// A sink without gauges, which exposes under the given host name and
    /// has not asked for its endpoint yet.
    pub fn with_host(config: config::PrometheusExporter, host: String) -> (exporter: Exporter)
        ensures
            exporter@ == ExporterView::fresh(config.host@, host@),
    {
        Exporter {
            config,
            listening: false,
            host,
            rssi: GaugeVec::new(),
            tx_power: GaugeVec::new(),
        }
    }

    /// Records the readings of a snapshot. Each reading that the snapshot
    /// holds is set in the gauge of the device; a family of which it holds
    /// no reading is left untouched. The first write of a sink also asks
    /// for the endpoint: it returns the address to listen on, and every
    /// later write returns `None`.
    pub fn write(&mut self, device: Device) -> (listen: Option<String>)
        ensures
            final(self)@ == old(self)@.written(device@),
            text_of(listen) == old(self)@.listen(),
    {
        let listen = if self.listening {
            None
        } else {
            self.listening = true;
            Some(self.config.host.clone())
        };
        if let Some(rssi) = device.rssi {
            let name = match &device.name {
                Some(name) => name.clone(),
                None => String::new(),
            };
            let mut family = GaugeVec::new();
            core::mem::swap(&mut self.rssi, &mut family);
            self.rssi = family.set(device.address.to_string(), self.host.clone(), name, rssi);
        }
        if let Some(tx_power) = device.tx_power {
            let name = match device.name {
                Some(name) => name,
                None => String::new(),
            };
            let mut family = GaugeVec::new();
            core::mem::swap(&mut self.tx_power, &mut family);
            self.tx_power = family.set(
                device.address.to_string(),
                self.host.clone(),
                name,
                tx_power,
            );
        }
        listen
    }

    /// The gauges of the signal strength, each once.
    pub fn rssi_gauges(&self) -> (gauges: Vec<Gauge>)
        ensures
            distinct(gauges@),
            readings(gauges@) == self@.rssi,
    {
        self.rssi.gauges()
    }

    /// The gauges of the transmit power, each once.
    pub fn tx_power_gauges(&self) -> (gauges: Vec<Gauge>)
        ensures
            distinct(gauges@),
            readings(gauges@) == self@.tx_power,
    {
        self.tx_power.gauges()
    }

    /// Whether the endpoint has been asked for.
    pub fn is_listening(&self) -> (listening: bool)
        ensures
            listening == self@.listening,
    {
        self.listening
    }
}

} // verus!
