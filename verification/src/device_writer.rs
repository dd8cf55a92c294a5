//! The sinks as one type, and the fan-out of a snapshot to all of them.

use vstd::prelude::*;

use crate::bluetooth::device::{Device, DeviceView};
use crate::config;
use crate::loki;
use crate::loki::proto::{PushRequest, PushRequestView};
use crate::loki::push::push_request;
use crate::prometheus;
use crate::prometheus::exporter::ExporterView;
use crate::prometheus::proto::{WriteRequest, WriteRequestView};
use crate::prometheus::remote_write::write_request;
use crate::text::text_of;

verus! {

/// A sink: one of the three kinds of backend that snapshots go to. `PC` and
/// `LC` are the clients that deliver for the two sinks that send requests.
#[derive(Debug)]
pub enum DeviceWriters<PC, LC> {
    PrometheusExporter(prometheus::Exporter),
    PrometheusRemoteWrite(prometheus::RemoteWrite<PC>),
    Loki(loki::Push<LC>),
}

/// What a sink holds, apart from its client.
pub enum SinkView {
    /// The exposition sink with its gauges.
    Exporter(ExporterView),
    /// The remote-write sink, which labels with this host name.
    RemoteWrite(Seq<char>),
    /// The log-push sink, which labels with this host name.
    Push(Seq<char>),
}

impl<PC, LC> View for DeviceWriters<PC, LC> {
    type V = SinkView;

    open spec fn view(&self) -> SinkView {
        match *self {
            DeviceWriters::PrometheusExporter(exporter) => SinkView::Exporter(exporter@),
            DeviceWriters::PrometheusRemoteWrite(writer) => SinkView::RemoteWrite(writer.host@),
            DeviceWriters::Loki(push) => SinkView::Push(push.host@),
        }
    }
}

/// What is to be done for one sink with one snapshot.
#[derive(Debug)]
pub enum Delivery {
    /// The gauges of the exposition sink hold the readings. Where `listen`
    /// holds an address, the endpoint is to be started there.
    Exposed { listen: Option<String> },
    /// This request is to be sent by the remote-write client.
    RemoteWrite(WriteRequest),
    /// This request is to be sent by the log-push client.
    Push(PushRequest),
}

/// What a `Delivery` holds.
pub enum DeliveryView {
    Exposed { listen: Option<Seq<char>> },
    RemoteWrite(WriteRequestView),
    Push(PushRequestView),
}

impl View for Delivery {
    type V = DeliveryView;

    open spec fn view(&self) -> DeliveryView {
        match *self {
            Delivery::Exposed { listen } => DeliveryView::Exposed { listen: text_of(listen) },
            Delivery::RemoteWrite(request) => DeliveryView::RemoteWrite(request@),
            Delivery::Push(request) => DeliveryView::Push(request@),
        }
    }
}

impl<PC: Clone, LC: Clone> Clone for DeviceWriters<PC, LC> {
    /// A sink of the same kind that holds what this one holds, with a clone
    /// of its client.
    fn clone(&self) -> (copy: DeviceWriters<PC, LC>)
        ensures
            copy@ == self@,
    {
        match self {
            DeviceWriters::PrometheusExporter(exporter) => DeviceWriters::PrometheusExporter(
                exporter.clone(),
            ),
            DeviceWriters::PrometheusRemoteWrite(writer) => DeviceWriters::PrometheusRemoteWrite(
                writer.clone(),
            ),
            DeviceWriters::Loki(push) => DeviceWriters::Loki(push.clone()),
        }
    }
}

impl SinkView {
    /// What the sink delivers for a snapshot. `line` is the snapshot as a
    /// record, which only the log-push sink sends.
    pub open spec fn delivery(self, device: DeviceView, line: Seq<char>) -> DeliveryView {
        match self {
            SinkView::Exporter(exporter) => DeliveryView::Exposed { listen: exporter.listen() },
            SinkView::RemoteWrite(host) => DeliveryView::RemoteWrite(write_request(device, host)),
            SinkView::Push(host) => DeliveryView::Push(push_request(device, host, line)),
        }
    }

    /// The sink after it has written a snapshot. Only the exposition sink
    /// changes.
    pub open spec fn written(self, device: DeviceView) -> SinkView {
        match self {
            SinkView::Exporter(exporter) => SinkView::Exporter(exporter.written(device)),
            _ => self,
        }
    }
}

impl<PC, LC> DeviceWriters<PC, LC> {
    /// The exposition sink for this configuration.
    pub fn prometheus_exporter(config: config::PrometheusExporter) -> (writer: Self)
        ensures
            exists|host: Seq<char>|
                writer@ == SinkView::Exporter(ExporterView::fresh(config.host@, host)),
    {
        let exporter = prometheus::Exporter::new(config);
        DeviceWriters::PrometheusExporter(exporter)
    }

    /// The remote-write sink that delivers through `client`.
    pub fn prometheus_remote_write(client: PC) -> (writer: Self)
        ensures
            writer matches DeviceWriters::PrometheusRemoteWrite(sink) && sink.client == client,
    {
        DeviceWriters::PrometheusRemoteWrite(prometheus::RemoteWrite::new(client))
    }

    /// The log-push sink that delivers through `client`.
    pub fn loki(client: LC) -> (writer: Self)
        ensures
            writer matches DeviceWriters::Loki(sink) && sink.client == client,
    {
        DeviceWriters::Loki(loki::Push::new(client))
    }

    /// Writes a snapshot to this sink, whichever kind it is, and returns
    /// what is left to do for the delivery. `line` is the snapshot as a
    /// record, serialised by the caller. A sink that sends requests does
    /// not change.
    pub fn write(&mut self, device: Device, line: String) -> (delivery: Delivery)
        ensures
            delivery@ == old(self)@.delivery(device@, line@),
            final(self)@ == old(self)@.written(device@),
            !(*old(self) is PrometheusExporter) ==> *final(self) == *old(self),
    {
        match self {
            DeviceWriters::PrometheusRemoteWrite(writer) => Delivery::RemoteWrite(
                writer.write(device),
            ),
            DeviceWriters::Loki(writer) => Delivery::Push(writer.write(device, line)),
            DeviceWriters::PrometheusExporter(writer) => Delivery::Exposed {
                listen: writer.write(device),
            },
        }
    }
}

/// The capability of a sink: a snapshot can be written to it. `line` is the
/// snapshot as a record, serialised by the caller.
pub trait DeviceWriter {
    /// What the sink holds.
    spec fn sink(&self) -> SinkView;

    /// Writes a snapshot to the sink and returns what is left to do for the
    /// delivery.
    fn write(&mut self, device: Device, line: String) -> (delivery: Delivery)
        ensures
            delivery@ == old(self).sink().delivery(device@, line@),
            final(self).sink() == old(self).sink().written(device@),
    ;
}

impl DeviceWriter for prometheus::Exporter {
    open spec fn sink(&self) -> SinkView {
        SinkView::Exporter(self@)
    }

    fn write(&mut self, device: Device, line: String) -> (delivery: Delivery) {
        Delivery::Exposed { listen: prometheus::Exporter::write(self, device) }
    }
}

impl<C> DeviceWriter for prometheus::RemoteWrite<C> {
    open spec fn sink(&self) -> SinkView {
        SinkView::RemoteWrite(self.host@)
    }

    fn write(&mut self, device: Device, line: String) -> (delivery: Delivery) {
        Delivery::RemoteWrite(prometheus::RemoteWrite::write(self, device))
    }
}

impl<C> DeviceWriter for loki::Push<C> {
    open spec fn sink(&self) -> SinkView {
        SinkView::Push(self.host@)
    }

    fn write(&mut self, device: Device, line: String) -> (delivery: Delivery) {
        Delivery::Push(loki::Push::write(self, device, line))
    }
}

impl<PC, LC> DeviceWriter for DeviceWriters<PC, LC> {
    open spec fn sink(&self) -> SinkView {
        self@
    }

    fn write(&mut self, device: Device, line: String) -> (delivery: Delivery) {
        DeviceWriters::write(self, device, line)
    }
}

/// What a sequence of sinks holds, sink by sink.
pub open spec fn sink_views<PC, LC>(writers: Seq<DeviceWriters<PC, LC>>) -> Seq<SinkView> {
    writers.map_values(|writer: DeviceWriters<PC, LC>| writer@)
}

/// What a sequence of deliveries holds, delivery by delivery.
pub open spec fn delivery_views(deliveries: Seq<Delivery>) -> Seq<DeliveryView> {
    deliveries.map_values(|delivery: Delivery| delivery@)
}

/// The fan-out of one snapshot: the sinks after each has written it, and
/// one delivery for each sink, in the order of the sinks.
pub open spec fn fanned_out(sinks: Seq<SinkView>, device: DeviceView, line: Seq<char>) -> (
    Seq<SinkView>,
    Seq<DeliveryView>,
) {
    (
        sinks.map_values(|sink: SinkView| sink.written(device)),
        sinks.map_values(|sink: SinkView| sink.delivery(device, line)),
    )
}

/// Delivers a snapshot to every sink: each sink writes its own copy, and
/// the deliveries come back in the order of the sinks, one for each.
pub fn fan_out<PC, LC>(writers: &mut Vec<DeviceWriters<PC, LC>>, device: &Device, line: &str) -> (
    deliveries: Vec<Delivery>)
    ensures
        (sink_views(final(writers)@), delivery_views(deliveries@)) == fanned_out(
            sink_views(old(writers)@),
            device@,
            line@,
        ),
        deliveries@.len() == old(writers)@.len(),
        final(writers)@.len() == old(writers)@.len(),
{
    let mut deliveries: Vec<Delivery> = Vec::new();
    let mut i: usize = 0;
    while i < writers.len()
        invariant
            i <= writers.len(),
            writers@.len() == old(writers)@.len(),
            deliveries@.len() == i,
            forall|k: int|
                0 <= k < i ==> (#[trigger] writers@[k])@ == old(writers)@[k]@.written(device@),
            forall|k: int| i <= k < writers@.len() ==> #[trigger] writers@[k] == old(writers)@[k],
            forall|k: int|
                0 <= k < i ==> (#[trigger] deliveries@[k])@ == old(writers)@[k]@.delivery(
                    device@,
                    line@,
                ),
        decreases writers.len() - i,
    {
        let delivery = writers[i].write(device.clone(), line.to_string());
        deliveries.push(delivery);
        i = i + 1;
    }
    assert(sink_views(writers@) =~= fanned_out(sink_views(old(writers)@), device@, line@).0);
    assert(delivery_views(deliveries@) =~= fanned_out(
        sink_views(old(writers)@),
        device@,
        line@,
    ).1);
    deliveries
}

/// A stream of snapshots, each with its record.
pub type Snapshots = Seq<(DeviceView, Seq<char>)>;

/// One sink after it has written a stream of snapshots in order.
pub open spec fn sink_after(sink: SinkView, stream: Snapshots) -> SinkView
    decreases stream.len(),
{
    if stream.len() == 0 {
        sink
    } else {
        sink_after(sink, stream.drop_last()).written(stream.last().0)
    }
}

/// What one sink delivers for a stream of snapshots: for each snapshot in
/// order what the sink, as the snapshots before have left it, delivers.
pub open spec fn sink_deliveries(sink: SinkView, stream: Snapshots) -> Seq<DeliveryView>
    decreases stream.len(),
{
    if stream.len() == 0 {
        Seq::empty()
    } else {
        sink_deliveries(sink, stream.drop_last()).push(
            sink_after(sink, stream.drop_last()).delivery(stream.last().0, stream.last().1),
        )
    }
}

/// The fan-out of a stream of snapshots in order: the sinks at the end, and
/// for each snapshot the deliveries of its fan-out.
pub open spec fn dispatched(sinks: Seq<SinkView>, stream: Snapshots) -> (
    Seq<SinkView>,
    Seq<Seq<DeliveryView>>,
)
    decreases stream.len(),
{
    if stream.len() == 0 {
        (sinks, Seq::empty())
    } else {
        let (before, rounds) = dispatched(sinks, stream.drop_last());
        let (after, deliveries) = fanned_out(before, stream.last().0, stream.last().1);
        (after, rounds.push(deliveries))
    }
}

/// Fan-out independence: whatever sinks stand beside it, a sink is
/// delivered every snapshot of the stream, in the order of the stream, and
/// each delivery is what the sink would deliver if it stood alone. What
/// becomes of the deliveries of the other sinks is no input of the
/// fan-out, so no failure of theirs can reach this sink.
pub proof fn lemma_fan_out_is_independent(sinks: Seq<SinkView>, stream: Snapshots, sink: int)
    requires
        0 <= sink < sinks.len(),
    ensures
        dispatched(sinks, stream).0.len() == sinks.len(),
        dispatched(sinks, stream).0[sink] == sink_after(sinks[sink], stream),
        dispatched(sinks, stream).1.len() == stream.len(),
        sink_deliveries(sinks[sink], stream).len() == stream.len(),
        forall|round: int|
            0 <= round < stream.len() ==> (#[trigger] dispatched(sinks, stream).1[round]).len()
                == sinks.len() && dispatched(sinks, stream).1[round][sink] == sink_deliveries(
                sinks[sink],
                stream,
            )[round],
    decreases stream.len(),
{
    if stream.len() > 0 {
        lemma_fan_out_is_independent(sinks, stream.drop_last(), sink);
    }
}

/// Two sets of sinks that hold the same sink deliver the same to it, round
/// by round, whatever else they hold.
pub proof fn lemma_other_sinks_do_not_matter(
    sinks: Seq<SinkView>,
    others: Seq<SinkView>,
    stream: Snapshots,
    sink: int,
    other: int,
    round: int,
)
    requires
        0 <= sink < sinks.len(),
        0 <= other < others.len(),
        sinks[sink] == others[other],
        0 <= round < stream.len(),
    ensures
        dispatched(sinks, stream).1[round][sink] == dispatched(others, stream).1[round][other],
{
    lemma_fan_out_is_independent(sinks, stream, sink);
    lemma_fan_out_is_independent(others, stream, other);
}

} // verus!
