//! The process driver: the sinks that a configuration asks for, and the
//! loop that feeds them from the discovery stream.

use vstd::prelude::*;

use crate::bluetooth::device::Device;
use crate::bluetooth::discover::{discover, Command, CommandView, Discovery, Signal, SignalView};
use crate::config::Config;
use crate::device_writer::{
    delivery_views, fan_out, fanned_out, sink_views, Delivery, DeviceWriters, SinkView,
};
use crate::loki;
use crate::prometheus;
use crate::prometheus::exporter::ExporterView;

verus! {

/// The sinks of the process: the clients are those that deliver over HTTP.
pub type Sinks = Vec<DeviceWriters<prometheus::DefaultClient, loki::DefaultClient>>;

/// Whether `writers` are the sinks that `config` asks for: the exposition
/// sink, the remote-write sink and the log-push sink, in this order, each
/// there if and only if it is configured, fresh and with its configuration.
pub open spec fn configured(
    config: Config,
    writers: Seq<DeviceWriters<prometheus::DefaultClient, loki::DefaultClient>>,
) -> bool {
    let exporters: int = if config.has_exporter() {
        1
    } else {
        0
    };
    let remote_writes: int = if config.has_remote_write() {
        1
    } else {
        0
    };
    &&& writers.len() == config.sink_count()
    &&& config.has_exporter() ==> exists|host: Seq<char>|
        writers[0]@ == SinkView::Exporter(
            ExporterView::fresh(config.prometheus->0.exporter->0.host@, host),
        )
    &&& config.has_remote_write() ==> (writers[exporters] matches DeviceWriters::PrometheusRemoteWrite(
        sink,
    ) && sink.client.config == config.prometheus->0.remote_write->0)
    &&& config.has_loki() ==> (writers[exporters + remote_writes] matches DeviceWriters::Loki(sink)
        && sink.client.config == config.loki->0)
}

/// Builds the sinks that a configuration asks for. There is none if and
/// only if the configuration names none.
pub fn sinks(config: Config) -> (writers: Sinks)
    ensures
        configured(config, writers@),
        writers@.len() == 0 <==> config.sink_count() == 0,
{
    let mut writers: Sinks = Vec::new();
    let Config { prometheus, loki } = config;
    if let Some(prometheus) = prometheus {
        let crate::config::Prometheus { exporter, remote_write } = prometheus;
        if let Some(exporter) = exporter {
            writers.push(DeviceWriters::prometheus_exporter(exporter));
        }
        if let Some(remote_write) = remote_write {
            let client = prometheus::DefaultClient::new(remote_write);
            writers.push(DeviceWriters::prometheus_remote_write(client));
        }
    }
    if let Some(loki) = loki {
        let client = loki::DefaultClient::new(loki);
        writers.push(DeviceWriters::loki(client));
    }
    writers
}

/// The process driver: the sinks, and the discovery stream that feeds them.
#[derive(Debug)]
pub struct Driver<PC, LC> {
    pub writers: Vec<DeviceWriters<PC, LC>>,
    pub discovery: Discovery,
}

/// The step of a driver with `sinks` sinks whose stream stands at `state`.
/// Without a sink the driver refuses: it tells of the end and leaves the
/// stream where it is. With a sink the stream takes its step.
pub open spec fn driven(sinks: nat, state: Discovery, signal: SignalView) -> (
    Discovery,
    CommandView,
) {
    if sinks == 0 {
        (state, CommandView::End)
    } else {
        state.next(signal)
    }
}

/// A driver after a sequence of signals, and what it asked for after each.
pub open spec fn driven_run(sinks: nat, state: Discovery, signals: Seq<SignalView>) -> (
    Discovery,
    Seq<CommandView>,
)
    decreases signals.len(),
{
    if signals.len() == 0 {
        (state, Seq::empty())
    } else {
        let (before, commands) = driven_run(sinks, state, signals.drop_last());
        let (after, command) = driven(sinks, before, signals.last());
        (after, commands.push(command))
    }
}

/// No-sink refusal: a driver without sinks never opens a session with the
/// radio stack. Whatever comes in, and however long, its stream stays idle
/// and all it ever tells is the end.
pub proof fn lemma_no_sinks_no_session(signals: Seq<SignalView>)
    ensures
        driven_run(0, Discovery::Idle, signals).0 == Discovery::Idle,
        driven_run(0, Discovery::Idle, signals).1.len() == signals.len(),
        forall|at: int|
            0 <= at < signals.len() ==> #[trigger] driven_run(0, Discovery::Idle, signals).1[at]
                == CommandView::End,
    decreases signals.len(),
{
    if signals.len() > 0 {
        lemma_no_sinks_no_session(signals.drop_last());
    }
}

/// A driver with a sink runs its stream: it asks for what the stream asks
/// for, signal by signal.
pub proof fn lemma_sinks_run_the_stream(sinks: nat, state: Discovery, signals: Seq<SignalView>)
    requires
        sinks > 0,
    ensures
        driven_run(sinks, state, signals) == state.run(signals),
    decreases signals.len(),
{
    if signals.len() > 0 {
        lemma_sinks_run_the_stream(sinks, state, signals.drop_last());
    }
}

impl<PC, LC> Driver<PC, LC> {
    /// A driver for these sinks whose stream has not begun.
    pub fn new(writers: Vec<DeviceWriters<PC, LC>>) -> (driver: Self)
        ensures
            driver.writers == writers,
            driver.discovery == Discovery::Idle,
    {
        Driver { writers, discovery: discover() }
    }

    /// Whether the driver refuses to run: it has no sink.
    pub fn refuses(&self) -> (refuses: bool)
        ensures
            refuses <==> self.writers@.len() == 0,
    {
        self.writers.len() == 0
    }

    /// Takes one step of the loop: moves on by `signal` and returns what is
    /// to be done next. The sinks do not change.
    pub fn step(&mut self, signal: Signal) -> (command: Command)
        ensures
            (final(self).discovery, command@) == driven(
                old(self).writers@.len(),
                old(self).discovery,
                signal@,
            ),
            final(self).writers == old(self).writers,
    {
        if self.writers.len() == 0 {
            Command::End
        } else {
            self.discovery.step(signal)
        }
    }

    /// Delivers a snapshot that the stream handed over to every sink, and
    /// returns the deliveries in the order of the sinks. `line` is the
    /// snapshot as a record. The stream does not move.
    pub fn fan_out(&mut self, device: &Device, line: &str) -> (deliveries: Vec<Delivery>)
        ensures
            (sink_views(final(self).writers@), delivery_views(deliveries@)) == fanned_out(
                sink_views(old(self).writers@),
                device@,
                line@,
            ),
            deliveries@.len() == old(self).writers@.len(),
            final(self).discovery == old(self).discovery,
    {
        fan_out(&mut self.writers, device, line)
    }
}

} // verus!
