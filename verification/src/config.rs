//! Which sinks are configured, and the name of this host.

use vstd::prelude::*;

use crate::text::copy_of_text;

verus! {

/// The address that the exposition endpoint listens on when none is given.
pub open spec fn default_listen_address() -> Seq<char> {
    "0.0.0.0:9099"@
}

/// Where the exposition endpoint listens.
#[derive(Debug)]
pub struct PrometheusExporter {
    pub host: String,
}

/// Where remote-write requests go, and the credentials to send with them.
#[derive(Debug)]
pub struct PrometheusRemoteWrite {
    pub url: String,
    pub username: Option<String>,
    pub password: Option<String>,
}

/// Where log pushes go, and the credentials to send with them.
#[derive(Debug)]
pub struct Loki {
    pub url: String,
    pub username: Option<String>,
    pub password: Option<String>,
}

/// The two metrics sinks, each present when configured.
#[derive(Debug)]
pub struct Prometheus {
    pub exporter: Option<PrometheusExporter>,
    pub remote_write: Option<PrometheusRemoteWrite>,
}

/// The configured sinks.
#[derive(Debug)]
pub struct Config {
    pub prometheus: Option<Prometheus>,
    pub loki: Option<Loki>,
}

impl Clone for PrometheusExporter {
    fn clone(&self) -> (copy: PrometheusExporter)
        ensures
            copy == *self,
    {
        PrometheusExporter { host: self.host.clone() }
    }
}

impl Clone for PrometheusRemoteWrite {
    fn clone(&self) -> (copy: PrometheusRemoteWrite)
        ensures
            copy == *self,
    {
        PrometheusRemoteWrite {
            url: self.url.clone(),
            username: copy_of_text(&self.username),
            password: copy_of_text(&self.password),
        }
    }
}

impl Clone for Loki {
    fn clone(&self) -> (copy: Loki)
        ensures
            copy == *self,
    {
        Loki {
            url: self.url.clone(),
            username: copy_of_text(&self.username),
            password: copy_of_text(&self.password),
        }
    }
}

impl Clone for Prometheus {
    fn clone(&self) -> (copy: Prometheus)
        ensures
            copy == *self,
    {
        Prometheus {
            exporter: match &self.exporter {
                Some(exporter) => Some(exporter.clone()),
                None => None,
            },
            remote_write: match &self.remote_write {
                Some(remote_write) => Some(remote_write.clone()),
                None => None,
            },
        }
    }
}

impl Clone for Config {
    fn clone(&self) -> (copy: Config)
        ensures
            copy == *self,
    {
        Config {
            prometheus: match &self.prometheus {
                Some(prometheus) => Some(prometheus.clone()),
                None => None,
            },
            loki: match &self.loki {
                Some(loki) => Some(loki.clone()),
                None => None,
            },
        }
    }
}

impl Default for PrometheusExporter {
    /// The endpoint on every interface, port 9099.
    fn default() -> (exporter: PrometheusExporter)
        ensures
            exporter.host@ == default_listen_address(),
    {
        PrometheusExporter { host: "0.0.0.0:9099".to_string() }
    }
}

impl Default for Prometheus {
    /// The exposition endpoint at its default address, and no remote write.
    fn default() -> (prometheus: Prometheus)
        ensures
            prometheus.exporter matches Some(exporter) && exporter.host@
                == default_listen_address(),
            prometheus.remote_write is None,
    {
        Prometheus { exporter: Some(PrometheusExporter::default()), remote_write: None }
    }
}

impl Default for Config {
    /// The exposition endpoint at its default address as the only sink.
    fn default() -> (config: Config)
        ensures
            config.sink_count() == 1,
            config.prometheus matches Some(prometheus) && prometheus.remote_write is None && (
            prometheus.exporter matches Some(exporter) && exporter.host@
                == default_listen_address()),
            config.loki is None,
    {
        Config { prometheus: Some(Prometheus::default()), loki: None }
    }
}

impl Config {
    /// Whether the exposition endpoint is configured.
    pub open spec fn has_exporter(self) -> bool {
        self.prometheus matches Some(prometheus) && prometheus.exporter is Some
    }

    /// Whether remote write is configured.
    pub open spec fn has_remote_write(self) -> bool {
        self.prometheus matches Some(prometheus) && prometheus.remote_write is Some
    }

    /// Whether log push is configured.
    pub open spec fn has_loki(self) -> bool {
        self.loki is Some
    }

    /// How many sinks are configured.
    pub open spec fn sink_count(self) -> nat {
        (if self.has_exporter() { 1nat } else { 0nat })
            + (if self.has_remote_write() { 1nat } else { 0nat })
            + (if self.has_loki() { 1nat } else { 0nat })
    }

    /// The configuration to run with: the one that was loaded, or the
    /// default where none could be loaded.
    pub fn or_default(loaded: Option<Config>) -> (config: Config)
        ensures
            loaded matches Some(given) ==> config == given,
            loaded is None ==> config.sink_count() == 1 && config.has_exporter() && (
            config.prometheus->0.exporter->0.host@ == default_listen_address()),
    {
        match loaded {
            Some(config) => config,
            None => Config::default(),
        }
    }
}

/// `hostname::get`: the name of this host as the system reports it, where
/// it reports one that is valid Unicode. Nothing is known of the name.
#[verifier::external_body]
fn system_host_name() -> Option<String> {
    match hostname::get() {
        Ok(name) => name.into_string().ok(),
        Err(_) => None,
    }
}

/// The host name to label observations with, given what the system
/// reported: that name, or the empty name where it reported none.
pub fn host_name_or_empty(reported: Option<String>) -> (name: String)
    ensures
        reported matches Some(given) ==> name == given,
        reported is None ==> name@ == Seq::<char>::empty(),
{
    match reported {
        Some(name) => name,
        None => String::new(),
    }
}

/// The name of this host, empty where the system reports none.
pub fn host_name() -> String {
    host_name_or_empty(system_host_name())
}

} // verus!
