//! The kinds of metric that metadata can announce.

use vstd::prelude::*;
use vstd::std_specs::convert::FromSpecImpl;

verus! {

/// The kind of a metric.
#[derive(Clone, Copy, Debug, PartialEq, Eq, Hash)]
pub enum MetricType {
    Unknown,
    Counter,
    Gauge,
    Histogram,
    Gaugehistogram,
    Summary,
    Info,
    Stateset,
}

impl MetricType {
    /// The number that stands for this kind on the wire.
    pub open spec fn number(self) -> i32 {
        match self {
            MetricType::Unknown => 0,
            MetricType::Counter => 1,
            MetricType::Gauge => 2,
            MetricType::Histogram => 3,
            MetricType::Gaugehistogram => 4,
            MetricType::Summary => 5,
            MetricType::Info => 6,
            MetricType::Stateset => 7,
        }
    }

    /// The name of this kind in the protocol's definition.
    pub open spec fn name(self) -> Seq<char> {
        match self {
            MetricType::Unknown => "UNKNOWN"@,
            MetricType::Counter => "COUNTER"@,
            MetricType::Gauge => "GAUGE"@,
            MetricType::Histogram => "HISTOGRAM"@,
            MetricType::Gaugehistogram => "GAUGEHISTOGRAM"@,
            MetricType::Summary => "SUMMARY"@,
            MetricType::Info => "INFO"@,
            MetricType::Stateset => "STATESET"@,
        }
    }

    /// String value of the enum field names used in the ProtoBuf definition.
    pub fn as_str_name(&self) -> (name: &'static str)
        ensures
            name@ == self.name(),
    {
        match self {
            MetricType::Unknown => "UNKNOWN",
            MetricType::Counter => "COUNTER",
            MetricType::Gauge => "GAUGE",
            MetricType::Histogram => "HISTOGRAM",
            MetricType::Gaugehistogram => "GAUGEHISTOGRAM",
            MetricType::Summary => "SUMMARY",
            MetricType::Info => "INFO",
            MetricType::Stateset => "STATESET",
        }
    }
}

impl From<MetricType> for i32 {
    fn from(kind: MetricType) -> (number: i32) {
        match kind {
            MetricType::Unknown => 0,
            MetricType::Counter => 1,
            MetricType::Gauge => 2,
            MetricType::Histogram => 3,
            MetricType::Gaugehistogram => 4,
            MetricType::Summary => 5,
            MetricType::Info => 6,
            MetricType::Stateset => 7,
        }
    }
}

impl FromSpecImpl<MetricType> for i32 {
    open spec fn obeys_from_spec() -> bool {
        true
    }

    open spec fn from_spec(kind: MetricType) -> i32 {
        kind.number()
    }
}

} // verus!
