//! The messages of the remote-write and remote-read protocol, as plain
//! values. A field that holds the number of an enumeration is named `kind`.

use vstd::prelude::*;

pub mod chunk;
pub mod label_matcher;
pub mod metric_metadata;
pub mod read_request;

verus! {

/// What is known of a metric family.
#[derive(Clone, Debug, PartialEq, Eq)]
pub struct MetricMetadata {
    /// The number of the metric's `metric_metadata::MetricType`.
    pub kind: i32,
    pub metric_family_name: String,
    pub help: String,
    pub unit: String,
}

/// What a `MetricMetadata` holds.
pub struct MetricMetadataView {
    pub kind: i32,
    pub metric_family_name: Seq<char>,
    pub help: Seq<char>,
    pub unit: Seq<char>,
}

impl View for MetricMetadata {
    type V = MetricMetadataView;

    open spec fn view(&self) -> MetricMetadataView {
        MetricMetadataView {
            kind: self.kind,
            metric_family_name: self.metric_family_name@,
            help: self.help@,
            unit: self.unit@,
        }
    }
}

/// One reading of a series. The value is a whole number here, a reading in
/// dBm; the wire carries it as a double.
#[derive(Clone, Copy, Debug, PartialEq, Eq)]
pub struct Sample {
    pub value: i16,
    /// Milliseconds since the Unix epoch.
    pub timestamp: i64,
}

/// A reading that points out a trace. The value is a whole number here; the
/// wire carries it as a double.
#[derive(Clone, Debug, PartialEq, Eq)]
pub struct Exemplar {
    /// Optional, can be empty.
    pub labels: Vec<Label>,
    pub value: i32,
    /// Milliseconds since the Unix epoch.
    pub timestamp: i64,
}

/// The samples and labels of a single time series.
#[derive(Clone, Debug, PartialEq, Eq)]
pub struct TimeSeries {
    pub labels: Vec<Label>,
    pub samples: Vec<Sample>,
    pub exemplars: Vec<Exemplar>,
}

/// What a `TimeSeries` holds: each label as a name and a value.
pub struct TimeSeriesView {
    pub labels: Seq<(Seq<char>, Seq<char>)>,
    pub samples: Seq<Sample>,
    pub exemplars: Seq<Exemplar>,
}

impl View for TimeSeries {
    type V = TimeSeriesView;

    open spec fn view(&self) -> TimeSeriesView {
        TimeSeriesView {
            labels: label_views(self.labels@),
            samples: self.samples@,
            exemplars: self.exemplars@,
        }
    }
}

/// A name with a value.
#[derive(Clone, Debug, PartialEq, Eq)]
pub struct Label {
    pub name: String,
    pub value: String,
}

impl View for Label {
    type V = (Seq<char>, Seq<char>);

    open spec fn view(&self) -> (Seq<char>, Seq<char>) {
        (self.name@, self.value@)
    }
}

/// What a sequence of labels holds, label by label.
pub open spec fn label_views(labels: Seq<Label>) -> Seq<(Seq<char>, Seq<char>)> {
    labels.map_values(|label: Label| label@)
}

/// A set of labels.
#[derive(Clone, Debug, PartialEq, Eq)]
pub struct Labels {
    pub labels: Vec<Label>,
}

/// A rule that a set of labels matches or does not.
#[derive(Clone, Debug, PartialEq, Eq)]
pub struct LabelMatcher {
    /// The number of the matcher's `label_matcher::Type`.
    pub kind: i32,
    pub name: String,
    pub value: String,
}

/// Hints on how the result of a query will be used.
#[derive(Clone, Debug, PartialEq, Eq)]
pub struct ReadHints {
    /// Query step size in milliseconds.
    pub step_ms: i64,
    /// String representation of surrounding function or aggregation.
    pub func: String,
    /// Start time in milliseconds.
    pub start_ms: i64,
    /// End time in milliseconds.
    pub end_ms: i64,
    /// List of label names used in aggregation.
    pub grouping: Vec<String>,
    /// Indicate whether it is without or by.
    pub by: bool,
    /// Range vector selector range in milliseconds.
    pub range_ms: i64,
}

/// An encoded chunk of a series. The time range is inclusive.
#[derive(Clone, Debug, PartialEq, Eq)]
pub struct Chunk {
    pub min_time_ms: i64,
    pub max_time_ms: i64,
    /// The number of the chunk's `chunk::Encoding`.
    pub kind: i32,
    pub data: Vec<u8>,
}

/// A single, encoded time series.
#[derive(Clone, Debug, PartialEq, Eq)]
pub struct ChunkedSeries {
    /// Labels should be sorted.
    pub labels: Vec<Label>,
    /// Chunks will be in start time order and may overlap.
    pub chunks: Vec<Chunk>,
}

/// A batch of series with the metadata of their families.
#[derive(Clone, Debug, PartialEq, Eq)]
pub struct WriteRequest {
    pub timeseries: Vec<TimeSeries>,
    pub metadata: Vec<MetricMetadata>,
}

/// What a `WriteRequest` holds.
pub struct WriteRequestView {
    pub timeseries: Seq<TimeSeriesView>,
    pub metadata: Seq<MetricMetadataView>,
}

impl View for WriteRequest {
    type V = WriteRequestView;

    open spec fn view(&self) -> WriteRequestView {
        WriteRequestView {
            timeseries: self.timeseries@.map_values(|series: TimeSeries| series@),
            metadata: self.metadata@.map_values(|metadata: MetricMetadata| metadata@),
        }
    }
}

/// A remote read request.
#[derive(Clone, Debug, PartialEq, Eq)]
pub struct ReadRequest {
    pub queries: Vec<Query>,
    /// The numbers of the `read_request::ResponseType`s that the client
    /// accepts, the preferred first.
    pub accepted_response_types: Vec<i32>,
}

/// The response to a read request that asked for samples.
#[derive(Clone, Debug, PartialEq, Eq)]
pub struct ReadResponse {
    /// In same order as the request's queries.
    pub results: Vec<QueryResult>,
}

/// One query of a read request.
#[derive(Clone, Debug, PartialEq, Eq)]
pub struct Query {
    pub start_timestamp_ms: i64,
    pub end_timestamp_ms: i64,
    pub matchers: Vec<LabelMatcher>,
    pub hints: Option<ReadHints>,
}

/// The series that one query matched.
#[derive(Clone, Debug, PartialEq, Eq)]
pub struct QueryResult {
    /// Samples within a time series must be ordered by time.
    pub timeseries: Vec<TimeSeries>,
}

/// One frame of the response to a read request that asked for chunks.
#[derive(Clone, Debug, PartialEq, Eq)]
pub struct ChunkedReadResponse {
    pub chunked_series: Vec<ChunkedSeries>,
    /// The index of the query in the request that these chunks answer.
    pub query_index: i64,
}

} // verus!
