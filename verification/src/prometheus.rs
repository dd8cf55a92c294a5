//! The two metrics sinks: the exposition endpoint and remote write.

pub mod client;
pub mod exporter;
pub mod proto;
pub mod remote_write;

pub use proto::chunk::Encoding;
pub use proto::label_matcher::Type;
pub use proto::metric_metadata::MetricType;
pub use proto::read_request::ResponseType;
pub use proto::{
    Chunk, ChunkedReadResponse, ChunkedSeries, Exemplar, Label, LabelMatcher, Labels,
    MetricMetadata, Query, QueryResult, ReadHints, ReadRequest, ReadResponse, Sample, TimeSeries,
    WriteRequest,
};
pub use remote_write::RemoteWrite;
pub use client::DefaultClient;
pub use exporter::Exporter;
