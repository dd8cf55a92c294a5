//! The messages of the log-push protocol, as plain values.

use vstd::prelude::*;

use crate::bluetooth::time::CaptureTime;

verus! {

/// A point in time on the wire: seconds since the Unix epoch, and the
/// nanoseconds beyond them.
#[derive(Clone, Copy, Debug, PartialEq, Eq)]
pub struct Timestamp {
    pub seconds: i64,
    pub nanos: i32,
}

impl Timestamp {
    /// The wire form of a capture time: the same seconds and nanoseconds.
    pub open spec fn of(time: CaptureTime) -> Timestamp {
        Timestamp { seconds: time.seconds() as i64, nanos: time.subsec_nanos() as i32 }
    }

    /// The wire form of a capture time.
    pub fn from(time: CaptureTime) -> (timestamp: Timestamp)
        ensures
            timestamp == Timestamp::of(time),
            timestamp.seconds == time.seconds(),
            timestamp.nanos == time.subsec_nanos(),
    {
        Timestamp { seconds: time.secs() as i64, nanos: time.nanos() as i32 }
    }
}

/// One line of a stream with the time it belongs to.
#[derive(Clone, Debug, PartialEq, Eq)]
pub struct EntryAdapter {
    pub timestamp: Option<Timestamp>,
    pub line: String,
}

/// What an `EntryAdapter` holds.
pub struct EntryView {
    pub timestamp: Option<Timestamp>,
    pub line: Seq<char>,
}

impl View for EntryAdapter {
    type V = EntryView;

    open spec fn view(&self) -> EntryView {
        EntryView { timestamp: self.timestamp, line: self.line@ }
    }
}

/// The entries of one stream, which its labels tell apart from others.
#[derive(Clone, Debug, PartialEq, Eq)]
pub struct StreamAdapter {
    pub labels: String,
    pub entries: Vec<EntryAdapter>,
    pub hash: u64,
}

/// What a `StreamAdapter` holds.
pub struct StreamView {
    pub labels: Seq<char>,
    pub entries: Seq<EntryView>,
    pub hash: u64,
}

impl View for StreamAdapter {
    type V = StreamView;

    open spec fn view(&self) -> StreamView {
        StreamView {
            labels: self.labels@,
            entries: self.entries@.map_values(|entry: EntryAdapter| entry@),
            hash: self.hash,
        }
    }
}

/// A batch of streams to push.
#[derive(Clone, Debug, PartialEq, Eq)]
pub struct PushRequest {
    pub streams: Vec<StreamAdapter>,
}

/// What a `PushRequest` holds.
pub struct PushRequestView {
    pub streams: Seq<StreamView>,
}

impl View for PushRequest {
    type V = PushRequestView;

    open spec fn view(&self) -> PushRequestView {
        PushRequestView { streams: self.streams@.map_values(|stream: StreamAdapter| stream@) }
    }
}

} // verus!
