//! The log-push sink: a snapshot becomes one stream with one entry, the
//! snapshot as a record.

use vstd::prelude::*;
use vstd::string::StringExecFns;

use crate::bluetooth::device::{Device, DeviceView};
use crate::config::host_name;
use crate::loki::proto::{
    EntryAdapter, EntryView, PushRequest, PushRequestView, StreamAdapter, StreamView, Timestamp,
};
use crate::transport::{debug_text, quote};

verus! {

/// The label set of the stream of a device: between braces the address and
/// the observing host, each quoted, and the name where the device has one.
/// A device without a name has no `name` key at all.
pub open spec fn stream_labels(device: DeviceView, host: Seq<char>) -> Seq<char> {
    "{"@ + "address="@ + debug_text(device.address.text()) + ", host="@ + debug_text(host) + (
    match device.name {
        Some(name) => ", name="@ + debug_text(name),
        None => Seq::empty(),
    }) + "}"@
}

/// The label set of a device without a name is told by its address and the
/// host alone: it holds the two keys `address` and `host` and, where the
/// device has no name, nothing after them.
pub proof fn lemma_labels_without_name(device: DeviceView, host: Seq<char>)
    requires
        device.name is None,
    ensures
        stream_labels(device, host) == "{"@ + "address="@ + debug_text(device.address.text())
            + ", host="@ + debug_text(host) + "}"@,
{
    let labels = "{"@ + "address="@ + debug_text(device.address.text()) + ", host="@
        + debug_text(host);
    assert(labels + Seq::<char>::empty() =~= labels);
}

/// The request that a snapshot is pushed with: one stream under the
/// labels of the device, with one entry that holds `line` at capture time.
pub open spec fn push_request(device: DeviceView, host: Seq<char>, line: Seq<char>)
    -> PushRequestView {
    PushRequestView {
        streams: seq![
            StreamView {
                labels: stream_labels(device, host),
                entries: seq![
                    EntryView { timestamp: Some(Timestamp::of(device.timestamp)), line }
                ],
                hash: 0,
            }
        ],
    }
}

/// The label set of a stream, as text.
#[derive(Debug, Clone)]
pub struct Labels(pub String);

impl Labels {
    /// The label set of the stream of a device.
    pub fn from(device: &Device, host: &str) -> (labels: Labels)
        ensures
            labels.0@ == stream_labels(device@, host@),
    {
        let address = device.address.to_string();
        let mut labels = "{".to_string();
        labels.append("address=");
        labels.append(quote(address.as_str()).as_str());
        labels.append(", host=");
        labels.append(quote(host).as_str());
        match &device.name {
            Some(name) => {
                labels.append(", name=");
                labels.append(quote(name.as_str()).as_str());
            },
            None => {
                assert(labels@ + Seq::<char>::empty() =~= labels@);
            },
        }
        labels.append("}");
        Labels(labels)
    }
}

impl core::ops::Deref for Labels {
    type Target = String;

    fn deref(&self) -> (text: &String)
        ensures
            *text == self.0,
    {
        &self.0
    }
}

/// The log-push sink. It holds the client that delivers its requests and
/// the name of the observing host.
#[derive(Debug)]
pub struct Push<C> {
    pub client: C,
    pub host: String,
}

impl<C: Clone> Clone for Push<C> {
    /// A sink with a clone of the client and the same host name.
    fn clone(&self) -> (copy: Push<C>)
        ensures
            cloned(self.client, copy.client),
            copy.host == self.host,
    {
        Push { client: self.client.clone(), host: self.host.clone() }
    }
}

impl<C> Push<C> {
    /// A sink that labels its streams with the name of this host.
    pub fn new(client: C) -> (push: Push<C>)
        ensures
            push.client == client,
    {
        Push { client, host: host_name() }
    }

    /// A sink that labels its streams with the given host name.
    pub fn with_host(client: C, host: String) -> (push: Push<C>)
        ensures
            push.client == client,
            push.host == host,
    {
        Push { client, host }
    }

    /// Turns a snapshot into the request to deliver. `line` is the
    /// snapshot as a record, which the caller has serialised. The sink
    /// itself does not change.
    pub fn write(&mut self, device: Device, line: String) -> (request: PushRequest)
        ensures
            request@ == push_request(device@, old(self).host@, line@),
            *final(self) == *old(self),
    {
        let labels = Labels::from(&device, self.host.as_str());
        let mut entries: Vec<EntryAdapter> = Vec::new();
        entries.push(EntryAdapter { timestamp: Some(Timestamp::from(device.timestamp)), line });
        let mut streams: Vec<StreamAdapter> = Vec::new();
        streams.push(StreamAdapter { labels: labels.0, entries, hash: 0 });
        let request = PushRequest { streams };
        assert(request@.streams[0].entries =~= push_request(
            device@,
            self.host@,
            line@,
        ).streams[0].entries);
        assert(request@.streams =~= push_request(device@, self.host@, line@).streams);
        request
    }
}

} // verus!
