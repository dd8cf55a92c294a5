//! The kinds of response that a read request can ask for.

use vstd::prelude::*;
use vstd::std_specs::convert::FromSpecImpl;

verus! {

/// The form in which a server answers a read request.
#[derive(Clone, Copy, Debug, PartialEq, Eq, Hash)]
pub enum ResponseType {
    /// One message with the matched series as raw samples.
    Samples,
    /// A stream of messages, each with encoded chunks of one series.
    StreamedXorChunks,
}

impl ResponseType {
    /// The number that stands for this form on the wire.
    pub open spec fn number(self) -> i32 {
        match self {
            ResponseType::Samples => 0,
            ResponseType::StreamedXorChunks => 1,
        }
    }

    /// The name of this form in the protocol's definition.
    pub open spec fn name(self) -> Seq<char> {
        match self {
            ResponseType::Samples => "SAMPLES"@,
            ResponseType::StreamedXorChunks => "STREAMED_XOR_CHUNKS"@,
        }
    }

    /// String value of the enum field names used in the ProtoBuf definition.
    pub fn as_str_name(&self) -> (name: &'static str)
        ensures
            name@ == self.name(),
    {
        match self {
            ResponseType::Samples => "SAMPLES",
            ResponseType::StreamedXorChunks => "STREAMED_XOR_CHUNKS",
        }
    }
}

impl From<ResponseType> for i32 {
    fn from(form: ResponseType) -> (number: i32) {
        match form {
            ResponseType::Samples => 0,
            ResponseType::StreamedXorChunks => 1,
        }
    }
}

impl FromSpecImpl<ResponseType> for i32 {
    open spec fn obeys_from_spec() -> bool {
        true
    }

    open spec fn from_spec(form: ResponseType) -> i32 {
        form.number()
    }
}

} // verus!
