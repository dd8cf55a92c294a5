//! The encodings of a chunk.

use vstd::prelude::*;
use vstd::std_specs::convert::FromSpecImpl;

verus! {

/// How the data of a chunk is encoded.
#[derive(Clone, Copy, Debug, PartialEq, Eq, Hash)]
pub enum Encoding {
    Unknown,
    Xor,
}

impl Encoding {
    /// The number that stands for this encoding on the wire.
    pub open spec fn number(self) -> i32 {
        match self {
            Encoding::Unknown => 0,
            Encoding::Xor => 1,
        }
    }

    /// The name of this encoding in the protocol's definition.
    pub open spec fn name(self) -> Seq<char> {
        match self {
            Encoding::Unknown => "UNKNOWN"@,
            Encoding::Xor => "XOR"@,
        }
    }

    /// String value of the enum field names used in the ProtoBuf definition.
    pub fn as_str_name(&self) -> (name: &'static str)
        ensures
            name@ == self.name(),
    {
        match self {
            Encoding::Unknown => "UNKNOWN",
            Encoding::Xor => "XOR",
        }
    }
}

impl From<Encoding> for i32 {
    fn from(encoding: Encoding) -> (number: i32) {
        match encoding {
            Encoding::Unknown => 0,
            Encoding::Xor => 1,
        }
    }
}

impl FromSpecImpl<Encoding> for i32 {
    open spec fn obeys_from_spec() -> bool {
        true
    }

    open spec fn from_spec(encoding: Encoding) -> i32 {
        encoding.number()
    }
}

} // verus!
