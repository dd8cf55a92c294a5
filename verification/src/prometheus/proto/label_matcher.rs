//! The ways a label matcher compares.

use vstd::prelude::*;
use vstd::std_specs::convert::FromSpecImpl;

verus! {

/// How a matcher compares a label's value with its own.
#[derive(Clone, Copy, Debug, PartialEq, Eq, Hash)]
pub enum Type {
    Eq,
    Neq,
    Re,
    Nre,
}

impl Type {
    /// The number that stands for this comparison on the wire.
    pub open spec fn number(self) -> i32 {
        match self {
            Type::Eq => 0,
            Type::Neq => 1,
            Type::Re => 2,
            Type::Nre => 3,
        }
    }

    /// The name of this comparison in the protocol's definition.
    pub open spec fn name(self) -> Seq<char> {
        match self {
            Type::Eq => "EQ"@,
            Type::Neq => "NEQ"@,
            Type::Re => "RE"@,
            Type::Nre => "NRE"@,
        }
    }

    /// String value of the enum field names used in the ProtoBuf definition.
    pub fn as_str_name(&self) -> (name: &'static str)
        ensures
            name@ == self.name(),
    {
        match self {
            Type::Eq => "EQ",
            Type::Neq => "NEQ",
            Type::Re => "RE",
            Type::Nre => "NRE",
        }
    }
}

impl From<Type> for i32 {
    fn from(kind: Type) -> (number: i32) {
        match kind {
            Type::Eq => 0,
            Type::Neq => 1,
            Type::Re => 2,
            Type::Nre => 3,
        }
    }
}

impl FromSpecImpl<Type> for i32 {
    open spec fn obeys_from_spec() -> bool {
        true
    }

    open spec fn from_spec(kind: Type) -> i32 {
        kind.number()
    }
}

} // verus!
