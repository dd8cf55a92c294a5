//! Hardware addresses and their colon-hexadecimal notation.

use vstd::prelude::*;
use vstd::string::StringExecFns;

verus! {

/// The sixteen upper-case hexadecimal digits, in order of value.
pub open spec fn hex_digits() -> Seq<char> {
    seq!['0', '1', '2', '3', '4', '5', '6', '7', '8', '9', 'A', 'B', 'C', 'D', 'E', 'F']
}

/// One octet as two upper-case hexadecimal digits, high nibble first.
pub open spec fn octet_text(octet: u8) -> Seq<char> {
    seq![hex_digits()[octet as int / 16], hex_digits()[octet as int % 16]]
}

/// Six octets in colon-hexadecimal notation, such as `AA:BB:CC:DD:EE:FF`.
pub open spec fn address_text(octets: Seq<u8>) -> Seq<char>
    recommends
        octets.len() == 6,
{
    octet_text(octets[0]) + seq![':'] + octet_text(octets[1]) + seq![':'] + octet_text(octets[2])
        + seq![':'] + octet_text(octets[3]) + seq![':'] + octet_text(octets[4]) + seq![':']
        + octet_text(octets[5])
}

/// A Bluetooth hardware address: six octets, most significant first.
#[derive(Clone, Copy, Debug, PartialEq, Eq, Hash)]
pub struct Address(pub [u8; 6]);

fn hex_digit(nibble: u8) -> (digit: &'static str)
    requires
        nibble < 16,
    ensures
        digit@ == seq![hex_digits()[nibble as int]],
{
    proof {
        reveal_strlit("0");
        reveal_strlit("1");
        reveal_strlit("2");
        reveal_strlit("3");
        reveal_strlit("4");
        reveal_strlit("5");
        reveal_strlit("6");
        reveal_strlit("7");
        reveal_strlit("8");
        reveal_strlit("9");
        reveal_strlit("A");
        reveal_strlit("B");
        reveal_strlit("C");
        reveal_strlit("D");
        reveal_strlit("E");
        reveal_strlit("F");
    }
    let digit = match nibble {
        0 => "0",
        1 => "1",
        2 => "2",
        3 => "3",
        4 => "4",
        5 => "5",
        6 => "6",
        7 => "7",
        8 => "8",
        9 => "9",
        10 => "A",
        11 => "B",
        12 => "C",
        13 => "D",
        14 => "E",
        _ => "F",
    };
    assert(digit@ =~= seq![hex_digits()[nibble as int]]);
    digit
}

fn push_octet(text: &mut String, octet: u8)
    ensures
        final(text)@ == old(text)@ + octet_text(octet),
{
    text.append(hex_digit(octet / 16));
    text.append(hex_digit(octet % 16));
    assert(text@ =~= old(text)@ + octet_text(octet));
}

impl Address {
    /// The address with every octet zero.
    pub open spec fn zero() -> Address {
        Address([0u8, 0u8, 0u8, 0u8, 0u8, 0u8])
    }

    /// The colon-hexadecimal notation of this address.
    pub open spec fn text(self) -> Seq<char> {
        address_text(self.0@)
    }

    /// Writes the address in colon-hexadecimal notation, upper case.
    pub fn to_string(&self) -> (text: String)
        ensures
            text@ == self.text(),
    {
        proof {
            reveal_strlit(":");
        }
        let mut text = String::new();
        push_octet(&mut text, self.0[0]);
        text.append(":");
        push_octet(&mut text, self.0[1]);
        text.append(":");
        push_octet(&mut text, self.0[2]);
        text.append(":");
        push_octet(&mut text, self.0[3]);
        text.append(":");
        push_octet(&mut text, self.0[4]);
        text.append(":");
        push_octet(&mut text, self.0[5]);
        assert(text@ =~= address_text(self.0@));
        text
    }
}

impl Default for Address {
    fn default() -> (address: Address)
        ensures
            address == Address::zero(),
    {
        Address([0u8, 0u8, 0u8, 0u8, 0u8, 0u8])
    }
}

} // verus!
