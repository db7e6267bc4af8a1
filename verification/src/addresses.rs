//! Network addresses as tagged values: the bare family tag, and the family
//! tag with its associated data, together with a total textual derivation.

use vstd::prelude::*;

verus! {

/// The family of an address, with no associated data: exactly one of the
/// two alternatives is active in any instance.
#[derive(Clone, Copy, Debug, PartialEq, Eq, Structural)]
pub enum IpAddressVariant {
    V4,
    V6,
}

/// Accepts an address family. A stand-in endpoint showing that a closed
/// variant set travels like any other value; it decides nothing.
#[allow(unused_variables)]
pub fn route(ip_variant: IpAddressVariant) {
}

/// An address with the data its family calls for: four 8-bit fields for
/// `V4`, one textual field for `V6`. No instance is both at once.
#[derive(Clone, Debug, PartialEq, Eq)]
pub enum IpAddress {
    V4(u8, u8, u8, u8),
    V6(String),
}

/// The character for a single decimal digit.
pub open spec fn spec_digit_char(d: nat) -> char
    recommends
        d < 10,
{
    if d == 0 {
        '0'
    } else if d == 1 {
        '1'
    } else if d == 2 {
        '2'
    } else if d == 3 {
        '3'
    } else if d == 4 {
        '4'
    } else if d == 5 {
        '5'
    } else if d == 6 {
        '6'
    } else if d == 7 {
        '7'
    } else if d == 8 {
        '8'
    } else {
        '9'
    }
}

/// The decimal text of an 8-bit field: one to three digits, no leading zero
/// except for the value zero itself.
pub open spec fn spec_u8_decimal(n: nat) -> Seq<char>
    recommends
        n < 256,
{
    if n < 10 {
        seq![spec_digit_char(n)]
    } else if n < 100 {
        seq![spec_digit_char(n / 10), spec_digit_char(n % 10)]
    } else {
        seq![spec_digit_char(n / 100), spec_digit_char((n / 10) % 10), spec_digit_char(n % 10)]
    }
}

/// The dotted form of a four-field address: the four fields in decimal,
/// separated by single dots.
pub open spec fn spec_dotted_quad(a: u8, b: u8, c: u8, d: u8) -> Seq<char> {
    spec_u8_decimal(a as nat) + seq!['.'] + spec_u8_decimal(b as nat) + seq!['.']
        + spec_u8_decimal(c as nat) + seq!['.'] + spec_u8_decimal(d as nat)
}

/// What `describe` returns: the dotted decimal form for `V4`, and the
/// textual field verbatim for `V6`.
pub open spec fn spec_describe(address: IpAddress) -> Seq<char> {
    match address {
        IpAddress::V4(a, b, c, d) => spec_dotted_quad(a, b, c, d),
        IpAddress::V6(text) => text@,
    }
}

/// The text of one decimal digit.
fn digit_str(d: u8) -> (r: &'static str)
    requires
        d < 10,
    ensures
        r@ == seq![spec_digit_char(d as nat)],
{
    let r: &'static str = match d {
        0 => "0",
        1 => "1",
        2 => "2",
        3 => "3",
        4 => "4",
        5 => "5",
        6 => "6",
        7 => "7",
        8 => "8",
        _ => "9",
    };
    proof {
        reveal_strlit("0");
        reveal_strlit("1");
        reveal_strlit("2");
        reveal_strlit("3");
        reveal_strlit("4");
        reveal_strlit("5");
        reveal_strlit("6");
        reveal_strlit("7");
        reveal_strlit("8");
        reveal_strlit("9");
        assert(r@ =~= seq![spec_digit_char(d as nat)]);
    }
    r
}

/// The decimal text of an 8-bit value.
fn u8_to_decimal(n: u8) -> (r: String)
    ensures
        r@ == spec_u8_decimal(n as nat),
{
    if n < 10 {
        let s = String::from_str(digit_str(n));
        proof {
            assert(s@ =~= spec_u8_decimal(n as nat));
        }
        s
    } else if n < 100 {
        let mut s = String::from_str(digit_str(n / 10));
        s.append(digit_str(n % 10));
        proof {
            assert(s@ =~= spec_u8_decimal(n as nat));
        }
        s
    } else {
        let mut s = String::from_str(digit_str(n / 100));
        s.append(digit_str((n / 10) % 10));
        s.append(digit_str(n % 10));
        proof {
            assert(s@ =~= spec_u8_decimal(n as nat));
        }
        s
    }
}

/// Derives the display text of an address: the four numeric fields of a
/// `V4` as a dotted sequence, the textual field of a `V6` verbatim.
pub fn describe(address: IpAddress) -> (text: String)
    ensures
        text@ == spec_describe(address),
{
    match address {
        IpAddress::V4(a, b, c, d) => {
            let mut s = u8_to_decimal(a);
            let dot: &'static str = ".";
            let sb = u8_to_decimal(b);
            let sc = u8_to_decimal(c);
            let sd = u8_to_decimal(d);
            s.append(dot);
            s.append(sb.as_str());
            s.append(dot);
            s.append(sc.as_str());
            s.append(dot);
            s.append(sd.as_str());
            proof {
                reveal_strlit(".");
                assert(s@ =~= spec_dotted_quad(a, b, c, d));
            }
            s
        },
        IpAddress::V6(text) => text,
    }
}

} // verus!
