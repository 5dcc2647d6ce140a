//! IPv4 addresses as text: reading them, writing them, and what is shown
//! for the machine's answer about its local address.

use vstd::prelude::*;
use vstd::string::{StringExecFns, StringSliceAdditionalSpecFns};
use vstd::utf8::encode_utf8;
use crate::text::{decimal, push_decimal};
use crate::tokens::{octet_of, parse_octet, split, split_bytes, views};
use crate::utils::local_ip_label;

verus! {

/// The dotted text `a.b.c.d` of an IPv4 address.
pub open spec fn ipv4_text(a: u8, b: u8, c: u8, d: u8) -> Seq<char> {
    decimal(a as nat) + seq!['.'] + decimal(b as nat) + seq!['.'] + decimal(c as nat) + seq!['.']
        + decimal(d as nat)
}

/// The IPv4 address a text denotes: exactly four fields between dots, each
/// of them an octet. Any other text denotes none.
pub open spec fn ipv4_of(text: Seq<u8>) -> Option<(u8, u8, u8, u8)> {
    let fields = split(text, seq![46u8]);
    if fields.len() != 4 {
        None
    } else {
        match (octet_of(fields[0]), octet_of(fields[1]), octet_of(fields[2]), octet_of(fields[3])) {
            (Some(a), Some(b), Some(c), Some(d)) => Some((a, b, c, d)),
            _ => None,
        }
    }
}

/// Reads a text as an IPv4 address.
pub fn parse_ipv4(text: &str) -> (r: Option<(u8, u8, u8, u8)>)
    ensures
        r == ipv4_of(text.spec_bytes()),
{
    let dot: [u8; 1] = [46u8];
    proof {
        assert(dot@ =~= seq![46u8]);
    }
    let fields = split_bytes(text.as_bytes(), dot.as_slice());
    if fields.len() != 4 {
        return None;
    }
    proof {
        assert(views(fields@)[0] == fields@[0]@);
        assert(views(fields@)[1] == fields@[1]@);
        assert(views(fields@)[2] == fields@[2]@);
        assert(views(fields@)[3] == fields@[3]@);
    }
    let a = parse_octet(fields[0].as_slice());
    let b = parse_octet(fields[1].as_slice());
    let c = parse_octet(fields[2].as_slice());
    let d = parse_octet(fields[3].as_slice());
    match (a, b, c, d) {
        (Some(a), Some(b), Some(c), Some(d)) => Some((a, b, c, d)),
        _ => None,
    }
}

/// Writes an IPv4 address as dotted text.
pub fn format_ipv4(a: u8, b: u8, c: u8, d: u8) -> (r: String)
    ensures
        r@ == ipv4_text(a, b, c, d),
{
    let mut out = String::new();
    push_decimal(&mut out, a as u128);
    out.append(".");
    push_decimal(&mut out, b as u128);
    out.append(".");
    push_decimal(&mut out, c as u128);
    out.append(".");
    push_decimal(&mut out, d as u128);
    proof {
        reveal_strlit(".");
        assert(out@ =~= ipv4_text(a, b, c, d));
    }
    out
}

/// What is shown for an answer of the machine about its local address: the
/// address in dotted text where the answer denotes an IPv4 address, the
/// note that it is not known for any other answer and for none.
pub open spec fn local_ip_text(answer: Option<Seq<u8>>) -> Seq<char> {
    match answer {
        Some(text) => match ipv4_of(text) {
            Some((a, b, c, d)) => ipv4_text(a, b, c, d),
            None => "Не определён"@,
        },
        None => "Не определён"@,
    }
}

/// The text shown for an answer of the machine about its local address.
pub fn local_ip_display(answer: Option<String>) -> (r: String)
    ensures
        r@ == local_ip_text(
            match answer {
                Some(text) => Some(encode_utf8(text@)),
                None => None,
            },
        ),
{
    let address = match answer {
        Some(text) => match parse_ipv4(text.as_str()) {
            Some((a, b, c, d)) => Some(format_ipv4(a, b, c, d)),
            None => None,
        },
        None => None,
    };
    local_ip_label(address)
}

} // verus!
