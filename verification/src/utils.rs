//! Small helpers for text shown to the user.

use vstd::prelude::*;
use vstd::string::{StringExecFns, StrSliceExecFns};
use crate::text::{decimal, fixed2, push_decimal, push_fixed2};

verus! {

/// A size in bytes as text, in the largest unit of 1024 that keeps the
/// number at 1 or above, with two digits after the point.
pub open spec fn size_text(size: u64) -> Seq<char> {
    if size >= 1073741824 {
        fixed2(size as nat, 1073741824) + " ГБ"@
    } else if size >= 1048576 {
        fixed2(size as nat, 1048576) + " МБ"@
    } else if size >= 1024 {
        fixed2(size as nat, 1024) + " КБ"@
    } else {
        decimal(size as nat) + " Б"@
    }
}

/// A size in bytes as text.
pub fn format_size(size: u64) -> (r: String)
    ensures
        r@ == size_text(size),
{
    let mut out = String::new();
    if size >= 1073741824 {
        push_fixed2(&mut out, size as u128, 1073741824);
        out.append(" ГБ");
    } else if size >= 1048576 {
        push_fixed2(&mut out, size as u128, 1048576);
        out.append(" МБ");
    } else if size >= 1024 {
        push_fixed2(&mut out, size as u128, 1024);
        out.append(" КБ");
    } else {
        push_decimal(&mut out, size as u128);
        out.append(" Б");
    }
    assert(out@ =~= size_text(size));
    out
}

/// The text cut to `max_chars` characters: unchanged when it is short
/// enough, otherwise three dots followed by its last `max_chars - 3`
/// characters (by none when `max_chars` is below 3).
pub open spec fn truncated(s: Seq<char>, max_chars: usize) -> Seq<char> {
    if s.len() <= max_chars {
        s
    } else {
        let keep = if max_chars >= 3 {
            max_chars - 3
        } else {
            0
        };
        "..."@ + s.skip(s.len() - keep)
    }
}

/// Cuts a text to `max_chars` characters, keeping its end.
pub fn truncate_string(s: &str, max_chars: usize) -> (r: String)
    ensures
        r@ == truncated(s@, max_chars),
{
    let count = s.unicode_len();
    if count <= max_chars {
        String::from_str(s)
    } else {
        let keep: usize = if max_chars >= 3 {
            max_chars - 3
        } else {
            0
        };
        let tail = s.substring_char(count - keep, count);
        let mut out = String::from_str("...");
        out.append(tail);
        assert(out@ =~= truncated(s@, max_chars));
        out
    }
}

/// `local_ip_address::local_ip`: the address of the machine on its local
/// network, as text, where it has an IPv4 one. The answer depends on the
/// machine, so nothing is claimed of it.
#[verifier::external_body]
fn local_ipv4_text() -> (r: Option<String>) {
    local_ip_address::local_ip().ok().filter(|ip| ip.is_ipv4()).map(|ip| ip.to_string())
}

/// The text shown for the local address: the address, or a note that it
/// is not known.
pub fn local_ip_label(ip: Option<String>) -> (r: String)
    ensures
        r@ == match ip {
            Some(text) => text@,
            None => "Не определён"@,
        },
{
    match ip {
        Some(text) => text,
        None => String::from_str("Не определён"),
    }
}

/// The local address as dotted text, or the note that it is not known.
pub fn get_local_ip_string() -> (r: String)
    ensures
        r@ == "Не определён"@ || exists|a: u8, b: u8, c: u8, d: u8|
            r@ == #[trigger] crate::address::ipv4_text(a, b, c, d),
{
    crate::address::local_ip_display(local_ipv4_text())
}

} // verus!
