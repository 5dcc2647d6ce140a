//! Discovery scanner: which subnets to sweep, in which batches, and how far
//! along the sweep is.
//!
//! A subnet is the first three octets of an IPv4 address; the sweep probes
//! hosts `.1` to `.254` of it, 32 at a time.

use vstd::prelude::*;
use vstd::string::StringExecFns;
use vstd::string::StringSliceAdditionalSpecFns;
use crate::tokens::{split, split_bytes, views, octet_of, parse_octet, trim, trim_bytes};
use crate::text::{decimal, push_decimal};

verus! {

/// Number of addresses probed at once.
pub const SCAN_BATCH_SIZE: u8 = 32;

/// Number of batches that cover hosts `.1` to `.254`.
pub const SCAN_BATCH_COUNT: u8 = 8;

/// Time allowed for one probe, in milliseconds.
pub const PROBE_TIMEOUT_MILLIS: u64 = 100;

/// First host of a subnet that is probed.
pub const FIRST_HOST: u8 = 1;

/// Last host of a subnet that is probed.
pub const LAST_HOST: u8 = 254;

/// A /24 subnet, named by its first three octets.
#[derive(Clone, Copy, Debug, PartialEq, Eq)]
pub struct Subnet {
    pub octets: [u8; 3],
}

/// The bytes `.`, `/` and the list separators `,`, space and `;`.
pub open spec fn dot() -> Seq<u8> {
    seq![46u8]
}

pub open spec fn slash() -> Seq<u8> {
    seq![47u8]
}

pub open spec fn list_separators() -> Seq<u8> {
    seq![44u8, 32u8, 59u8]
}

/// What a token denotes: the text before the first `/` is cut at dots; at
/// least three fields are needed and the first three must be octets. Any
/// further field is ignored.
pub open spec fn subnet_of(token: Seq<u8>) -> Option<[u8; 3]> {
    let host = split(token, slash())[0];
    let fields = split(host, dot());
    if fields.len() < 3 {
        None
    } else {
        match (octet_of(fields[0]), octet_of(fields[1]), octet_of(fields[2])) {
            (Some(a), Some(b), Some(c)) => Some([a, b, c]),
            _ => None,
        }
    }
}

/// The subnets among `tokens`, in order. White space around a token is
/// ignored; tokens that denote no subnet are dropped.
pub open spec fn subnets_of(tokens: Seq<Seq<u8>>) -> Seq<[u8; 3]>
    decreases tokens.len(),
{
    if tokens.len() == 0 {
        Seq::empty()
    } else {
        let rest = subnets_of(tokens.drop_last());
        match subnet_of(trim(tokens.last())) {
            Some(s) => rest.push(s),
            None => rest,
        }
    }
}

/// The octets of the subnets in a vector.
pub open spec fn octets_of(v: Seq<Subnet>) -> Seq<[u8; 3]> {
    Seq::new(v.len(), |i: int| v[i].octets)
}

/// The text `a.b.c.` of a subnet.
pub open spec fn base_text(o: [u8; 3]) -> Seq<char> {
    decimal(o[0] as nat) + seq!['.'] + decimal(o[1] as nat) + seq!['.'] + decimal(o[2] as nat)
        + seq!['.']
}

fn parse_token(token: &[u8]) -> (r: Option<Subnet>)
    ensures
        match r {
            Some(s) => subnet_of(token@) == Some(s.octets),
            None => subnet_of(token@) is None,
        },
{
    let sl: [u8; 1] = [47u8];
    let dt: [u8; 1] = [46u8];
    proof {
        assert(sl@ =~= slash());
        assert(dt@ =~= dot());
    }
    let parts = split_bytes(token, sl.as_slice());
    proof {
        assert(views(parts@)[0] == parts@[0]@);
    }
    let fields = split_bytes(parts[0].as_slice(), dt.as_slice());
    if fields.len() < 3 {
        return None;
    }
    proof {
        assert(views(fields@)[0] == fields@[0]@);
        assert(views(fields@)[1] == fields@[1]@);
        assert(views(fields@)[2] == fields@[2]@);
    }
    let a = parse_octet(fields[0].as_slice());
    let b = parse_octet(fields[1].as_slice());
    let c = parse_octet(fields[2].as_slice());
    match (a, b, c) {
        (Some(a), Some(b), Some(c)) => Some(Subnet { octets: [a, b, c] }),
        _ => None,
    }
}

impl Subnet {
    pub fn new(a: u8, b: u8, c: u8) -> (s: Self)
        ensures
            s.octets@ == seq![a, b, c],
    {
        let s = Subnet { octets: [a, b, c] };
        assert(s.octets@ =~= seq![a, b, c]);
        s
    }

    /// Reads `A.B.C`, `A.B.C.D` or `A.B.C.D/nn`.
    pub fn parse(s: &str) -> (r: Option<Self>)
        ensures
            match r {
                Some(subnet) => subnet_of(s.spec_bytes()) == Some(subnet.octets),
                None => subnet_of(s.spec_bytes()) is None,
            },
    {
        parse_token(s.as_bytes())
    }

    /// The text `a.b.c.`, to which a host number is appended.
    pub fn base(&self) -> (r: String)
        ensures
            r@ == base_text(self.octets),
    {
        let mut out = String::new();
        push_decimal(&mut out, self.octets[0] as u128);
        out.append(".");
        push_decimal(&mut out, self.octets[1] as u128);
        out.append(".");
        push_decimal(&mut out, self.octets[2] as u128);
        out.append(".");
        proof {
            reveal_strlit(".");
            assert(out@ =~= base_text(self.octets));
        }
        out
    }

    /// The subnet in CIDR notation, `a.b.c.0/24`.
    pub fn to_string(&self) -> (r: String)
        ensures
            r@ == base_text(self.octets) + seq!['0', '/', '2', '4'],
    {
        let mut out = self.base();
        out.append("0/24");
        proof {
            reveal_strlit("0/24");
            assert(out@ =~= base_text(self.octets) + seq!['0', '/', '2', '4']);
        }
        out
    }

    /// The address probed for host `last`: `a.b.c.last:port`.
    pub fn probe_address(&self, last: u8, port: u16) -> (r: String)
        ensures
            r@ == base_text(self.octets) + decimal(last as nat) + seq![':'] + decimal(port as nat),
    {
        let mut out = self.base();
        push_decimal(&mut out, last as u128);
        out.append(":");
        push_decimal(&mut out, port as u128);
        proof {
            reveal_strlit(":");
            assert(out@ =~= base_text(self.octets) + decimal(last as nat) + seq![':'] + decimal(
                port as nat,
            ));
        }
        out
    }

    /// The four octets of the host `last` of this subnet.
    pub fn ip(&self, last: u8) -> (r: [u8; 4])
        ensures
            r@ == seq![self.octets[0], self.octets[1], self.octets[2], last],
    {
        let r = [self.octets[0], self.octets[1], self.octets[2], last];
        assert(r@ =~= seq![self.octets[0], self.octets[1], self.octets[2], last]);
        r
    }
}

/// Reads a list of subnets separated by commas, spaces or semicolons.
/// Tokens that denote no subnet are dropped.
pub fn parse_subnets(input: &str) -> (r: Vec<Subnet>)
    ensures
        octets_of(r@) == subnets_of(split(input.spec_bytes(), list_separators())),
{
    let seps: [u8; 3] = [44u8, 32u8, 59u8];
    proof {
        assert(seps@ =~= list_separators());
    }
    let tokens = split_bytes(input.as_bytes(), seps.as_slice());
    let ghost all = views(tokens@);
    let mut out: Vec<Subnet> = Vec::new();
    let mut i: usize = 0;
    proof {
        assert(all.take(0) =~= Seq::<Seq<u8>>::empty());
        assert(octets_of(out@) =~= subnets_of(all.take(0)));
    }
    while i < tokens.len()
        invariant
            i <= tokens.len(),
            all == views(tokens@),
            octets_of(out@) == subnets_of(all.take(i as int)),
        decreases tokens.len() - i,
    {
        let ghost before = out@;
        proof {
            assert(all.take(i + 1).drop_last() =~= all.take(i as int));
            assert(all.take(i + 1).last() == tokens@[i as int]@);
        }
        match parse_token(trim_bytes(tokens[i].as_slice())) {
            Some(s) => {
                out.push(s);
                proof {
                    assert(octets_of(out@) =~= octets_of(before).push(s.octets));
                }
            },
            None => {},
        }
        i += 1;
    }
    proof {
        assert(all.take(tokens@.len() as int) =~= all);
    }
    out
}

/// The subnets to sweep: those the input names, or the local one when the
/// input names none and a local one is known.
pub fn subnets_or_local(input: &str, local: Option<Subnet>) -> (r: Vec<Subnet>)
    ensures
        subnets_of(split(input.spec_bytes(), list_separators())).len() > 0 ==> octets_of(r@)
            == subnets_of(split(input.spec_bytes(), list_separators())),
        subnets_of(split(input.spec_bytes(), list_separators())).len() == 0 ==> match local {
            Some(s) => r@ == seq![s],
            None => r@.len() == 0,
        },
{
    let parsed = parse_subnets(input);
    if parsed.len() > 0 {
        return parsed;
    }
    let mut out: Vec<Subnet> = Vec::new();
    match local {
        Some(s) => {
            out.push(s);
            assert(out@ =~= seq![s]);
        },
        None => {},
    }
    out
}

/// Why a sweep cannot begin.
#[derive(Clone, Copy, Debug, PartialEq, Eq, Structural)]
pub enum ScanError {
    /// The input names no subnet and no local one is known.
    NoSubnets,
}

/// The subnets of a sweep, or the reason why there is none to make: a
/// sweep needs at least one subnet.
pub fn scan_plan(input: &str, local: Option<Subnet>) -> (r: Result<Vec<Subnet>, ScanError>)
    ensures
        r is Err <==> subnets_of(split(input.spec_bytes(), list_separators())).len() == 0
            && local is None,
        r matches Ok(subnets) ==> subnets@.len() > 0 && (subnets_of(
            split(input.spec_bytes(), list_separators()),
        ).len() > 0 ==> octets_of(subnets@) == subnets_of(
            split(input.spec_bytes(), list_separators()),
        )) && (subnets_of(split(input.spec_bytes(), list_separators())).len() == 0 ==> subnets@
            == seq![local->Some_0]),
{
    let subnets = subnets_or_local(input, local);
    proof {
        assert(octets_of(subnets@).len() == subnets@.len());
    }
    if subnets.len() == 0 {
        Err(ScanError::NoSubnets)
    } else {
        Ok(subnets)
    }
}

// ---------------------------------------------------------------------
// Batches and progress
// ---------------------------------------------------------------------

/// First host of batch `k`.
pub open spec fn batch_start(k: int) -> int {
    1 + 32 * k
}

/// One past the last host of batch `k`.
pub open spec fn batch_end(k: int) -> int {
    if batch_start(k) + 32 < 255 {
        batch_start(k) + 32
    } else {
        255
    }
}

/// The hosts of batch `k`: from the first to one before the second number.
pub fn batch_range(k: u8) -> (r: (u8, u8))
    requires
        k < SCAN_BATCH_COUNT,
    ensures
        r.0 == batch_start(k as int),
        r.1 == batch_end(k as int),
        FIRST_HOST <= r.0 < r.1 <= LAST_HOST + 1,
        r.1 - r.0 <= SCAN_BATCH_SIZE,
{
    let start: u8 = 1 + 32 * k;
    let end: u8 = if start as u16 + 32 < 255 {
        start + 32
    } else {
        255
    };
    (start, end)
}

/// Every host from `.1` to `.254` lies in exactly one batch.
pub proof fn lemma_batches_cover_hosts(h: int)
    requires
        FIRST_HOST <= h <= LAST_HOST,
    ensures
        0 <= (h - 1) / 32 < SCAN_BATCH_COUNT,
        batch_start((h - 1) / 32) <= h < batch_end((h - 1) / 32),
        forall|k: int|
            0 <= k < SCAN_BATCH_COUNT && #[trigger] batch_start(k) <= h < batch_end(k) ==> k == (h
                - 1) / 32,
{
}

/// Progress in percent after the batch that ends at `end` in subnet number
/// `subnet_index` (from 0) out of `subnet_count`: the share of the 254
/// hosts of every subnet that were probed, rounded down.
pub open spec fn progress_percent(subnet_index: int, subnet_count: int, end: int) -> int {
    (subnet_index * 254 + end) * 100 / 254 / subnet_count
}

/// Progress of the sweep across all subnets, 0 to 100.
pub fn scan_progress(subnet_index: usize, subnet_count: usize, end: u8) -> (p: u8)
    requires
        subnet_index < subnet_count,
    ensures
        p == progress_percent(subnet_index as int, subnet_count as int, end as int),
        p <= 100,
{
    let done: u128 = (subnet_index as u128 * 254 + end as u128) * 100;
    let per_subnet: u128 = done / 254;
    let p: u128 = per_subnet / (subnet_count as u128);
    assert(p <= 100) by (nonlinear_arith)
        requires
            p == per_subnet / (subnet_count as u128),
            per_subnet <= 100 * subnet_count,
            subnet_count > 0,
    ;
    p as u8
}

} // verus!
