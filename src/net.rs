//! Network acquisition: candidate selection, connection order and hostname.

use vstd::prelude::*;
use vstd::string::*;
use vstd::utf8::*;
use crate::error::{OsError, OsResult};

verus! {

/// Most access points a scan collects.
pub const MAX_NET_SCAN: usize = 2;

/// Weakest signal strength, in dBm, that is still worth a connection attempt.
pub const RSSI_THRESHOLD: i8 = -85;

/// An access point found by a scan, as far as the selection reads it.
#[derive(Debug)]
pub struct Candidate {
    pub ssid: String,
    pub signal_strength: i8,
}

/// An entry of the configured network table.
#[derive(Debug)]
pub struct Credential {
    pub ssid: String,
    pub psk: String,
}

/// The SSID is in the credential table.
pub open spec fn known(ssid: Seq<char>, table: Seq<Credential>) -> bool {
    exists|j: int| 0 <= j < table.len() && #[trigger] table[j].ssid@ == ssid
}

/// Candidate `i` is known and has signal strength `k`.
pub open spec fn eligible(s: Seq<Candidate>, table: Seq<Credential>, i: int, k: int) -> bool {
    known(s[i].ssid@, table) && s[i].signal_strength == k
}

/// Indices, ascending, of the known candidates among the first `n` whose
/// strength is `k`.
pub open spec fn group(s: Seq<Candidate>, table: Seq<Credential>, k: int, n: nat) -> Seq<usize>
    decreases n,
{
    if n == 0 {
        Seq::empty()
    } else {
        group(s, table, k, (n - 1) as nat) + if eligible(s, table, n - 1, k) {
            seq![(n - 1) as usize]
        } else {
            Seq::empty()
        }
    }
}

/// The groups of strengths `top` down to `floor`, strongest first.
pub open spec fn ranked_between(s: Seq<Candidate>, table: Seq<Credential>, top: int, floor: int) -> Seq<usize>
    decreases top + 1 - floor,
{
    if floor > top {
        Seq::empty()
    } else {
        ranked_between(s, table, top, floor + 1) + group(s, table, floor, s.len())
    }
}

/// Ranking of a scan: the known candidates not weaker than `threshold`, by
/// descending strength, candidates of equal strength in scan order.
pub open spec fn ranking(s: Seq<Candidate>, table: Seq<Credential>, threshold: i8) -> Seq<usize> {
    ranked_between(s, table, i8::MAX as int, threshold as int)
}

/// Whether the SSID is in the credential table.
pub fn is_known(ssid: &String, table: &Vec<Credential>) -> (r: bool)
    ensures
        r == known(ssid@, table@),
{
    let mut j: usize = 0;
    while j < table.len()
        invariant
            j <= table@.len(),
            forall|i: int| 0 <= i < j ==> #[trigger] table@[i].ssid@ != ssid@,
        decreases table@.len() - j,
    {
        if table[j].ssid == *ssid {
            return true;
        }
        j = j + 1;
    }
    false
}

/// Index of the first table entry for the SSID.
pub fn find_credential(ssid: &String, table: &Vec<Credential>) -> (r: Option<usize>)
    ensures
        r is None <==> !known(ssid@, table@),
        r matches Some(j) ==> j < table@.len() && table@[j as int].ssid@ == ssid@
            && forall|i: int| 0 <= i < j ==> #[trigger] table@[i].ssid@ != ssid@,
{
    let mut j: usize = 0;
    while j < table.len()
        invariant
            j <= table@.len(),
            forall|i: int| 0 <= i < j ==> #[trigger] table@[i].ssid@ != ssid@,
        decreases table@.len() - j,
    {
        if table[j].ssid == *ssid {
            return Some(j);
        }
        j = j + 1;
    }
    None
}

/// Ranks a scan: indices of the known candidates with strength at least
/// `threshold`, strongest first, ties kept in scan order.
pub fn rank_candidates(cands: &Vec<Candidate>, table: &Vec<Credential>, threshold: i8) -> (r: Vec<usize>)
    ensures
        r@ == ranking(cands@, table@, threshold),
{
    let n = cands.len();
    let mut flags: Vec<bool> = Vec::new();
    let mut i: usize = 0;
    while i < n
        invariant
            n == cands@.len(),
            i <= n,
            flags@.len() == i,
            forall|j: int| 0 <= j < i ==> #[trigger] flags@[j] == known(cands@[j].ssid@, table@),
        decreases n - i,
    {
        let f = is_known(&cands[i].ssid, table);
        flags.push(f);
        i = i + 1;
    }

    let mut out: Vec<usize> = Vec::new();
    let mut k: i16 = 127;
    while k >= threshold as i16
        invariant
            n == cands@.len(),
            flags@.len() == n,
            forall|j: int| 0 <= j < n ==> #[trigger] flags@[j] == known(cands@[j].ssid@, table@),
            threshold - 1 <= k <= 127,
            out@ == ranked_between(cands@, table@, 127, k + 1),
        decreases k + 1 - threshold,
    {
        let mut i: usize = 0;
        while i < n
            invariant
                n == cands@.len(),
                flags@.len() == n,
                forall|j: int| 0 <= j < n ==> #[trigger] flags@[j] == known(cands@[j].ssid@, table@),
                threshold <= k <= 127,
                i <= n,
                out@ == ranked_between(cands@, table@, 127, k + 1) + group(cands@, table@, k as int, i as nat),
            decreases n - i,
        {
            if flags[i] && cands[i].signal_strength as i16 == k {
                out.push(i);
            }
            proof {
                assert(group(cands@, table@, k as int, (i + 1) as nat) == group(cands@, table@, k as int, i as nat)
                    + if eligible(cands@, table@, i as int, k as int) { seq![i] } else { Seq::<usize>::empty() });
            }
            i = i + 1;
        }
        k = k - 1;
    }
    out
}

/// Candidate selection for a cycle: the ranking with the configured
/// threshold, or `NoInternet` when nothing is usable.
pub fn usable_networks(cands: &Vec<Candidate>, table: &Vec<Credential>) -> (r: OsResult<Vec<usize>>)
    ensures
        ranking(cands@, table@, RSSI_THRESHOLD).len() == 0 ==> r == Err::<Vec<usize>, OsError>(OsError::NoInternet),
        ranking(cands@, table@, RSSI_THRESHOLD).len() > 0 ==> r is Ok
            && r->Ok_0@ == ranking(cands@, table@, RSSI_THRESHOLD),
{
    let ranked = rank_candidates(cands, table, RSSI_THRESHOLD);
    if ranked.len() == 0 {
        return Err(OsError::NoInternet);
    }
    Ok(ranked)
}

/// Walks a ranked list of candidates, one connection attempt each.
pub struct Connector {
    order: Vec<usize>,
    next: usize,
}

impl Connector {
    /// The candidates in the order they are to be tried.
    pub closed spec fn spec_order(&self) -> Seq<usize> {
        self.order@
    }

    /// How many attempts were handed out.
    pub closed spec fn spec_tried(&self) -> nat {
        self.next as nat
    }

    pub fn new(order: Vec<usize>) -> (r: Connector)
        ensures
            r.spec_order() == order@,
            r.spec_tried() == 0,
    {
        Connector { order, next: 0 }
    }

    /// The next candidate to try; once every candidate failed, the node is
    /// offline.
    pub fn next_attempt(&mut self) -> (r: OsResult<usize>)
        ensures
            final(self).spec_order() == old(self).spec_order(),
            old(self).spec_tried() < old(self).spec_order().len() ==> r == Ok::<usize, OsError>(
                old(self).spec_order()[old(self).spec_tried() as int],
            ) && final(self).spec_tried() == old(self).spec_tried() + 1,
            old(self).spec_tried() >= old(self).spec_order().len() ==> r == Err::<usize, OsError>(
                OsError::NoInternet,
            ) && final(self).spec_tried() == old(self).spec_tried(),
    {
        if self.next < self.order.len() {
            let c = self.order[self.next];
            self.next = self.next + 1;
            Ok(c)
        } else {
            Err(OsError::NoInternet)
        }
    }
}

/// Upper-case hexadecimal digits.
pub const HEX_DIGITS: &'static str = "0123456789ABCDEF";

/// Prefix of every node's hostname.
pub const HOSTNAME_PREFIX: &'static str = "pixelweather-node-";

/// The upper-case hexadecimal digit of a value below 16.
pub open spec fn hex_digit(d: int) -> char {
    HEX_DIGITS@[d]
}

/// Two upper-case hexadecimal digits of a byte.
pub open spec fn hex_byte(b: u8) -> Seq<char> {
    seq![hex_digit(b as int / 16), hex_digit(b as int % 16)]
}

/// The hostname of a node whose station MAC address ends in `b4`, `b5`.
pub open spec fn hostname_of(b4: u8, b5: u8) -> Seq<char> {
    HOSTNAME_PREFIX@ + hex_byte(b4) + hex_byte(b5)
}

fn push_hex_digit(s: &mut String, d: u8)
    requires
        d < 16,
    ensures
        final(s)@ == old(s)@.push(hex_digit(d as int)),
{
    proof {
        reveal_strlit("0123456789ABCDEF");
    }
    let digit = HEX_DIGITS.substring_char(d as usize, d as usize + 1);
    assert(digit@ =~= seq![hex_digit(d as int)]);
    s.append(digit);
}

/// A bounded string of the `heapless` crate.
#[verifier::external_type_specification]
#[verifier::external_body]
pub struct ExBoundedString<const N: usize>(heapless::String<N>);

/// The characters a hostname buffer holds.
pub uninterp spec fn hostname_chars(s: heapless::String<30>) -> Seq<char>;

/// Relies on heapless::String::try_from, which pushes the string into an empty
/// buffer: it fails, holding nothing, when the string's UTF-8 bytes exceed the
/// capacity, and otherwise holds exactly the string.
#[verifier::external_body]
fn bounded_hostname(s: &str) -> (r: Result<heapless::String<30>, ()>)
    ensures
        r is Ok <==> s.spec_bytes().len() <= 30,
        r matches Ok(h) ==> hostname_chars(h) == s@,
{
    heapless::String::try_from(s)
}

/// The DHCP hostname: a fixed prefix and the last two bytes of the station MAC
/// address in upper-case hexadecimal; an unreadable address counts as zeros.
/// It always fits the 30-byte buffer that DHCP settings hold.
pub fn generate_hostname(mac: Option<[u8; 6]>) -> (r: OsResult<heapless::String<30>>)
    ensures
        r matches Ok(h) && hostname_chars(h) == (match mac {
            Some(m) => hostname_of(m@[4], m@[5]),
            None => hostname_of(0, 0),
        }),
{
    let (b4, b5) = match mac {
        Some(m) => (m[4], m[5]),
        None => (0u8, 0u8),
    };
    let mut s = HOSTNAME_PREFIX.to_owned();
    push_hex_digit(&mut s, b4 / 16);
    push_hex_digit(&mut s, b4 % 16);
    push_hex_digit(&mut s, b5 / 16);
    push_hex_digit(&mut s, b5 % 16);
    assert(s@ =~= hostname_of(b4, b5));
    proof {
        reveal_strlit("pixelweather-node-");
        reveal_strlit("0123456789ABCDEF");
        assert(is_ascii_chars(s@));
        is_ascii_chars_encode_utf8(s@);
    }
    match bounded_hostname(s.as_str()) {
        Ok(h) => Ok(h),
        Err(_) => Err(OsError::UnexpectedBufferFailiure),
    }
}

} // verus!
