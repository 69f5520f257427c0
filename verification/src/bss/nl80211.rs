//! The nl80211 attributes of a BSS in a scan result: their type codes, how a list of them is
//! searched, and how their payloads decode.
use std::collections::HashMap;
use vstd::prelude::*;

use crate::bits::{le_value, lemma_le_value_bound, lemma_two_pow_64, read_le_u64, two_pow};

verus! {

/// The nl80211 command that carries scan results.
pub const NL80211_CMD_NEW_SCAN_RESULTS: u8 = 34;

/// The nl80211 BSS attribute type codes.
pub const NL80211_BSS_BSSID: u16 = 1;
pub const NL80211_BSS_FREQUENCY: u16 = 2;
pub const NL80211_BSS_TSF: u16 = 3;
pub const NL80211_BSS_BEACON_INTERVAL: u16 = 4;
pub const NL80211_BSS_CAPABILITY: u16 = 5;
pub const NL80211_BSS_INFORMATION_ELEMENTS: u16 = 6;
pub const NL80211_BSS_SIGNAL_MBM: u16 = 7;
pub const NL80211_BSS_SIGNAL_UNSPEC: u16 = 8;
pub const NL80211_BSS_STATUS: u16 = 9;
pub const NL80211_BSS_SEEN_MS_AGO: u16 = 10;
pub const NL80211_BSS_BEACON_IES: u16 = 11;
pub const NL80211_BSS_CHAN_WIDTH: u16 = 12;
pub const NL80211_BSS_BEACON_TSF: u16 = 13;
pub const NL80211_BSS_PRESP_DATA: u16 = 14;
pub const NL80211_BSS_LAST_SEEN_BOOTTIME: u16 = 15;
pub const NL80211_BSS_PARENT_TSF: u16 = 17;
pub const NL80211_BSS_PARENT_BSSID: u16 = 18;
pub const NL80211_BSS_FREQUENCY_OFFSET: u16 = 20;
pub const NL80211_BSS_MLO_LINK_ID: u16 = 21;
pub const NL80211_BSS_MLD_ADDR: u16 = 22;

/// One netlink attribute: its type code and its payload.
#[derive(Debug, Clone, PartialEq, Eq)]
pub struct NlAttribute {
    pub kind: u16,
    pub payload: Vec<u8>,
}

/// Why the attributes of a scan result do not make a BSS.
#[derive(Debug, Clone, Copy, PartialEq, Eq, Hash)]
pub enum Nl80211ParseError {
    /// The message carries another command than the one for scan results.
    UnexpectedCommand { expected: u8, got: u8 },
    /// A required attribute is missing.
    MissingAttribute(&'static str),
    /// A required attribute's payload is too short for its type.
    InvalidPayload(&'static str),
}

/// The payload of the last attribute of type `kind`, as a map keyed by type keeps it.
pub open spec fn last_payload(attrs: Seq<NlAttribute>, kind: u16) -> Option<Seq<u8>>
    decreases attrs.len(),
{
    if attrs.len() == 0 {
        None
    } else if attrs.last().kind == kind {
        Some(attrs.last().payload@)
    } else {
        last_payload(attrs.drop_last(), kind)
    }
}

/// Whether `m` holds the attributes keyed by type: for each type that occurs, the payload of
/// the last attribute of that type, as collecting the attributes into a map keeps it.
pub open spec fn keyed_by_type(m: Map<u16, &[u8]>, attrs: Seq<NlAttribute>) -> bool {
    &&& forall|k: u16| #[trigger] m.contains_key(k) <==> last_payload(attrs, k) is Some
    &&& forall|k: u16| #[trigger] m.contains_key(k) ==> m[k]@ == last_payload(attrs, k)->0
}

/// Collects the attributes into a map keyed by type; a later attribute of a type replaces an
/// earlier one.
pub fn attribute_map(attrs: &[NlAttribute]) -> (m: HashMap<u16, &[u8]>)
    ensures
        keyed_by_type(m@, attrs@),
{
    broadcast use vstd::std_specs::hash::group_hash_axioms;
    let mut m: HashMap<u16, &[u8]> = HashMap::new();
    let mut i: usize = 0;
    while i < attrs.len()
        invariant
            i <= attrs@.len(),
            keyed_by_type(m@, attrs@.subrange(0, i as int)),
        decreases attrs@.len() - i,
    {
        let ghost before = attrs@.subrange(0, i as int);
        let ghost old_m = m@;
        m.insert(attrs[i].kind, attrs[i].payload.as_slice());
        proof {
            let after = attrs@.subrange(0, i + 1);
            assert(after.drop_last() =~= before);
            assert(after.last() == attrs@[i as int]);
            assert forall|k: u16| #[trigger] m@.contains_key(k) <==> last_payload(after, k) is Some by {
                if k != attrs@[i as int].kind {
                    assert(old_m.contains_key(k) <==> last_payload(before, k) is Some);
                }
            }
            assert forall|k: u16| #[trigger] m@.contains_key(k) implies m@[k]@ == last_payload(after, k)->0 by {
                if k != attrs@[i as int].kind {
                    assert(old_m.contains_key(k));
                }
            }
        }
        i = i + 1;
    }
    proof {
        assert(attrs@.subrange(0, attrs@.len() as int) =~= attrs@);
    }
    m
}

/// The payload the map holds for type `kind`.
pub fn find_payload<'a>(m: &HashMap<u16, &'a [u8]>, kind: u16) -> (r: Option<&'a [u8]>)
    ensures
        r is Some <==> m@.contains_key(kind),
        r matches Some(p) ==> p == m@[kind],
{
    broadcast use vstd::std_specs::hash::group_hash_axioms;
    match m.get(&kind) {
        Some(p) => Some(*p),
        None => None,
    }
}

/// The unsigned value of the first `n` bytes of a payload, least significant byte first, if
/// the payload holds that many.
pub open spec fn payload_uint(p: Seq<u8>, n: nat) -> Option<nat> {
    if p.len() >= n {
        Some(le_value(p, 0, n))
    } else {
        None
    }
}

/// Reads the first `n` (at most 8) bytes of a payload as an unsigned value, least significant
/// byte first; `None` when the payload is shorter.
pub fn read_payload(p: &[u8], n: usize) -> (r: Option<u64>)
    requires
        n <= 8,
    ensures
        r is Some <==> payload_uint(p@, n as nat) is Some,
        r matches Some(v) ==> v == payload_uint(p@, n as nat)->0,
        r matches Some(v) ==> v < two_pow(8 * n as nat),
{
    if p.len() < n {
        None
    } else {
        proof {
            lemma_le_value_bound(p@, 0, n as nat);
        }
        Some(read_le_u64(p, 0, n))
    }
}

/// Reads a one-byte payload value.
pub fn payload_u8(p: &[u8]) -> (r: Option<u8>)
    ensures
        r is Some <==> payload_uint(p@, 1) is Some,
        r matches Some(v) ==> v == payload_uint(p@, 1)->0,
{
    match read_payload(p, 1) {
        Some(v) => {
            proof {
                reveal_with_fuel(two_pow, 9);
            }
            Some(v as u8)
        },
        None => None,
    }
}

/// Reads a two-byte payload value.
pub fn payload_u16(p: &[u8]) -> (r: Option<u16>)
    ensures
        r is Some <==> payload_uint(p@, 2) is Some,
        r matches Some(v) ==> v == payload_uint(p@, 2)->0,
{
    match read_payload(p, 2) {
        Some(v) => {
            proof {
                lemma_two_pow_64();
            }
            Some(v as u16)
        },
        None => None,
    }
}

/// Reads a four-byte payload value.
pub fn payload_u32(p: &[u8]) -> (r: Option<u32>)
    ensures
        r is Some <==> payload_uint(p@, 4) is Some,
        r matches Some(v) ==> v == payload_uint(p@, 4)->0,
{
    match read_payload(p, 4) {
        Some(v) => {
            proof {
                lemma_two_pow_64();
            }
            Some(v as u32)
        },
        None => None,
    }
}

/// Reads an eight-byte payload value.
pub fn payload_u64(p: &[u8]) -> (r: Option<u64>)
    ensures
        r is Some <==> payload_uint(p@, 8) is Some,
        r matches Some(v) ==> v == payload_uint(p@, 8)->0,
{
    read_payload(p, 8)
}

/// The first six bytes of a payload, if it holds that many.
pub fn payload_first_six(p: &[u8]) -> (r: Option<[u8; 6]>)
    ensures
        r is Some <==> p@.len() >= 6,
        r matches Some(a) ==> a@ == p@.subrange(0, 6),
{
    if p.len() < 6 {
        None
    } else {
        let a = [p[0], p[1], p[2], p[3], p[4], p[5]];
        proof {
            assert(a@ =~= p@.subrange(0, 6));
        }
        Some(a)
    }
}

/// The payload as six bytes, if it is exactly six bytes long.
pub fn payload_exactly_six(p: &[u8]) -> (r: Option<[u8; 6]>)
    ensures
        r is Some <==> p@.len() == 6,
        r matches Some(a) ==> a@ == p@,
{
    if p.len() != 6 {
        None
    } else {
        let a = [p[0], p[1], p[2], p[3], p[4], p[5]];
        proof {
            assert(a@ =~= p@);
        }
        Some(a)
    }
}

} // verus!
