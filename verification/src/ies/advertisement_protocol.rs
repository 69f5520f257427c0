//! The Advertisement Protocol element: the protocols an access point answers queries in.
use vstd::prelude::*;

use crate::bits::{
    bit_set, bits_value, lemma_bits_value_bound, lemma_two_pow_64, lemma_two_pow_monotone, read_bit,
    read_bits, read_u16_bits, read_u8_bits,
};
use crate::ies::field::{
    bit_field, bit_field_is, bit_field_with_units, reserved_bits, reserved_field_is, BitRange,
    Field,
};
use crate::ies::elements::vendor_specific::VendorSpecific;
use crate::ies::field::{byte_field, byte_field_is, byte_field_with_units};
use crate::text::{bool_string, bool_text, decimal, owned, paren_decimal, paren_text, u64_text};

verus! {

/// The Query Response Info field of an Advertisement Protocol tuple.
#[derive(Debug, Clone, Copy, PartialEq, Eq, Hash)]
pub struct QueryResponseInfo {
    bytes: [u8; 1],
}

impl QueryResponseInfo {
    /// The encoded length in bytes.
    pub const LENGTH: usize = 1;

    /// Whether `bytes` (exactly 1 of them) encode a valid value.
    pub open spec fn spec_valid(bytes: Seq<u8>) -> bool {
        bytes.len() == 1
    }

    /// The encoded bytes.
    pub closed spec fn raw(&self) -> Seq<u8> {
        self.bytes@
    }

    /// Every value is encoded in exactly 1 bytes.
    pub proof fn lemma_raw_len(&self)
        ensures
            self.raw().len() == 1,
    {
    }

    /// Decodes the value from the first 1 bytes of `bytes`. `None` when there are fewer
    /// bytes or they do not encode a valid value.
    pub fn from_bytes(bytes: &[u8]) -> (r: Option<QueryResponseInfo>)
        ensures
            r is Some <==> bytes@.len() >= 1 && Self::spec_valid(bytes@.subrange(0, 1)),
            r matches Some(v) ==> v.raw() == bytes@.subrange(0, 1),
    {
        if bytes.len() < 1 {
            return None;
        }
        let a: [u8; 1] = [bytes[0]];
        proof {
            assert(a@ =~= bytes@.subrange(0, 1));
        }
        Some(QueryResponseInfo { bytes: a })
    }

    /// The encoded bytes.
    pub fn to_bytes(&self) -> (v: Vec<u8>)
        ensures
            v@ == self.raw(),
    {
        vstd::slice::slice_to_vec(self.bytes.as_slice())
    }

    /// The "Query Response Length Limit" subfield (bits 0-6).
    pub open spec fn spec_query_response_length_limit(&self) -> u8 {
        bits_value(self.raw(), 0, 7) as u8
    }

    /// The "Query Response Length Limit" subfield (bits 0-6).
    pub fn query_response_length_limit(&self) -> (v: u8)
        ensures
            v == self.spec_query_response_length_limit(),
            v == bits_value(self.raw(), 0, 7),
    {
        read_u8_bits(self.bytes.as_slice(), 0, 7)
    }

    /// The "PAME-BI" subfield (bit 7).
    pub open spec fn spec_pame_bi(&self) -> bool {
        bit_set(self.raw(), 7)
    }

    /// The "PAME-BI" subfield (bit 7).
    pub fn pame_bi(&self) -> (b: bool)
        ensures
            b == self.spec_pame_bi(),
    {
        read_bit(self.bytes.as_slice(), 7)
    }

    /// Whether `f` is the displayable field of this value: one subfield per bit field.
    pub open spec fn field_shows(&self, f: Field) -> bool {
        &&& f.title@ == "Query Response Info"@
        &&& f.value@ == ""@
        &&& f.byte == Some(self.raw()[0])
        &&& f.bytes is None
        &&& f.bits is None
        &&& f.units is None
        &&& f.subfields@.len() == 2
        &&& bit_field_is(f.subfields@[0], "Query Response Length Limit"@, decimal(self.spec_query_response_length_limit() as nat), None, self.raw(), 0, 7)
        &&& bit_field_is(f.subfields@[1], "PAME-BI"@, bool_text(self.spec_pame_bi()), None, self.raw(), 7, 1)
    }

    /// The value as a displayable field with one subfield per bit field.
    pub fn to_field(&self) -> (f: Field)
        ensures
            self.field_shows(f),
    {
        let bytes = self.bytes.as_slice();
        let mut subfields: Vec<Field> = Vec::new();
        subfields.push(bit_field("Query Response Length Limit", u64_text(self.query_response_length_limit() as u64), bytes, 0, 7));
        subfields.push(bit_field("PAME-BI", bool_string(self.pame_bi()), bytes, 7, 1));
        Field::new("Query Response Info", "").with_byte(self.bytes[0]).with_subfields(subfields)
    }

}

/// The advertisement protocol of a tuple: one of the defined protocols, a vendor specific
/// protocol (tag 221, then an ID, a length and that many bytes), or a reserved code.
#[derive(Debug, Clone, PartialEq, Eq, Hash)]
pub enum AdvertisementProtocolId {
    AccessNetworkQueryProtocol,
    MisInformationService,
    MisCommandAndEventServicesCapabilityDiscovery,
    EmergencyAlertSystem,
    RegisteredLocationQueryProtocol,
    VendorSpecific { id: u8, len: u8, vendor_specific: VendorSpecific },
    Reserved(u8),
}

/// The length of the advertisement protocol ID at the front of `b`, if it is complete: one
/// byte, or for the vendor specific tag 221 three bytes and the data its length byte counts.
pub open spec fn spec_id_len(b: Seq<u8>) -> Option<nat> {
    if b.len() < 1 {
        None
    } else if b[0] == 221 {
        if b.len() >= 3 && b.len() >= 3 + b[2] {
            Some((3 + b[2]) as nat)
        } else {
            None
        }
    } else {
        Some(1)
    }
}

impl AdvertisementProtocolId {
    /// The encoded bytes.
    pub open spec fn spec_raw(&self) -> Seq<u8> {
        match self {
            AdvertisementProtocolId::AccessNetworkQueryProtocol => seq![0u8],
            AdvertisementProtocolId::MisInformationService => seq![1u8],
            AdvertisementProtocolId::MisCommandAndEventServicesCapabilityDiscovery => seq![2u8],
            AdvertisementProtocolId::EmergencyAlertSystem => seq![3u8],
            AdvertisementProtocolId::RegisteredLocationQueryProtocol => seq![4u8],
            AdvertisementProtocolId::VendorSpecific { id, len, vendor_specific } => seq![221u8, *id, *len]
                + vendor_specific.raw(),
            AdvertisementProtocolId::Reserved(x) => seq![*x],
        }
    }

    /// Whether the value is the one its encoding decodes to: a reserved code is none of the
    /// defined ones, and a vendor specific length counts the data.
    pub open spec fn spec_canonical(&self) -> bool {
        match self {
            AdvertisementProtocolId::VendorSpecific { id, len, vendor_specific } => vendor_specific.raw().len() == *len,
            AdvertisementProtocolId::Reserved(x) => !(*x <= 4 || *x == 221),
            _ => true,
        }
    }

    /// The name of the protocol.
    pub open spec fn spec_text(&self) -> Seq<char> {
        match self {
            AdvertisementProtocolId::AccessNetworkQueryProtocol => "Access Network Query Protocol (ANQP)"@,
            AdvertisementProtocolId::MisInformationService => "MIS Information Service"@,
            AdvertisementProtocolId::MisCommandAndEventServicesCapabilityDiscovery => "MIS Command and Event Services Capability Discovery"@,
            AdvertisementProtocolId::EmergencyAlertSystem => "Emergency Alert System (EAS)"@,
            AdvertisementProtocolId::RegisteredLocationQueryProtocol => "Registered Location Query Protocol (RLQP)"@,
            AdvertisementProtocolId::VendorSpecific { .. } => "Vendor Specific"@,
            AdvertisementProtocolId::Reserved(_) => "Reserved"@,
        }
    }

    /// Decodes the advertisement protocol ID at the front of `bytes`, with the number of bytes
    /// it takes; `None` when it is cut short.
    pub fn from_bytes(bytes: &[u8]) -> (r: Option<(AdvertisementProtocolId, usize)>)
        ensures
            r is Some <==> spec_id_len(bytes@) is Some,
            r matches Some(p) ==> spec_id_len(bytes@) == Some(p.1 as nat) && p.0.spec_raw() == bytes@.subrange(0, p.1 as int)
                && p.0.spec_canonical(),
    {
        if bytes.len() < 1 {
            return None;
        }
        let code = bytes[0];
        let v = match code {
            0 => AdvertisementProtocolId::AccessNetworkQueryProtocol,
            1 => AdvertisementProtocolId::MisInformationService,
            2 => AdvertisementProtocolId::MisCommandAndEventServicesCapabilityDiscovery,
            3 => AdvertisementProtocolId::EmergencyAlertSystem,
            4 => AdvertisementProtocolId::RegisteredLocationQueryProtocol,
            221 => {
                if bytes.len() < 3 || bytes.len() - 3 < bytes[2] as usize {
                    return None;
                }
                let n = 3 + bytes[2] as usize;
                let data = vstd::slice::slice_subrange(bytes, 3, n);
                let v = AdvertisementProtocolId::VendorSpecific {
                    id: bytes[1],
                    len: bytes[2],
                    vendor_specific: VendorSpecific::from_bytes(data),
                };
                proof {
                    assert(v.spec_raw() =~= bytes@.subrange(0, n as int));
                }
                return Some((v, n));
            },
            _ => AdvertisementProtocolId::Reserved(code),
        };
        proof {
            assert(v.spec_raw() =~= bytes@.subrange(0, 1));
        }
        Some((v, 1))
    }

    /// The encoded bytes.
    pub fn to_bytes(&self) -> (v: Vec<u8>)
        ensures
            v@ == self.spec_raw(),
    {
        let mut v: Vec<u8> = Vec::new();
        match self {
            AdvertisementProtocolId::AccessNetworkQueryProtocol => v.push(0),
            AdvertisementProtocolId::MisInformationService => v.push(1),
            AdvertisementProtocolId::MisCommandAndEventServicesCapabilityDiscovery => v.push(2),
            AdvertisementProtocolId::EmergencyAlertSystem => v.push(3),
            AdvertisementProtocolId::RegisteredLocationQueryProtocol => v.push(4),
            AdvertisementProtocolId::VendorSpecific { id, len, vendor_specific } => {
                v.push(221);
                v.push(*id);
                v.push(*len);
                let data = vendor_specific.as_bytes();
                let mut i: usize = 0;
                while i < data.len()
                    invariant
                        i <= data@.len(),
                        v@ == seq![221u8, *id, *len] + data@.subrange(0, i as int),
                    decreases data@.len() - i,
                {
                    v.push(data[i]);
                    i = i + 1;
                    proof {
                        assert(v@ =~= seq![221u8, *id, *len] + data@.subrange(0, i as int));
                    }
                }
                proof {
                    assert(data@.subrange(0, data@.len() as int) =~= data@);
                }
            },
            AdvertisementProtocolId::Reserved(x) => v.push(*x),
        }
        proof {
            assert(v@ =~= self.spec_raw());
        }
        v
    }

    /// The name of the protocol.
    pub fn to_string(&self) -> (s: String)
        ensures
            s@ == self.spec_text(),
    {
        match self {
            AdvertisementProtocolId::AccessNetworkQueryProtocol => String::from_str("Access Network Query Protocol (ANQP)"),
            AdvertisementProtocolId::MisInformationService => String::from_str("MIS Information Service"),
            AdvertisementProtocolId::MisCommandAndEventServicesCapabilityDiscovery => String::from_str("MIS Command and Event Services Capability Discovery"),
            AdvertisementProtocolId::EmergencyAlertSystem => String::from_str("Emergency Alert System (EAS)"),
            AdvertisementProtocolId::RegisteredLocationQueryProtocol => String::from_str("Registered Location Query Protocol (RLQP)"),
            AdvertisementProtocolId::VendorSpecific { .. } => String::from_str("Vendor Specific"),
            AdvertisementProtocolId::Reserved(_) => String::from_str("Reserved"),
        }
    }

    /// Whether `f` is the displayable field of the ID: its name with its code in parentheses
    /// and its byte; for a vendor specific protocol its ID in parentheses and its bytes, with
    /// the ID, the length and the vendor specific fields as subfields.
    pub open spec fn spec_field_shows(&self, f: Field) -> bool {
        &&& f.title@ == "Advertisement Protocol ID"@
        &&& f.value@ == self.spec_text()
        &&& f.bits is None
        &&& match self {
            AdvertisementProtocolId::VendorSpecific { id, len, vendor_specific } => {
                &&& f.units matches Some(u) && u@ == paren_decimal(*id as nat)
                &&& f.bytes matches Some(b) && b@ == self.spec_raw()
                &&& f.byte is None
                &&& f.subfields@.len() >= 2
                &&& byte_field_is(f.subfields@[0], "ID"@, decimal(*id as nat), None, *id)
                &&& byte_field_is(f.subfields@[1], "Length"@, decimal(*len as nat), Some("bytes"@), *len)
                &&& vendor_specific.spec_fields_shown(f.subfields@.subrange(2, f.subfields@.len() as int))
            },
            _ => {
                &&& f.units matches Some(u) && u@ == paren_decimal(self.spec_raw()[0] as nat)
                &&& f.byte == Some(self.spec_raw()[0])
                &&& f.bytes is None
                &&& f.subfields@.len() == 0
            },
        }
    }

    /// The ID as a displayable field; see `spec_field_shows`.
    pub fn to_field(&self) -> (f: Field)
        ensures
            self.spec_field_shows(f),
    {
        match self {
            AdvertisementProtocolId::VendorSpecific { id, len, vendor_specific } => {
                let mut subs: Vec<Field> = Vec::new();
                subs.push(byte_field("ID", u64_text(*id as u64), *id));
                subs.push(byte_field_with_units("Length", u64_text(*len as u64), "bytes", *len));
                let mut vf = vendor_specific.fields();
                let ghost vfs = vf@;
                subs.append(&mut vf);
                proof {
                    assert(subs@.subrange(2, subs@.len() as int) =~= vfs);
                }
                Field::text("Advertisement Protocol ID", self.to_string()).with_units_string(paren_text(*id as u64))
                    .with_bytes(self.to_bytes()).with_subfields(subs)
            },
            _ => {
                let b = self.to_bytes();
                let code = b[0];
                Field::text("Advertisement Protocol ID", self.to_string()).with_units_string(paren_text(code as u64))
                    .with_byte(code)
            },
        }
    }
}

/// An advertisement protocol tuple: the query response info and the protocol.
#[derive(Debug, Clone, PartialEq, Eq, Hash)]
pub struct AdvertisementProtocolTuple {
    pub query_response_info: QueryResponseInfo,
    pub advertisement_protocol_id: AdvertisementProtocolId,
}

impl AdvertisementProtocolTuple {
    /// The encoded bytes.
    pub open spec fn spec_raw(&self) -> Seq<u8> {
        self.query_response_info.raw() + self.advertisement_protocol_id.spec_raw()
    }

    /// The encoded bytes.
    pub fn to_bytes(&self) -> (v: Vec<u8>)
        ensures
            v@ == self.spec_raw(),
    {
        let mut v = self.query_response_info.to_bytes();
        let mut id = self.advertisement_protocol_id.to_bytes();
        v.append(&mut id);
        v
    }

    /// Whether `f` is the displayable field of the tuple: the protocol's name and the tuple's
    /// bytes, with the query response info and the protocol ID as subfields.
    pub open spec fn spec_field_shows(&self, f: Field) -> bool {
        &&& f.title@ == "Advertisement Protocol Tuple"@
        &&& f.value@ == self.advertisement_protocol_id.spec_text()
        &&& f.bytes matches Some(b) && b@ == self.spec_raw()
        &&& f.byte is None
        &&& f.bits is None
        &&& f.units is None
        &&& f.subfields@.len() == 2
        &&& self.query_response_info.field_shows(f.subfields@[0])
        &&& self.advertisement_protocol_id.spec_field_shows(f.subfields@[1])
    }

    /// The tuple as a displayable field; see `spec_field_shows`.
    pub fn to_field(&self) -> (f: Field)
        ensures
            self.spec_field_shows(f),
    {
        let mut subs: Vec<Field> = Vec::new();
        subs.push(self.query_response_info.to_field());
        subs.push(self.advertisement_protocol_id.to_field());
        Field::text("Advertisement Protocol Tuple", self.advertisement_protocol_id.to_string()).with_bytes(
            self.to_bytes(),
        ).with_subfields(subs)
    }
}

/// The encodings of the tuples that make up an element body, in order, if the body splits
/// into complete tuples.
pub open spec fn spec_tuple_split(b: Seq<u8>) -> Option<Seq<Seq<u8>>>
    decreases b.len(),
{
    if b.len() == 0 {
        Some(seq![])
    } else {
        match spec_id_len(b.subrange(1, b.len() as int)) {
            Some(n) => if 1 + n <= b.len() {
                match spec_tuple_split(b.subrange(1 + n as int, b.len() as int)) {
                    Some(rest) => Some(seq![b.subrange(0, 1 + n as int)] + rest),
                    None => None,
                }
            } else {
                None
            },
            None => None,
        }
    }
}

/// Pieces of bytes, joined in order.
pub open spec fn joined_bytes(parts: Seq<Seq<u8>>) -> Seq<u8>
    decreases parts.len(),
{
    if parts.len() == 0 {
        seq![]
    } else {
        parts[0] + joined_bytes(parts.drop_first())
    }
}

/// The pieces a body splits into join back into the body.
pub proof fn lemma_tuple_split_joined(b: Seq<u8>)
    ensures
        spec_tuple_split(b) matches Some(parts) ==> joined_bytes(parts) == b,
    decreases b.len(),
{
    if b.len() > 0 {
        if let Some(n) = spec_id_len(b.subrange(1, b.len() as int)) {
            if 1 + n <= b.len() {
                let tail = b.subrange(1 + n as int, b.len() as int);
                lemma_tuple_split_joined(tail);
                if let Some(rest) = spec_tuple_split(tail) {
                    let parts = seq![b.subrange(0, 1 + n as int)] + rest;
                    assert(parts.drop_first() =~= rest);
                    assert(b.subrange(0, 1 + n as int) + tail =~= b);
                }
            }
        }
    }
}

/// The encoded bytes of tuples, one after the other.
pub open spec fn tuples_raw(list: Seq<AdvertisementProtocolTuple>) -> Seq<u8>
    decreases list.len(),
{
    if list.len() == 0 {
        seq![]
    } else {
        list[0].spec_raw() + tuples_raw(list.drop_first())
    }
}

/// Tuples whose encodings are the given pieces encode to the pieces joined.
pub proof fn lemma_tuples_raw_joined(list: Seq<AdvertisementProtocolTuple>, parts: Seq<Seq<u8>>)
    requires
        list.len() == parts.len(),
        forall|i: int| 0 <= i < list.len() ==> (#[trigger] list[i]).spec_raw() == parts[i],
    ensures
        tuples_raw(list) == joined_bytes(parts),
    decreases list.len(),
{
    if list.len() > 0 {
        let l2 = list.drop_first();
        let p2 = parts.drop_first();
        assert forall|i: int| 0 <= i < l2.len() implies (#[trigger] l2[i]).spec_raw() == p2[i] by {
            assert(l2[i] == list[i + 1]);
        }
        lemma_tuples_raw_joined(l2, p2);
    }
}

/// An Advertisement Protocol element: the list of advertisement protocol tuples.
#[derive(Debug, Clone, PartialEq, Eq, Hash)]
pub struct AdvertisementProtocol {
    pub advertisement_protocol_tuple_list: Vec<AdvertisementProtocolTuple>,
}

impl AdvertisementProtocol {
    pub const NAME: &'static str = "Advertisement Protocol";
    pub const ID: u8 = 108;
    pub const ID_EXT: Option<u8> = None;

    /// Whether the tuples are those the body splits into, each the value its encoding decodes
    /// to.
    pub open spec fn spec_parsed_from(&self, b: Seq<u8>) -> bool {
        let list = self.advertisement_protocol_tuple_list@;
        &&& spec_tuple_split(b) is Some
        &&& list.len() == spec_tuple_split(b)->0.len()
        &&& forall|i: int| 0 <= i < list.len() ==> (#[trigger] list[i]).spec_raw() == spec_tuple_split(b)->0[i]
            && list[i].advertisement_protocol_id.spec_canonical()
    }

    /// The encoded body: the tuples' bytes, one after the other.
    pub open spec fn spec_raw(&self) -> Seq<u8> {
        tuples_raw(self.advertisement_protocol_tuple_list@)
    }

    /// Writing an element read from a body gives back that body.
    pub proof fn lemma_parsed_then_written(&self, b: Seq<u8>)
        requires
            self.spec_parsed_from(b),
        ensures
            self.spec_raw() == b,
    {
        lemma_tuple_split_joined(b);
        lemma_tuples_raw_joined(self.advertisement_protocol_tuple_list@, spec_tuple_split(b)->0);
    }

    /// The encoded body: the tuples' bytes, one after the other.
    pub fn to_bytes(&self) -> (v: Vec<u8>)
        ensures
            v@ == self.spec_raw(),
    {
        let list = &self.advertisement_protocol_tuple_list;
        let mut v: Vec<u8> = Vec::new();
        let mut i: usize = 0;
        proof {
            assert(list@.subrange(0, list@.len() as int) =~= list@);
        }
        while i < list.len()
            invariant
                i <= list@.len(),
                v@ + tuples_raw(list@.subrange(i as int, list@.len() as int)) == tuples_raw(list@),
            decreases list@.len() - i,
        {
            let ghost before = v@;
            let mut b = list[i].to_bytes();
            v.append(&mut b);
            proof {
                let rest = list@.subrange(i as int, list@.len() as int);
                assert(rest.drop_first() =~= list@.subrange(i + 1, list@.len() as int));
                assert(rest[0] == list@[i as int]);
                assert(v@ + tuples_raw(list@.subrange(i + 1, list@.len() as int)) =~= before + tuples_raw(rest));
            }
            i = i + 1;
        }
        proof {
            assert(v@ + tuples_raw(list@.subrange(list@.len() as int, list@.len() as int)) =~= v@);
        }
        v
    }

    /// Parses the element body into tuples; `None` when the last tuple is cut short.
    pub fn from_bytes(bytes: &[u8]) -> (r: Option<AdvertisementProtocol>)
        ensures
            r is Some <==> spec_tuple_split(bytes@) is Some,
            r matches Some(a) ==> a.spec_parsed_from(bytes@),
    {
        let len = bytes.len();
        let mut list: Vec<AdvertisementProtocolTuple> = Vec::new();
        let mut pos: usize = 0;
        let ghost mut done: Seq<Seq<u8>> = seq![];
        proof {
            assert(bytes@.subrange(0, len as int) =~= bytes@);
            assert(done + spec_tuple_split(bytes@)->0 =~= spec_tuple_split(bytes@)->0);
        }
        while pos < len
            invariant
                len == bytes@.len(),
                pos <= len,
                list@.len() == done.len(),
                forall|i: int| 0 <= i < list@.len() ==> (#[trigger] list@[i]).spec_raw() == done[i]
                    && list@[i].advertisement_protocol_id.spec_canonical(),
                spec_tuple_split(bytes@) is Some <==> spec_tuple_split(bytes@.subrange(pos as int, len as int)) is Some,
                spec_tuple_split(bytes@) is Some ==> spec_tuple_split(bytes@)->0 == done + spec_tuple_split(
                    bytes@.subrange(pos as int, len as int),
                )->0,
            decreases len - pos,
        {
            let ghost rest = bytes@.subrange(pos as int, len as int);
            let tail = vstd::slice::slice_subrange(bytes, pos, len);
            let qri = match QueryResponseInfo::from_bytes(tail) {
                Some(q) => q,
                None => return None,
            };
            let id_bytes = vstd::slice::slice_subrange(tail, 1, tail.len());
            let (id, n) = match AdvertisementProtocolId::from_bytes(id_bytes) {
                Some(p) => p,
                None => {
                    proof {
                        assert(id_bytes@ =~= rest.subrange(1, rest.len() as int));
                    }
                    return None;
                },
            };
            proof {
                assert(id_bytes@ =~= rest.subrange(1, rest.len() as int));
                assert(rest.subrange(1 + n, rest.len() as int) =~= bytes@.subrange(pos + 1 + n, len as int));
                assert(rest.subrange(0, 1 + n) =~= qri.raw() + id.spec_raw());
            }
            let t = AdvertisementProtocolTuple { query_response_info: qri, advertisement_protocol_id: id };
            list.push(t);
            proof {
                let old_done = done;
                done = done.push(rest.subrange(0, 1 + n));
                if spec_tuple_split(bytes@) is Some {
                    assert(spec_tuple_split(rest)->0 =~= seq![rest.subrange(0, 1 + n)] + spec_tuple_split(
                        bytes@.subrange(pos + 1 + n, len as int),
                    )->0);
                    assert(done + spec_tuple_split(bytes@.subrange(pos + 1 + n, len as int))->0 =~= old_done
                        + spec_tuple_split(rest)->0);
                }
            }
            pos = pos + 1 + n;
        }
        proof {
            assert(bytes@.subrange(len as int, len as int) =~= Seq::<u8>::empty());
            assert(done + Seq::<Seq<u8>>::empty() =~= done);
        }
        Some(AdvertisementProtocol { advertisement_protocol_tuple_list: list })
    }

    /// The one-line summary: the protocol of the first tuple, or nothing without one.
    pub open spec fn spec_summary(&self) -> Seq<char> {
        if self.advertisement_protocol_tuple_list@.len() > 0 {
            self.advertisement_protocol_tuple_list@[0].advertisement_protocol_id.spec_text()
        } else {
            ""@
        }
    }

    /// The one-line summary, for example `Access Network Query Protocol (ANQP)`.
    pub fn summary(&self) -> (s: String)
        ensures
            s@ == self.spec_summary(),
    {
        if self.advertisement_protocol_tuple_list.len() > 0 {
            self.advertisement_protocol_tuple_list[0].advertisement_protocol_id.to_string()
        } else {
            String::from_str("")
        }
    }

    /// The element's fields: one per tuple.
    pub fn fields(&self) -> (fs: Vec<Field>)
        ensures
            fs@.len() == self.advertisement_protocol_tuple_list@.len(),
            forall|i: int| 0 <= i < fs@.len() ==> self.advertisement_protocol_tuple_list@[i].spec_field_shows(#[trigger] fs@[i]),
    {
        let mut fs: Vec<Field> = Vec::new();
        let mut i: usize = 0;
        while i < self.advertisement_protocol_tuple_list.len()
            invariant
                i <= self.advertisement_protocol_tuple_list@.len(),
                fs@.len() == i,
                forall|j: int| 0 <= j < i ==> self.advertisement_protocol_tuple_list@[j].spec_field_shows(#[trigger] fs@[j]),
            decreases self.advertisement_protocol_tuple_list@.len() - i,
        {
            fs.push(self.advertisement_protocol_tuple_list[i].to_field());
            i = i + 1;
        }
        fs
    }
}

} // verus!
