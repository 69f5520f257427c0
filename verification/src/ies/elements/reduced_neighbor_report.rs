//! The Reduced Neighbor Report element: the access points nearby and when they beacon.
use vstd::prelude::*;

use crate::bits::{
    bit_set, bits_value, lemma_bits_value_bound, lemma_two_pow_64, lemma_two_pow_monotone, read_bit,
    read_bits, read_u16_bits, read_u8_bits,
};
use crate::ies::field::{
    bit_field, bit_field_is, bit_field_with_units, reserved_bits, reserved_field_is, BitRange,
    Field,
};
use crate::ies::field::{byte_field, byte_field_is, bytes_field, bytes_field_is};
use crate::text::{hex_joined, hex_joined_string, bool_string, bool_text, decimal, owned, paren_decimal, paren_text, u64_text};

verus! {

/// The TBTT Information Header of a Neighbor AP Information field.
#[derive(Debug, Clone, Copy, PartialEq, Eq, Hash)]
pub struct TbttInformationHeader {
    bytes: [u8; 2],
}

impl TbttInformationHeader {
    /// The encoded length in bytes.
    pub const LENGTH: usize = 2;

    /// Whether `bytes` (exactly 2 of them) encode a valid value.
    pub open spec fn spec_valid(bytes: Seq<u8>) -> bool {
        bytes.len() == 2
    }

    /// The encoded bytes.
    pub closed spec fn raw(&self) -> Seq<u8> {
        self.bytes@
    }

    /// Every value is encoded in exactly 2 bytes.
    pub proof fn lemma_raw_len(&self)
        ensures
            self.raw().len() == 2,
    {
    }

    /// Decodes the value from the first 2 bytes of `bytes`. `None` when there are fewer
    /// bytes or they do not encode a valid value.
    pub fn from_bytes(bytes: &[u8]) -> (r: Option<TbttInformationHeader>)
        ensures
            r is Some <==> bytes@.len() >= 2 && Self::spec_valid(bytes@.subrange(0, 2)),
            r matches Some(v) ==> v.raw() == bytes@.subrange(0, 2),
    {
        if bytes.len() < 2 {
            return None;
        }
        let a: [u8; 2] = [bytes[0], bytes[1]];
        proof {
            assert(a@ =~= bytes@.subrange(0, 2));
        }
        Some(TbttInformationHeader { bytes: a })
    }

    /// The encoded bytes.
    pub fn to_bytes(&self) -> (v: Vec<u8>)
        ensures
            v@ == self.raw(),
    {
        vstd::slice::slice_to_vec(self.bytes.as_slice())
    }

    /// The "TBTT Information Field Type" subfield (bits 0-1).
    pub open spec fn spec_tbtt_information_field_type(&self) -> u8 {
        bits_value(self.raw(), 0, 2) as u8
    }

    /// The "TBTT Information Field Type" subfield (bits 0-1).
    pub fn tbtt_information_field_type(&self) -> (v: u8)
        ensures
            v == self.spec_tbtt_information_field_type(),
            v == bits_value(self.raw(), 0, 2),
    {
        read_u8_bits(self.bytes.as_slice(), 0, 2)
    }

    /// The "Filtered Neighbor AP" subfield (bit 2).
    pub open spec fn spec_filtered_neighbor_ap(&self) -> bool {
        bit_set(self.raw(), 2)
    }

    /// The "Filtered Neighbor AP" subfield (bit 2).
    pub fn filtered_neighbor_ap(&self) -> (b: bool)
        ensures
            b == self.spec_filtered_neighbor_ap(),
    {
        read_bit(self.bytes.as_slice(), 2)
    }

    /// The "TBTT Information Count" subfield (bits 4-7).
    pub open spec fn spec_tbtt_information_count(&self) -> u8 {
        bits_value(self.raw(), 4, 4) as u8
    }

    /// The "TBTT Information Count" subfield (bits 4-7).
    pub fn tbtt_information_count(&self) -> (v: u8)
        ensures
            v == self.spec_tbtt_information_count(),
            v == bits_value(self.raw(), 4, 4),
    {
        read_u8_bits(self.bytes.as_slice(), 4, 4)
    }

    /// The "TBTT Information Length" subfield (bits 8-15).
    pub open spec fn spec_tbtt_information_length(&self) -> u8 {
        bits_value(self.raw(), 8, 8) as u8
    }

    /// The "TBTT Information Length" subfield (bits 8-15).
    pub fn tbtt_information_length(&self) -> (v: u8)
        ensures
            v == self.spec_tbtt_information_length(),
            v == bits_value(self.raw(), 8, 8),
    {
        read_u8_bits(self.bytes.as_slice(), 8, 8)
    }

    /// Whether `f` is the displayable field of this value: one subfield per bit field.
    pub open spec fn field_shows(&self, f: Field) -> bool {
        &&& f.title@ == "TBTT Information Header"@
        &&& f.value@ == ""@
        &&& f.bytes matches Some(b) && b@ == self.raw()
        &&& f.byte is None
        &&& f.bits is None
        &&& f.units is None
        &&& f.subfields@.len() == 5
        &&& bit_field_is(f.subfields@[0], "TBTT Information Field Type"@, decimal(self.spec_tbtt_information_field_type() as nat), None, self.raw(), 0, 2)
        &&& bit_field_is(f.subfields@[1], "Filtered Neighbor AP"@, bool_text(self.spec_filtered_neighbor_ap()), None, self.raw(), 2, 1)
        &&& reserved_field_is(f.subfields@[2], self.raw(), 3, 1)
        &&& bit_field_is(f.subfields@[3], "TBTT Information Count"@, decimal(self.spec_tbtt_information_count() as nat), None, self.raw(), 4, 4)
        &&& bit_field_is(f.subfields@[4], "TBTT Information Length"@, decimal(self.spec_tbtt_information_length() as nat), None, self.raw(), 8, 8)
    }

    /// The value as a displayable field with one subfield per bit field.
    pub fn to_field(&self) -> (f: Field)
        ensures
            self.field_shows(f),
    {
        let bytes = self.bytes.as_slice();
        let mut subfields: Vec<Field> = Vec::new();
        subfields.push(bit_field("TBTT Information Field Type", u64_text(self.tbtt_information_field_type() as u64), bytes, 0, 2));
        subfields.push(bit_field("Filtered Neighbor AP", bool_string(self.filtered_neighbor_ap()), bytes, 2, 1));
        subfields.push(reserved_bits(bytes, 3, 1));
        subfields.push(bit_field("TBTT Information Count", u64_text(self.tbtt_information_count() as u64), bytes, 4, 4));
        subfields.push(bit_field("TBTT Information Length", u64_text(self.tbtt_information_length() as u64), bytes, 8, 8));
        Field::new("TBTT Information Header", "").with_bytes(self.to_bytes()).with_subfields(subfields)
    }

}

/// The BSS Parameters subfield of a TBTT Information field.
#[derive(Debug, Clone, Copy, PartialEq, Eq, Hash)]
pub struct BssParameters {
    bytes: [u8; 1],
}

impl BssParameters {
    /// The encoded length in bytes.
    pub const LENGTH: usize = 1;

    /// Whether `bytes` (exactly 1 of them) encode a valid value.
    pub open spec fn spec_valid(bytes: Seq<u8>) -> bool {
        bytes.len() == 1
    }

    /// The encoded bytes.
    pub closed spec fn raw(&self) -> Seq<u8> {
        self.bytes@
    }

    /// Every value is encoded in exactly 1 bytes.
    pub proof fn lemma_raw_len(&self)
        ensures
            self.raw().len() == 1,
    {
    }

    /// Decodes the value from the first 1 bytes of `bytes`. `None` when there are fewer
    /// bytes or they do not encode a valid value.
    pub fn from_bytes(bytes: &[u8]) -> (r: Option<BssParameters>)
        ensures
            r is Some <==> bytes@.len() >= 1 && Self::spec_valid(bytes@.subrange(0, 1)),
            r matches Some(v) ==> v.raw() == bytes@.subrange(0, 1),
    {
        if bytes.len() < 1 {
            return None;
        }
        let a: [u8; 1] = [bytes[0]];
        proof {
            assert(a@ =~= bytes@.subrange(0, 1));
        }
        Some(BssParameters { bytes: a })
    }

    /// The encoded bytes.
    pub fn to_bytes(&self) -> (v: Vec<u8>)
        ensures
            v@ == self.raw(),
    {
        vstd::slice::slice_to_vec(self.bytes.as_slice())
    }

    /// The "OCT Recommended" subfield (bit 0).
    pub open spec fn spec_oct_recommended(&self) -> bool {
        bit_set(self.raw(), 0)
    }

    /// The "OCT Recommended" subfield (bit 0).
    pub fn oct_recommended(&self) -> (b: bool)
        ensures
            b == self.spec_oct_recommended(),
    {
        read_bit(self.bytes.as_slice(), 0)
    }

    /// The "Same SSID" subfield (bit 1).
    pub open spec fn spec_same_ssid(&self) -> bool {
        bit_set(self.raw(), 1)
    }

    /// The "Same SSID" subfield (bit 1).
    pub fn same_ssid(&self) -> (b: bool)
        ensures
            b == self.spec_same_ssid(),
    {
        read_bit(self.bytes.as_slice(), 1)
    }

    /// The "Multiple BSSID" subfield (bit 2).
    pub open spec fn spec_multiple_bssid(&self) -> bool {
        bit_set(self.raw(), 2)
    }

    /// The "Multiple BSSID" subfield (bit 2).
    pub fn multiple_bssid(&self) -> (b: bool)
        ensures
            b == self.spec_multiple_bssid(),
    {
        read_bit(self.bytes.as_slice(), 2)
    }

    /// The "Transmitted BSSID" subfield (bit 3).
    pub open spec fn spec_transmitted_bssid(&self) -> bool {
        bit_set(self.raw(), 3)
    }

    /// The "Transmitted BSSID" subfield (bit 3).
    pub fn transmitted_bssid(&self) -> (b: bool)
        ensures
            b == self.spec_transmitted_bssid(),
    {
        read_bit(self.bytes.as_slice(), 3)
    }

    /// The "Member of ESS With 2.4/5 GHz Co-Located AP" subfield (bit 4).
    pub open spec fn spec_member_of_ess_with_2_point_4_or_5_ghz_co_located_ap(&self) -> bool {
        bit_set(self.raw(), 4)
    }

    /// The "Member of ESS With 2.4/5 GHz Co-Located AP" subfield (bit 4).
    pub fn member_of_ess_with_2_point_4_or_5_ghz_co_located_ap(&self) -> (b: bool)
        ensures
            b == self.spec_member_of_ess_with_2_point_4_or_5_ghz_co_located_ap(),
    {
        read_bit(self.bytes.as_slice(), 4)
    }

    /// The "Unsolicited Probe Responses Active" subfield (bit 5).
    pub open spec fn spec_unsolicited_probe_responses_active(&self) -> bool {
        bit_set(self.raw(), 5)
    }

    /// The "Unsolicited Probe Responses Active" subfield (bit 5).
    pub fn unsolicited_probe_responses_active(&self) -> (b: bool)
        ensures
            b == self.spec_unsolicited_probe_responses_active(),
    {
        read_bit(self.bytes.as_slice(), 5)
    }

    /// The "Co-Located AP" subfield (bit 6).
    pub open spec fn spec_co_located_ap(&self) -> bool {
        bit_set(self.raw(), 6)
    }

    /// The "Co-Located AP" subfield (bit 6).
    pub fn co_located_ap(&self) -> (b: bool)
        ensures
            b == self.spec_co_located_ap(),
    {
        read_bit(self.bytes.as_slice(), 6)
    }

    /// Whether `f` is the displayable field of this value: one subfield per bit field.
    pub open spec fn field_shows(&self, f: Field) -> bool {
        &&& f.title@ == "BSS Parameters"@
        &&& f.value@ == ""@
        &&& f.byte == Some(self.raw()[0])
        &&& f.bytes is None
        &&& f.bits is None
        &&& f.units is None
        &&& f.subfields@.len() == 8
        &&& bit_field_is(f.subfields@[0], "OCT Recommended"@, bool_text(self.spec_oct_recommended()), None, self.raw(), 0, 1)
        &&& bit_field_is(f.subfields@[1], "Same SSID"@, bool_text(self.spec_same_ssid()), None, self.raw(), 1, 1)
        &&& bit_field_is(f.subfields@[2], "Multiple BSSID"@, bool_text(self.spec_multiple_bssid()), None, self.raw(), 2, 1)
        &&& bit_field_is(f.subfields@[3], "Transmitted BSSID"@, bool_text(self.spec_transmitted_bssid()), None, self.raw(), 3, 1)
        &&& bit_field_is(f.subfields@[4], "Member of ESS With 2.4/5 GHz Co-Located AP"@, bool_text(self.spec_member_of_ess_with_2_point_4_or_5_ghz_co_located_ap()), None, self.raw(), 4, 1)
        &&& bit_field_is(f.subfields@[5], "Unsolicited Probe Responses Active"@, bool_text(self.spec_unsolicited_probe_responses_active()), None, self.raw(), 5, 1)
        &&& bit_field_is(f.subfields@[6], "Co-Located AP"@, bool_text(self.spec_co_located_ap()), None, self.raw(), 6, 1)
        &&& reserved_field_is(f.subfields@[7], self.raw(), 7, 1)
    }

    /// The value as a displayable field with one subfield per bit field.
    pub fn to_field(&self) -> (f: Field)
        ensures
            self.field_shows(f),
    {
        let bytes = self.bytes.as_slice();
        let mut subfields: Vec<Field> = Vec::new();
        subfields.push(bit_field("OCT Recommended", bool_string(self.oct_recommended()), bytes, 0, 1));
        subfields.push(bit_field("Same SSID", bool_string(self.same_ssid()), bytes, 1, 1));
        subfields.push(bit_field("Multiple BSSID", bool_string(self.multiple_bssid()), bytes, 2, 1));
        subfields.push(bit_field("Transmitted BSSID", bool_string(self.transmitted_bssid()), bytes, 3, 1));
        subfields.push(bit_field("Member of ESS With 2.4/5 GHz Co-Located AP", bool_string(self.member_of_ess_with_2_point_4_or_5_ghz_co_located_ap()), bytes, 4, 1));
        subfields.push(bit_field("Unsolicited Probe Responses Active", bool_string(self.unsolicited_probe_responses_active()), bytes, 5, 1));
        subfields.push(bit_field("Co-Located AP", bool_string(self.co_located_ap()), bytes, 6, 1));
        subfields.push(reserved_bits(bytes, 7, 1));
        Field::new("BSS Parameters", "").with_byte(self.bytes[0]).with_subfields(subfields)
    }

}

/// The text of a 20 MHz PSD value in half dBm/MHz steps: the value divided by 2, with `.5`
/// for an odd value and no fractional part otherwise, for example `-0.5` or `10`.
pub open spec fn psd_text(p: i8) -> Seq<char> {
    let a: int = if p < 0 { -(p as int) } else { p as int };
    (if p < 0 { "-"@ } else { ""@ }) + decimal((a / 2) as nat) + (if a % 2 == 1 { ".5"@ } else { ""@ })
}

/// The text of a 20 MHz PSD value; see `psd_text`.
pub fn psd_string(p: i8) -> (s: String)
    ensures
        s@ == psd_text(p),
{
    let a: u8 = if p < 0 {
        let m: i16 = -(p as i16);
        assert(1 <= m <= 128);
        m as u8
    } else {
        p as u8
    };
    assert(a as int == (if p < 0 { -(p as int) } else { p as int }));
    proof {
        reveal_strlit("");
    }
    let mut s = if p < 0 { String::from_str("-") } else { String::from_str("") };
    let w = u64_text((a / 2) as u64);
    s.append(w.as_str());
    if a % 2 == 1 {
        s.append(".5");
    }
    s
}

/// The pretty-printed debug text of four bytes: each in decimal on its own indented line
/// within brackets.
pub open spec fn short_ssid_text(b: Seq<u8>) -> Seq<char> {
    "[\n    "@ + decimal(b[0] as nat) + ",\n    "@ + decimal(b[1] as nat) + ",\n    "@ + decimal(b[2] as nat)
        + ",\n    "@ + decimal(b[3] as nat) + ",\n]"@
}

/// The pretty-printed debug text of four bytes; see `short_ssid_text`.
pub fn short_ssid_string(b: &[u8; 4]) -> (s: String)
    ensures
        s@ == short_ssid_text(b@),
{
    let mut s = String::from_str("[\n    ");
    s.append(u64_text(b[0] as u64).as_str());
    s.append(",\n    ");
    s.append(u64_text(b[1] as u64).as_str());
    s.append(",\n    ");
    s.append(u64_text(b[2] as u64).as_str());
    s.append(",\n    ");
    s.append(u64_text(b[3] as u64).as_str());
    s.append(",\n]");
    s
}

/// Whether a TBTT Information field of length `l` holds a BSSID.
pub open spec fn has_bssid(l: u8) -> bool {
    l == 7 || l == 8 || l == 9 || l == 11 || l == 12 || l == 13 || l > 13
}

/// Whether a TBTT Information field of length `l` holds a short SSID.
pub open spec fn has_short_ssid(l: u8) -> bool {
    l == 5 || l == 11 || l == 12 || l == 13 || l > 13
}

/// Whether a TBTT Information field of length `l` holds BSS parameters.
pub open spec fn has_bss_parameters(l: u8) -> bool {
    l == 2 || l == 6 || l == 8 || l == 9 || l == 12 || l == 13 || l > 13
}

/// Whether a TBTT Information field of length `l` holds a 20 MHz PSD.
pub open spec fn has_psd(l: u8) -> bool {
    l == 9 || l == 13 || l > 13
}

/// The number of bytes a TBTT Information field of length `l` is read from: the TBTT offset,
/// then the parts its length announces, then the bytes beyond 13.
pub open spec fn tbtt_read_len(l: u8) -> nat {
    (1 + (if has_bssid(l) { 6int } else { 0 }) + (if has_short_ssid(l) { 4int } else { 0 }) + (if has_bss_parameters(l) { 1int } else { 0 })
        + (if has_psd(l) { 1int } else { 0 }) + (if l > 13 { l - 13 } else { 0 })) as nat
}

/// The number of bytes a TBTT Information field of length `l` is read from.
pub fn tbtt_len(l: u8) -> (n: usize)
    ensures
        n == tbtt_read_len(l),
        n <= 255,
{
    let mut n: usize = 1;
    if l == 7 || l == 8 || l == 9 || l == 11 || l == 12 || l == 13 || l > 13 {
        n = n + 6;
    }
    if l == 5 || l == 11 || l == 12 || l == 13 || l > 13 {
        n = n + 4;
    }
    if l == 2 || l == 6 || l == 8 || l == 9 || l == 12 || l == 13 || l > 13 {
        n = n + 1;
    }
    if l == 9 || l == 13 || l > 13 {
        n = n + 1;
    }
    if l > 13 {
        n = n + (l - 13) as usize;
    }
    n
}

/// The bytes an optional byte vector holds, none when absent.
pub open spec fn opt_vec_view(o: Option<Vec<u8>>) -> Seq<u8> {
    match o {
        Some(v) => v@,
        None => seq![],
    }
}

/// A TBTT Information field: the neighbor AP's TBTT offset and the parts its length announces.
#[derive(Debug, Clone, PartialEq, Eq, Hash)]
pub struct TbttInformation {
    pub neighbor_ap_tbtt_offset: u8,
    pub bssid: Option<[u8; 6]>,
    pub short_ssid: Option<[u8; 4]>,
    pub bss_parameters: Option<BssParameters>,
    pub twenty_mhz_psd: Option<i8>,
    pub reserved: Option<Vec<u8>>,
}

impl TbttInformation {
    /// The encoded bytes: the parts that are present, in order.
    pub open spec fn spec_raw(&self) -> Seq<u8> {
        seq![self.neighbor_ap_tbtt_offset] + (match self.bssid {
            Some(a) => a@,
            None => seq![],
        }) + (match self.short_ssid {
            Some(a) => a@,
            None => seq![],
        }) + (match self.bss_parameters {
            Some(p) => p.raw(),
            None => seq![],
        }) + (match self.twenty_mhz_psd {
            Some(x) => seq![x as u8],
            None => seq![],
        }) + opt_vec_view(self.reserved)
    }

    /// Whether the field is the one read from `b` with length `l`: the parts the length
    /// announces are present, and their bytes are the first bytes of `b`.
    pub open spec fn spec_parsed_from(&self, b: Seq<u8>, l: u8) -> bool {
        &&& (self.bssid is Some <==> has_bssid(l))
        &&& (self.short_ssid is Some <==> has_short_ssid(l))
        &&& (self.bss_parameters is Some <==> has_bss_parameters(l))
        &&& (self.twenty_mhz_psd is Some <==> has_psd(l))
        &&& (self.reserved is Some <==> l > 13)
        &&& b.len() >= tbtt_read_len(l)
        &&& self.spec_raw() == b.subrange(0, tbtt_read_len(l) as int)
    }

    /// Reads a field of length `l` from the front of `bytes`; `None` when they are too few.
    pub fn from_bytes(bytes: &[u8], l: u8) -> (r: Option<TbttInformation>)
        ensures
            r is Some <==> bytes@.len() >= tbtt_read_len(l),
            r matches Some(t) ==> t.spec_parsed_from(bytes@, l),
    {
        let n = tbtt_len(l);
        if bytes.len() < n {
            return None;
        }
        let offset = bytes[0];
        let mut pos: usize = 1;
        let bssid = if l == 7 || l == 8 || l == 9 || l == 11 || l == 12 || l == 13 || l > 13 {
            let a = [bytes[pos], bytes[pos + 1], bytes[pos + 2], bytes[pos + 3], bytes[pos + 4], bytes[pos + 5]];
            proof {
                assert(a@ =~= bytes@.subrange(pos as int, pos + 6));
            }
            pos = pos + 6;
            Some(a)
        } else {
            None
        };
        let ghost p1 = pos;
        let short_ssid = if l == 5 || l == 11 || l == 12 || l == 13 || l > 13 {
            let a = [bytes[pos], bytes[pos + 1], bytes[pos + 2], bytes[pos + 3]];
            proof {
                assert(a@ =~= bytes@.subrange(pos as int, pos + 4));
            }
            pos = pos + 4;
            Some(a)
        } else {
            None
        };
        let ghost p2 = pos;
        let bss_parameters = if l == 2 || l == 6 || l == 8 || l == 9 || l == 12 || l == 13 || l > 13 {
            let p = BssParameters::from_bytes(vstd::slice::slice_subrange(bytes, pos, pos + 1));
            pos = pos + 1;
            p
        } else {
            None
        };
        let ghost p3 = pos;
        let twenty_mhz_psd = if l == 9 || l == 13 || l > 13 {
            let x = bytes[pos];
            proof {
                assert((x as i8) as u8 == x) by (bit_vector);
            }
            pos = pos + 1;
            Some(x as i8)
        } else {
            None
        };
        let ghost p4 = pos;
        let reserved = if l > 13 {
            let v = vstd::slice::slice_to_vec(vstd::slice::slice_subrange(bytes, pos, n));
            Some(v)
        } else {
            None
        };
        let ghost reserved_view = opt_vec_view(reserved);
        let t = TbttInformation { neighbor_ap_tbtt_offset: offset, bssid, short_ssid, bss_parameters, twenty_mhz_psd, reserved };
        proof {
            assert(p4 <= n);
            let b = bytes@;
            let head = seq![offset];
            let s1 = match bssid { Some(a) => a@, None => Seq::<u8>::empty() };
            let s2 = match short_ssid { Some(a) => a@, None => Seq::<u8>::empty() };
            let s3 = match bss_parameters { Some(p) => p.raw(), None => Seq::<u8>::empty() };
            let s4 = match twenty_mhz_psd { Some(x) => seq![x as u8], None => Seq::<u8>::empty() };
            let s5 = reserved_view;
            assert(head =~= b.subrange(0, 1));
            assert(s1 =~= b.subrange(1, p1 as int));
            assert(s2 =~= b.subrange(p1 as int, p2 as int));
            if bss_parameters is Some {
                assert(b.subrange(p2 as int, p2 + 1).subrange(0, 1) =~= b.subrange(p2 as int, p3 as int));
            }
            assert(s3 =~= b.subrange(p2 as int, p3 as int));
            assert(s4 =~= b.subrange(p3 as int, p4 as int));
            assert(s5 =~= b.subrange(p4 as int, n as int));
            assert(t.spec_raw() =~= b.subrange(0, n as int));
        }
        Some(t)
    }

    /// The encoded bytes.
    pub fn to_bytes(&self) -> (v: Vec<u8>)
        ensures
            v@ == self.spec_raw(),
    {
        let mut v: Vec<u8> = Vec::new();
        v.push(self.neighbor_ap_tbtt_offset);
        if let Some(a) = &self.bssid {
            let mut p = vstd::slice::slice_to_vec(a.as_slice());
            v.append(&mut p);
        }
        if let Some(a) = &self.short_ssid {
            let mut p = vstd::slice::slice_to_vec(a.as_slice());
            v.append(&mut p);
        }
        if let Some(p) = &self.bss_parameters {
            let mut b = p.to_bytes();
            v.append(&mut b);
        }
        if let Some(x) = self.twenty_mhz_psd {
            v.push(x as u8);
        }
        if let Some(r) = &self.reserved {
            let mut b = r.clone();
            proof {
                assert(b@ == r@);
            }
            v.append(&mut b);
        }
        proof {
            assert(v@ =~= self.spec_raw());
        }
        v
    }

    /// The subfields of the displayed field: the TBTT offset, then each part that is present.
    pub open spec fn spec_subfields(&self, subs: Seq<Field>) -> bool {
        let n1: int = 1;
        let n2: int = n1 + if self.bssid is Some { 1int } else { 0 };
        let n3: int = n2 + if self.short_ssid is Some { 1int } else { 0 };
        let n4: int = n3 + if self.bss_parameters is Some { 1int } else { 0 };
        let n5: int = n4 + if self.twenty_mhz_psd is Some { 1int } else { 0 };
        &&& subs.len() == n5
        &&& byte_field_is(subs[0], "Neighbor AP TBTT Offset"@, decimal(self.neighbor_ap_tbtt_offset as nat), None, self.neighbor_ap_tbtt_offset)
        &&& (self.bssid matches Some(a) ==> bytes_field_is(subs[n1], "BSSID"@, hex_joined(a@, ":"@), None, a@))
        &&& (self.short_ssid matches Some(a) ==> bytes_field_is(subs[n2], "Short SSID"@, short_ssid_text(a@), None, a@))
        &&& (self.bss_parameters matches Some(p) ==> p.field_shows(subs[n3]))
        &&& (self.twenty_mhz_psd matches Some(x) ==> byte_field_is(subs[n4], "20 MHz PSD"@, psd_text(x), None, x as u8))
    }

    /// Whether `f` is the displayable field of this TBTT Information field: its bytes, with
    /// the TBTT offset and each part that is present as subfields.
    pub open spec fn spec_field_shows(&self, f: Field) -> bool {
        &&& f.title@ == "TBTT Information"@
        &&& f.value@ == ""@
        &&& f.bytes matches Some(b) && b@ == self.spec_raw()
        &&& f.byte is None
        &&& f.bits is None
        &&& f.units is None
        &&& self.spec_subfields(f.subfields@)
    }

    /// The field as a displayable field; see `spec_field_shows`.
    pub fn to_field(&self) -> (f: Field)
        ensures
            self.spec_field_shows(f),
    {
        let mut subs: Vec<Field> = Vec::new();
        subs.push(byte_field("Neighbor AP TBTT Offset", u64_text(self.neighbor_ap_tbtt_offset as u64), self.neighbor_ap_tbtt_offset));
        let ghost n1 = subs@.len();
        if let Some(a) = &self.bssid {
            subs.push(bytes_field("BSSID", hex_joined_string(a.as_slice(), ":"), vstd::slice::slice_to_vec(a.as_slice())));
        }
        let ghost n2 = subs@.len();
        if let Some(a) = &self.short_ssid {
            subs.push(bytes_field("Short SSID", short_ssid_string(a), vstd::slice::slice_to_vec(a.as_slice())));
        }
        let ghost n3 = subs@.len();
        if let Some(p) = &self.bss_parameters {
            subs.push(p.to_field());
        }
        let ghost n4 = subs@.len();
        if let Some(x) = self.twenty_mhz_psd {
            subs.push(byte_field("20 MHz PSD", psd_string(x), x as u8));
        }
        Field::new("TBTT Information", "").with_bytes(self.to_bytes()).with_subfields(subs)
    }
}

/// A Neighbor AP Information field: the TBTT Information header, the operating class and
/// channel, and as many TBTT Information fields as the header counts.
#[derive(Debug, Clone, PartialEq, Eq, Hash)]
pub struct NeighborApInformationField {
    pub tbtt_information_header: TbttInformationHeader,
    pub operating_class: u8,
    pub channel_number: u8,
    pub tbtt_information_set: Vec<TbttInformation>,
}

/// The number of bytes of a Neighbor AP Information field whose two header bytes are `h`:
/// four, then as many TBTT Information fields as the header counts, each as long as the
/// header's length reads.
pub open spec fn neighbor_len_of(h: Seq<u8>) -> nat {
    (4 + (bits_value(h, 4, 4) + 1) * tbtt_read_len(bits_value(h, 8, 8) as u8)) as nat
}

/// The number of bytes of a Neighbor AP Information field whose header is `h`.
pub open spec fn neighbor_len(h: TbttInformationHeader) -> nat {
    neighbor_len_of(h.raw())
}

/// The bytes of a list of TBTT Information fields, in order.
pub open spec fn tbtt_raws(s: Seq<TbttInformation>) -> Seq<u8>
    decreases s.len(),
{
    if s.len() == 0 {
        seq![]
    } else {
        tbtt_raws(s.drop_last()) + s.last().spec_raw()
    }
}

impl NeighborApInformationField {
    /// The encoded bytes.
    pub open spec fn spec_raw(&self) -> Seq<u8> {
        self.tbtt_information_header.raw() + seq![self.operating_class, self.channel_number] + tbtt_raws(
            self.tbtt_information_set@,
        )
    }

    /// Whether the field is the one read from the front of `b`: the header and the bytes after
    /// it, then the TBTT Information fields the header counts, each read with the length the
    /// header gives, at their positions.
    pub open spec fn spec_parsed_from(&self, b: Seq<u8>) -> bool {
        let h = self.tbtt_information_header;
        let l = h.spec_tbtt_information_length();
        let n = tbtt_read_len(l);
        let set = self.tbtt_information_set@;
        &&& b.len() >= 2
        &&& h.raw() == b.subrange(0, 2)
        &&& b.len() >= neighbor_len(h)
        &&& self.operating_class == b[2]
        &&& self.channel_number == b[3]
        &&& set.len() == h.spec_tbtt_information_count() + 1
        &&& forall|i: int| 0 <= i < set.len() ==> (#[trigger] set[i]).spec_parsed_from(b.subrange(4 + i * n, b.len() as int), l)
    }

    /// The TBTT Information fields read at their positions encode to the bytes they were read
    /// from.
    proof fn lemma_tbtt_prefix(set: Seq<TbttInformation>, b: Seq<u8>, l: u8, n: int, k: int)
        requires
            0 <= k <= set.len(),
            n == tbtt_read_len(l),
            b.len() >= 4 + set.len() * n,
            forall|i: int| 0 <= i < set.len() ==> (#[trigger] set[i]).spec_parsed_from(b.subrange(4 + i * n, b.len() as int), l),
        ensures
            4 + k * n <= b.len(),
            tbtt_raws(set.subrange(0, k)) == b.subrange(4, 4 + k * n),
        decreases k,
    {
        assert(k * n <= set.len() * n) by (nonlinear_arith)
            requires
                k <= set.len(),
                n >= 0,
        ;
        if k == 0 {
            assert(k * n == 0) by (nonlinear_arith)
                requires
                    k == 0,
            ;
            assert(set.subrange(0, 0) =~= Seq::<TbttInformation>::empty());
            assert(b.subrange(4, 4) =~= Seq::<u8>::empty());
            assert(tbtt_raws(set.subrange(0, 0)) == Seq::<u8>::empty());
        } else {
            let j = k - 1;
            Self::lemma_tbtt_prefix(set, b, l, n, j);
            let s = set.subrange(0, k);
            assert(s.drop_last() =~= set.subrange(0, j));
            assert(s.last() == set[j]);
            assert(4 + k * n == 4 + j * n + n) by (nonlinear_arith)
                requires
                    j == k - 1,
            ;
            assert(tbtt_raws(s) == tbtt_raws(s.drop_last()) + s.last().spec_raw());
            let t = set[j];
            assert(t.spec_parsed_from(b.subrange(4 + j * n, b.len() as int), l));
            assert(t.spec_raw() == b.subrange(4 + j * n, b.len() as int).subrange(0, n));
            assert(b.subrange(4 + j * n, b.len() as int).subrange(0, n) =~= b.subrange(4 + j * n, 4 + k * n));
            assert(b.subrange(4, 4 + j * n) + b.subrange(4 + j * n, 4 + k * n) =~= b.subrange(4, 4 + k * n));
            assert(tbtt_raws(set.subrange(0, j)) == b.subrange(4, 4 + j * n));
            assert(tbtt_raws(s) == b.subrange(4, 4 + j * n) + b.subrange(4 + j * n, 4 + k * n));
        }
    }

    /// A field read from the front of `b` encodes to the bytes it was read from.
    pub proof fn lemma_parsed_then_written(&self, b: Seq<u8>)
        requires
            self.spec_parsed_from(b),
        ensures
            neighbor_len(self.tbtt_information_header) <= b.len(),
            self.spec_raw() == b.subrange(0, neighbor_len(self.tbtt_information_header) as int),
    {
        let h = self.tbtt_information_header;
        let l = h.spec_tbtt_information_length();
        let n = tbtt_read_len(l);
        let set = self.tbtt_information_set@;
        lemma_bits_value_bound(h.raw(), 4, 4);
        assert(crate::bits::two_pow(4) == 16) by {
            reveal_with_fuel(crate::bits::two_pow, 5);
        }
        assert(set.len() == bits_value(h.raw(), 4, 4) + 1);
        assert(neighbor_len(h) == 4 + set.len() * n);
        Self::lemma_tbtt_prefix(set, b, l, n as int, set.len() as int);
        assert(set.subrange(0, set.len() as int) =~= set);
        assert(h.raw() + seq![self.operating_class, self.channel_number] + b.subrange(4, (4 + set.len() * n) as int) =~= b.subrange(
            0,
            (4 + set.len() * n) as int,
        ));
    }

    /// Reads the field at the front of `bytes`, with its length; `None` when the bytes are
    /// too few.
    pub fn from_bytes(bytes: &[u8]) -> (r: Option<(NeighborApInformationField, usize)>)
        ensures
            r is Some <==> (bytes@.len() >= 2 && bytes@.len() >= neighbor_len_of(bytes@.subrange(0, 2))),
            r matches Some(p) ==> p.0.spec_parsed_from(bytes@) && p.1 == neighbor_len(p.0.tbtt_information_header),
    {
        let h = match TbttInformationHeader::from_bytes(bytes) {
            Some(h) => h,
            None => return None,
        };
        let l = h.tbtt_information_length();
        let count = h.tbtt_information_count() as usize + 1;
        let n = tbtt_len(l);
        proof {
            lemma_bits_value_bound(h.raw(), 4, 4);
            reveal_with_fuel(crate::bits::two_pow, 5);
            assert(count * n <= 16 * 255) by (nonlinear_arith)
                requires
                    count <= 16,
                    n <= 255,
            ;
        }
        let total = 4 + count * n;
        if bytes.len() < total {
            return None;
        }
        let mut set: Vec<TbttInformation> = Vec::new();
        let mut i: usize = 0;
        while i < count
            invariant
                count == h.spec_tbtt_information_count() + 1,
                count <= 16,
                n == tbtt_read_len(l),
                n <= 255,
                l == h.spec_tbtt_information_length(),
                total == 4 + count * n,
                bytes@.len() >= total,
                i <= count,
                set@.len() == i,
                forall|j: int| 0 <= j < i ==> (#[trigger] set@[j]).spec_parsed_from(bytes@.subrange(4 + j * n, bytes@.len() as int), l),
            decreases count - i,
        {
            proof {
                assert(4 + i * n + n <= total) by (nonlinear_arith)
                    requires
                        i < count,
                        total == 4 + count * n,
                ;
            }
            let start = 4 + i * n;
            let t = match TbttInformation::from_bytes(vstd::slice::slice_subrange(bytes, start, bytes.len()), l) {
                Some(t) => t,
                None => return None,
            };
            set.push(t);
            i = i + 1;
        }
        let f = NeighborApInformationField {
            tbtt_information_header: h,
            operating_class: bytes[2],
            channel_number: bytes[3],
            tbtt_information_set: set,
        };
        Some((f, total))
    }

    /// The encoded bytes.
    pub fn to_bytes(&self) -> (v: Vec<u8>)
        ensures
            v@ == self.spec_raw(),
    {
        let mut v = self.tbtt_information_header.to_bytes();
        v.push(self.operating_class);
        v.push(self.channel_number);
        let ghost head = v@;
        let mut i: usize = 0;
        while i < self.tbtt_information_set.len()
            invariant
                i <= self.tbtt_information_set@.len(),
                v@ == head + tbtt_raws(self.tbtt_information_set@.subrange(0, i as int)),
            decreases self.tbtt_information_set@.len() - i,
        {
            let mut b = self.tbtt_information_set[i].to_bytes();
            v.append(&mut b);
            proof {
                let s = self.tbtt_information_set@.subrange(0, i + 1);
                assert(s.drop_last() =~= self.tbtt_information_set@.subrange(0, i as int));
            }
            i = i + 1;
        }
        proof {
            assert(self.tbtt_information_set@.subrange(0, self.tbtt_information_set@.len() as int) =~= self.tbtt_information_set@);
            assert(v@ =~= self.spec_raw());
        }
        v
    }

    /// Whether `f` is the displayable field of this Neighbor AP Information field: its bytes,
    /// with the header, the operating class, the channel number and each TBTT Information
    /// field as subfields.
    pub open spec fn spec_field_shows(&self, f: Field) -> bool {
        let set = self.tbtt_information_set@;
        &&& f.title@ == "Neighbor AP Information Field"@
        &&& f.value@ == ""@
        &&& f.bytes matches Some(b) && b@ == self.spec_raw()
        &&& f.byte is None
        &&& f.bits is None
        &&& f.units is None
        &&& f.subfields@.len() == 3 + set.len()
        &&& self.tbtt_information_header.field_shows(f.subfields@[0])
        &&& byte_field_is(f.subfields@[1], "Operating Class"@, decimal(self.operating_class as nat), None, self.operating_class)
        &&& byte_field_is(f.subfields@[2], "Channel Number"@, decimal(self.channel_number as nat), None, self.channel_number)
        &&& forall|i: int| 0 <= i < set.len() ==> (#[trigger] set[i]).spec_field_shows(f.subfields@[3 + i])
    }

    /// The field as a displayable field; see `spec_field_shows`.
    pub fn to_field(&self) -> (f: Field)
        ensures
            self.spec_field_shows(f),
    {
        let mut subs: Vec<Field> = Vec::new();
        subs.push(self.tbtt_information_header.to_field());
        subs.push(byte_field("Operating Class", u64_text(self.operating_class as u64), self.operating_class));
        subs.push(byte_field("Channel Number", u64_text(self.channel_number as u64), self.channel_number));
        let mut i: usize = 0;
        while i < self.tbtt_information_set.len()
            invariant
                i <= self.tbtt_information_set@.len(),
                subs@.len() == 3 + i,
                self.tbtt_information_header.field_shows(subs@[0]),
                byte_field_is(subs@[1], "Operating Class"@, decimal(self.operating_class as nat), None, self.operating_class),
                byte_field_is(subs@[2], "Channel Number"@, decimal(self.channel_number as nat), None, self.channel_number),
                forall|j: int| 0 <= j < i ==> (#[trigger] self.tbtt_information_set@[j]).spec_field_shows(subs@[3 + j]),
            decreases self.tbtt_information_set@.len() - i,
        {
            subs.push(self.tbtt_information_set[i].to_field());
            i = i + 1;
        }
        Field::new("Neighbor AP Information Field", "").with_bytes(self.to_bytes()).with_subfields(subs)
    }
}

/// The lengths of the Neighbor AP Information fields an element body splits into, in order,
/// if it splits into complete fields.
pub open spec fn spec_neighbor_split(b: Seq<u8>) -> Option<Seq<nat>>
    decreases b.len(),
{
    if b.len() == 0 {
        Some(seq![])
    } else if b.len() >= 2 && b.len() >= neighbor_len_of(b.subrange(0, 2)) {
        let n = neighbor_len_of(b.subrange(0, 2));
        if n >= 1 {
            match spec_neighbor_split(b.subrange(n as int, b.len() as int)) {
                Some(rest) => Some(seq![n] + rest),
                None => None,
            }
        } else {
            None
        }
    } else {
        None
    }
}

/// The sum of the first `i` lengths.
pub open spec fn prefix_sum(s: Seq<nat>, i: int) -> int
    decreases i,
{
    if i <= 0 {
        0
    } else {
        prefix_sum(s, i - 1) + s[i - 1]
    }
}

/// Appending a length leaves the sums of the earlier lengths as they were.
pub proof fn lemma_prefix_sum_push(s: Seq<nat>, n: nat, i: int)
    requires
        0 <= i <= s.len(),
    ensures
        prefix_sum(s.push(n), i) == prefix_sum(s, i),
    decreases i,
{
    if i > 0 {
        lemma_prefix_sum_push(s, n, i - 1);
    }
}

/// The sums of lengths after a first one are that first one plus the sums of the rest.
pub proof fn lemma_prefix_sum_cons(n0: nat, rest: Seq<nat>, i: int)
    requires
        0 <= i <= rest.len(),
    ensures
        prefix_sum(seq![n0] + rest, i + 1) == n0 + prefix_sum(rest, i),
    decreases i,
{
    let c = seq![n0] + rest;
    assert(prefix_sum(c, i + 1) == prefix_sum(c, i) + c[i]);
    if i > 0 {
        lemma_prefix_sum_cons(n0, rest, i - 1);
        assert(c[i] == rest[i - 1]);
        assert(prefix_sum(rest, i) == prefix_sum(rest, i - 1) + rest[i - 1]);
    } else {
        assert(c[0] == n0);
        assert(prefix_sum(c, 0) == 0);
        assert(prefix_sum(rest, 0) == 0);
    }
}

/// The sums of the lengths a body splits into stay within the body.
pub proof fn lemma_split_prefix_bound(b: Seq<u8>, i: int)
    requires
        spec_neighbor_split(b) is Some,
        0 <= i <= spec_neighbor_split(b)->0.len(),
    ensures
        0 <= prefix_sum(spec_neighbor_split(b)->0, i) <= b.len(),
    decreases b.len(),
{
    let lens = spec_neighbor_split(b)->0;
    if i == 0 {
        assert(prefix_sum(lens, 0) == 0);
    } else if b.len() > 0 {
        let n0 = neighbor_len_of(b.subrange(0, 2));
        let tail = b.subrange(n0 as int, b.len() as int);
        let rest = spec_neighbor_split(tail)->0;
        assert(lens == seq![n0] + rest);
        lemma_split_prefix_bound(tail, i - 1);
        lemma_prefix_sum_cons(n0, rest, i - 1);
    }
}

/// The encoded bytes of Neighbor AP Information fields, one after the other.
pub open spec fn neighbors_raw(list: Seq<NeighborApInformationField>) -> Seq<u8>
    decreases list.len(),
{
    if list.len() == 0 {
        seq![]
    } else {
        list[0].spec_raw() + neighbors_raw(list.drop_first())
    }
}

/// What follows the first field's bytes, from the place of the field after the first, is
/// what follows the place of that field in the rest of the body.
proof fn lemma_split_shift(b: Seq<u8>, i: int)
    requires
        spec_neighbor_split(b) is Some,
        b.len() > 0,
        0 <= i < spec_neighbor_split(b)->0.len() - 1,
    ensures
        ({
            let n0 = neighbor_len_of(b.subrange(0, 2));
            let tail = b.subrange(n0 as int, b.len() as int);
            &&& spec_neighbor_split(tail) is Some
            &&& spec_neighbor_split(b)->0 == seq![n0] + spec_neighbor_split(tail)->0
            &&& b.subrange(prefix_sum(spec_neighbor_split(b)->0, i + 1), b.len() as int) == tail.subrange(
                prefix_sum(spec_neighbor_split(tail)->0, i),
                tail.len() as int,
            )
        }),
{
    let lens = spec_neighbor_split(b)->0;
    let n0 = neighbor_len_of(b.subrange(0, 2));
    let tail = b.subrange(n0 as int, b.len() as int);
    let rest = spec_neighbor_split(tail)->0;
    assert(lens == seq![n0] + rest);
    lemma_prefix_sum_cons(n0, rest, i);
    lemma_split_prefix_bound(tail, i);
    assert(b.subrange(prefix_sum(lens, i + 1), b.len() as int) =~= tail.subrange(prefix_sum(rest, i), tail.len() as int));
}

/// Fields read one after the other from a body encode back to the body.
#[verifier::rlimit(40)]
proof fn lemma_neighbors_written(list: Seq<NeighborApInformationField>, b: Seq<u8>)
    requires
        spec_neighbor_split(b) is Some,
        list.len() == spec_neighbor_split(b)->0.len(),
        forall|i: int| 0 <= i < list.len() ==> (#[trigger] list[i]).spec_parsed_from(
            b.subrange(prefix_sum(spec_neighbor_split(b)->0, i), b.len() as int),
        ),
    ensures
        neighbors_raw(list) == b,
    decreases b.len(),
{
    let lens = spec_neighbor_split(b)->0;
    if b.len() == 0 {
        assert(list.len() == 0);
    } else {
        let n0 = neighbor_len_of(b.subrange(0, 2));
        let tail = b.subrange(n0 as int, b.len() as int);
        let rest = spec_neighbor_split(tail)->0;
        assert(lens == seq![n0] + rest);
        assert(b.subrange(prefix_sum(lens, 0), b.len() as int) =~= b);
        let f = list[0];
        assert(f.spec_parsed_from(b));
        f.lemma_parsed_then_written(b);
        assert(f.tbtt_information_header.raw() == b.subrange(0, 2));
        let l2 = list.drop_first();
        assert forall|i: int| 0 <= i < l2.len() implies (#[trigger] l2[i]).spec_parsed_from(
            tail.subrange(prefix_sum(rest, i), tail.len() as int),
        ) by {
            lemma_split_shift(b, i);
            assert(l2[i] == list[i + 1]);
        }
        lemma_neighbors_written(l2, tail);
        assert(b.subrange(0, n0 as int) + tail =~= b);
    }
}

/// A Reduced Neighbor Report element: the neighbor APs' information fields.
#[derive(Debug, Clone, PartialEq, Eq, Hash)]
pub struct ReducedNeighborReport {
    pub neighbor_ap_information_fields: Vec<NeighborApInformationField>,
}

impl ReducedNeighborReport {
    pub const NAME: &'static str = "Reduced Neighbor Report";
    pub const ID: u8 = 201;
    pub const ID_EXT: Option<u8> = None;

    /// Whether the element is the one read from body `b`: the body splits into complete
    /// Neighbor AP Information fields, each read from its place.
    pub open spec fn spec_parsed_from(&self, b: Seq<u8>) -> bool {
        let list = self.neighbor_ap_information_fields@;
        &&& spec_neighbor_split(b) is Some
        &&& list.len() == spec_neighbor_split(b)->0.len()
        &&& forall|i: int| 0 <= i < list.len() ==> (#[trigger] list[i]).spec_parsed_from(
            b.subrange(prefix_sum(spec_neighbor_split(b)->0, i), b.len() as int),
        )
    }

    /// Parses the element body into Neighbor AP Information fields, one after the other until
    /// the body ends; `None` when the last one is cut short.
    pub fn from_bytes(bytes: &[u8]) -> (r: Option<ReducedNeighborReport>)
        ensures
            r is Some <==> spec_neighbor_split(bytes@) is Some,
            r matches Some(x) ==> x.neighbor_ap_information_fields@.len() == spec_neighbor_split(bytes@)->0.len(),
            r matches Some(x) ==> forall|i: int| 0 <= i < x.neighbor_ap_information_fields@.len()
                ==> (#[trigger] x.neighbor_ap_information_fields@[i]).spec_parsed_from(
                bytes@.subrange(prefix_sum(spec_neighbor_split(bytes@)->0, i), bytes@.len() as int),
            ),
    {
        let len = bytes.len();
        let mut list: Vec<NeighborApInformationField> = Vec::new();
        let mut pos: usize = 0;
        let ghost mut done: Seq<nat> = seq![];
        proof {
            assert(bytes@.subrange(0, len as int) =~= bytes@);
            assert(done + spec_neighbor_split(bytes@)->0 =~= spec_neighbor_split(bytes@)->0);
        }
        while pos < len
            invariant
                len == bytes@.len(),
                pos <= len,
                pos == prefix_sum(done, done.len() as int),
                list@.len() == done.len(),
                forall|i: int| 0 <= i < list@.len() ==> (#[trigger] list@[i]).spec_parsed_from(
                    bytes@.subrange(prefix_sum(done, i), len as int),
                ),
                spec_neighbor_split(bytes@) is Some <==> spec_neighbor_split(bytes@.subrange(pos as int, len as int)) is Some,
                spec_neighbor_split(bytes@) is Some ==> spec_neighbor_split(bytes@)->0 == done
                    + spec_neighbor_split(bytes@.subrange(pos as int, len as int))->0,
            decreases len - pos,
        {
            let ghost rest = bytes@.subrange(pos as int, len as int);
            let tail = vstd::slice::slice_subrange(bytes, pos, len);
            let (f, n) = match NeighborApInformationField::from_bytes(tail) {
                Some(p) => p,
                None => return None,
            };
            proof {
                assert(tail@ == rest);
                assert(rest.subrange(n as int, rest.len() as int) =~= bytes@.subrange(pos + n, len as int));
            }
            list.push(f);
            proof {
                let old_done = done;
                done = done.push(n as nat);
                assert forall|i: int| 0 <= i <= old_done.len() implies prefix_sum(done, i) == prefix_sum(old_done, i) by {
                    lemma_prefix_sum_push(old_done, n as nat, i);
                }
                assert(prefix_sum(done, done.len() as int) == pos + n);
                if spec_neighbor_split(bytes@) is Some {
                    assert(spec_neighbor_split(rest)->0 =~= seq![n as nat] + spec_neighbor_split(
                        bytes@.subrange(pos + n, len as int),
                    )->0);
                    assert(done + spec_neighbor_split(bytes@.subrange(pos + n, len as int))->0 =~= old_done
                        + spec_neighbor_split(rest)->0);
                }
            }
            pos = pos + n;
        }
        proof {
            assert(bytes@.subrange(len as int, len as int) =~= Seq::<u8>::empty());
            assert(done + Seq::<nat>::empty() =~= done);
        }
        Some(ReducedNeighborReport { neighbor_ap_information_fields: list })
    }

    /// The encoded body: the fields' bytes, one after the other.
    pub open spec fn spec_raw(&self) -> Seq<u8> {
        neighbors_raw(self.neighbor_ap_information_fields@)
    }

    /// Writing an element read from a body gives back that body.
    pub proof fn lemma_parsed_then_written(&self, b: Seq<u8>)
        requires
            self.spec_parsed_from(b),
        ensures
            self.spec_raw() == b,
    {
        lemma_neighbors_written(self.neighbor_ap_information_fields@, b);
    }

    /// The encoded body: the fields' bytes, one after the other.
    pub fn to_bytes(&self) -> (v: Vec<u8>)
        ensures
            v@ == self.spec_raw(),
    {
        let list = &self.neighbor_ap_information_fields;
        let mut v: Vec<u8> = Vec::new();
        let mut i: usize = 0;
        proof {
            assert(list@.subrange(0, list@.len() as int) =~= list@);
        }
        while i < list.len()
            invariant
                i <= list@.len(),
                v@ + neighbors_raw(list@.subrange(i as int, list@.len() as int)) == neighbors_raw(list@),
            decreases list@.len() - i,
        {
            let ghost before = v@;
            let mut b = list[i].to_bytes();
            v.append(&mut b);
            proof {
                let rest = list@.subrange(i as int, list@.len() as int);
                assert(rest.drop_first() =~= list@.subrange(i + 1, list@.len() as int));
                assert(rest[0] == list@[i as int]);
                assert(v@ + neighbors_raw(list@.subrange(i + 1, list@.len() as int)) =~= before + neighbors_raw(rest));
            }
            i = i + 1;
        }
        proof {
            assert(v@ + neighbors_raw(list@.subrange(list@.len() as int, list@.len() as int)) =~= v@);
        }
        v
    }

    /// The one-line summary: `1 Report`, or the number of reports and `Reports`.
    pub open spec fn spec_summary(&self) -> Seq<char> {
        if self.neighbor_ap_information_fields@.len() == 1 {
            "1 Report"@
        } else {
            decimal(self.neighbor_ap_information_fields@.len()) + " Reports"@
        }
    }

    /// The one-line summary, for example `3 Reports`.
    pub fn summary(&self) -> (s: String)
        ensures
            s@ == self.spec_summary(),
    {
        if self.neighbor_ap_information_fields.len() == 1 {
            String::from_str("1 Report")
        } else {
            let mut s = u64_text(self.neighbor_ap_information_fields.len() as u64);
            s.append(" Reports");
            s
        }
    }

    /// The element's fields: one per Neighbor AP Information field.
    pub fn fields(&self) -> (fs: Vec<Field>)
        ensures
            fs@.len() == self.neighbor_ap_information_fields@.len(),
            forall|i: int| 0 <= i < fs@.len() ==> self.neighbor_ap_information_fields@[i].spec_field_shows(#[trigger] fs@[i]),
    {
        let mut fs: Vec<Field> = Vec::new();
        let mut i: usize = 0;
        while i < self.neighbor_ap_information_fields.len()
            invariant
                i <= self.neighbor_ap_information_fields@.len(),
                fs@.len() == i,
                forall|j: int| 0 <= j < i ==> self.neighbor_ap_information_fields@[j].spec_field_shows(#[trigger] fs@[j]),
            decreases self.neighbor_ap_information_fields@.len() - i,
        {
            fs.push(self.neighbor_ap_information_fields[i].to_field());
            i = i + 1;
        }
        fs
    }
}

} // verus!
