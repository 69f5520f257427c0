//! The HT Operation element (802.11n).
use vstd::prelude::*;

use crate::bits::{
    bit_set, bits_value, lemma_bits_value_bound, lemma_two_pow_64, lemma_two_pow_monotone, read_bit,
    read_bits, read_u16_bits, read_u8_bits,
};
use crate::ies::field::{
    bit_field, bit_field_is, bit_field_with_units, reserved_bits, reserved_field_is, BitRange,
    Field,
};
use crate::channel_width::ChannelWidth;
use crate::ies::field::{byte_field, byte_field_is};
use crate::ies::ht_capabilities::SupportedMcsSet;
use crate::text::{bool_string, bool_text, decimal, owned, paren_decimal, paren_text, u64_text};

verus! {

/// Where the secondary 20 MHz channel lies relative to the primary one.
#[derive(Debug, Clone, Copy, PartialEq, Eq, Structural, Hash)]
pub enum SecondaryChannelOffset {
    NoSecondary,
    AbovePrimary,
    BelowPrimary,
}

impl SecondaryChannelOffset {
    /// The value encoded by a raw code, if the code is defined.
    pub open spec fn spec_from_u8(v: u8) -> Option<SecondaryChannelOffset> {
        if v == 0 {
            Some(SecondaryChannelOffset::NoSecondary)
        } else if v == 1 {
            Some(SecondaryChannelOffset::AbovePrimary)
        } else if v == 3 {
            Some(SecondaryChannelOffset::BelowPrimary)
        } else {
            None
        }
    }

    /// The raw code of the value.
    pub open spec fn spec_to_u8(self) -> u8 {
        match self {
            SecondaryChannelOffset::NoSecondary => 0,
            SecondaryChannelOffset::AbovePrimary => 1,
            SecondaryChannelOffset::BelowPrimary => 3,
        }
    }

    /// The human-readable text of the value.
    pub open spec fn spec_text(self) -> Seq<char> {
        match self {
            SecondaryChannelOffset::NoSecondary => "None"@,
            SecondaryChannelOffset::AbovePrimary => "Above Primary"@,
            SecondaryChannelOffset::BelowPrimary => "Below Primary"@,
        }
    }

    /// Decodes a raw code; `None` for an undefined code.
    pub fn from_u8(v: u8) -> (r: Option<SecondaryChannelOffset>)
        ensures
            r == Self::spec_from_u8(v),
    {
        match v {
            0 => Some(SecondaryChannelOffset::NoSecondary),
            1 => Some(SecondaryChannelOffset::AbovePrimary),
            3 => Some(SecondaryChannelOffset::BelowPrimary),
            _ => None,
        }
    }

    /// The raw code of the value.
    pub fn to_u8(&self) -> (v: u8)
        ensures
            v == self.spec_to_u8(),
            Self::spec_from_u8(v) == Some(*self),
    {
        match self {
            SecondaryChannelOffset::NoSecondary => 0,
            SecondaryChannelOffset::AbovePrimary => 1,
            SecondaryChannelOffset::BelowPrimary => 3,
        }
    }

    /// The human-readable text of the value.
    pub fn to_string(&self) -> (s: String)
        ensures
            s@ == self.spec_text(),
    {
        match self {
            SecondaryChannelOffset::NoSecondary => String::from_str("None"),
            SecondaryChannelOffset::AbovePrimary => String::from_str("Above Primary"),
            SecondaryChannelOffset::BelowPrimary => String::from_str("Below Primary"),
        }
    }
}

/// Decoding a value's own code gives the value back.
pub proof fn lemma_secondary_channel_offset_code_roundtrip(v: SecondaryChannelOffset)
    ensures
        SecondaryChannelOffset::spec_from_u8(v.spec_to_u8()) == Some(v),
{
}

/// The channel widths a station may use in an HT BSS.
#[derive(Debug, Clone, Copy, PartialEq, Eq, Structural, Hash)]
pub enum SupportedChannelWidths {
    TwentyMhz,
    Any,
}

impl SupportedChannelWidths {
    /// The value encoded by a raw code, if the code is defined.
    pub open spec fn spec_from_u8(v: u8) -> Option<SupportedChannelWidths> {
        if v == 0 {
            Some(SupportedChannelWidths::TwentyMhz)
        } else if v == 1 {
            Some(SupportedChannelWidths::Any)
        } else {
            None
        }
    }

    /// The raw code of the value.
    pub open spec fn spec_to_u8(self) -> u8 {
        match self {
            SupportedChannelWidths::TwentyMhz => 0,
            SupportedChannelWidths::Any => 1,
        }
    }

    /// The human-readable text of the value.
    pub open spec fn spec_text(self) -> Seq<char> {
        match self {
            SupportedChannelWidths::TwentyMhz => "20"@,
            SupportedChannelWidths::Any => "20/40"@,
        }
    }

    /// Decodes a raw code; `None` for an undefined code.
    pub fn from_u8(v: u8) -> (r: Option<SupportedChannelWidths>)
        ensures
            r == Self::spec_from_u8(v),
    {
        match v {
            0 => Some(SupportedChannelWidths::TwentyMhz),
            1 => Some(SupportedChannelWidths::Any),
            _ => None,
        }
    }

    /// The raw code of the value.
    pub fn to_u8(&self) -> (v: u8)
        ensures
            v == self.spec_to_u8(),
            Self::spec_from_u8(v) == Some(*self),
    {
        match self {
            SupportedChannelWidths::TwentyMhz => 0,
            SupportedChannelWidths::Any => 1,
        }
    }

    /// The human-readable text of the value.
    pub fn to_string(&self) -> (s: String)
        ensures
            s@ == self.spec_text(),
    {
        match self {
            SupportedChannelWidths::TwentyMhz => String::from_str("20"),
            SupportedChannelWidths::Any => String::from_str("20/40"),
        }
    }
}

/// Decoding a value's own code gives the value back.
pub proof fn lemma_supported_channel_widths_code_roundtrip(v: SupportedChannelWidths)
    ensures
        SupportedChannelWidths::spec_from_u8(v.spec_to_u8()) == Some(v),
{
}

/// The HT protection mode of a BSS.
#[derive(Debug, Clone, Copy, PartialEq, Eq, Structural, Hash)]
pub enum HtProtection {
    NoProtection,
    NonmemberProtection,
    TwentyMhzProtection,
    NonHtMixed,
}

impl HtProtection {
    /// The value encoded by a raw code, if the code is defined.
    pub open spec fn spec_from_u8(v: u8) -> Option<HtProtection> {
        if v == 0 {
            Some(HtProtection::NoProtection)
        } else if v == 1 {
            Some(HtProtection::NonmemberProtection)
        } else if v == 2 {
            Some(HtProtection::TwentyMhzProtection)
        } else if v == 3 {
            Some(HtProtection::NonHtMixed)
        } else {
            None
        }
    }

    /// The raw code of the value.
    pub open spec fn spec_to_u8(self) -> u8 {
        match self {
            HtProtection::NoProtection => 0,
            HtProtection::NonmemberProtection => 1,
            HtProtection::TwentyMhzProtection => 2,
            HtProtection::NonHtMixed => 3,
        }
    }

    /// The human-readable text of the value.
    pub open spec fn spec_text(self) -> Seq<char> {
        match self {
            HtProtection::NoProtection => "No Protection"@,
            HtProtection::NonmemberProtection => "Nonmember Protection"@,
            HtProtection::TwentyMhzProtection => "20 MHz Protection"@,
            HtProtection::NonHtMixed => "Non-HT Mixed"@,
        }
    }

    /// Decodes a raw code; `None` for an undefined code.
    pub fn from_u8(v: u8) -> (r: Option<HtProtection>)
        ensures
            r == Self::spec_from_u8(v),
    {
        match v {
            0 => Some(HtProtection::NoProtection),
            1 => Some(HtProtection::NonmemberProtection),
            2 => Some(HtProtection::TwentyMhzProtection),
            3 => Some(HtProtection::NonHtMixed),
            _ => None,
        }
    }

    /// The raw code of the value.
    pub fn to_u8(&self) -> (v: u8)
        ensures
            v == self.spec_to_u8(),
            Self::spec_from_u8(v) == Some(*self),
    {
        match self {
            HtProtection::NoProtection => 0,
            HtProtection::NonmemberProtection => 1,
            HtProtection::TwentyMhzProtection => 2,
            HtProtection::NonHtMixed => 3,
        }
    }

    /// The human-readable text of the value.
    pub fn to_string(&self) -> (s: String)
        ensures
            s@ == self.spec_text(),
    {
        match self {
            HtProtection::NoProtection => String::from_str("No Protection"),
            HtProtection::NonmemberProtection => String::from_str("Nonmember Protection"),
            HtProtection::TwentyMhzProtection => String::from_str("20 MHz Protection"),
            HtProtection::NonHtMixed => String::from_str("Non-HT Mixed"),
        }
    }
}

/// Decoding a value's own code gives the value back.
pub proof fn lemma_ht_protection_code_roundtrip(v: HtProtection)
    ensures
        HtProtection::spec_from_u8(v.spec_to_u8()) == Some(v),
{
}

/// The HT Operation Information field of an HT Operation element.
#[derive(Debug, Clone, Copy, PartialEq, Eq, Hash)]
pub struct HtOperationInformation {
    bytes: [u8; 5],
}

impl HtOperationInformation {
    /// The encoded length in bytes.
    pub const LENGTH: usize = 5;

    /// Whether `bytes` (exactly 5 of them) encode a valid value.
    pub open spec fn spec_valid(bytes: Seq<u8>) -> bool {
        &&& bytes.len() == 5
        &&& SecondaryChannelOffset::spec_from_u8(bits_value(bytes, 0, 2) as u8) is Some
        &&& SupportedChannelWidths::spec_from_u8(bits_value(bytes, 2, 1) as u8) is Some
        &&& HtProtection::spec_from_u8(bits_value(bytes, 8, 2) as u8) is Some
    }

    /// The encoded bytes.
    pub closed spec fn raw(&self) -> Seq<u8> {
        self.bytes@
    }

    /// Every value is encoded in exactly 5 bytes.
    pub proof fn lemma_raw_len(&self)
        ensures
            self.raw().len() == 5,
    {
    }

    /// Decodes the value from the first 5 bytes of `bytes`. `None` when there are fewer
    /// bytes or they do not encode a valid value.
    pub fn from_bytes(bytes: &[u8]) -> (r: Option<HtOperationInformation>)
        ensures
            r is Some <==> bytes@.len() >= 5 && Self::spec_valid(bytes@.subrange(0, 5)),
            r matches Some(v) ==> v.raw() == bytes@.subrange(0, 5),
    {
        if bytes.len() < 5 {
            return None;
        }
        let a: [u8; 5] = [bytes[0], bytes[1], bytes[2], bytes[3], bytes[4]];
        proof {
            assert(a@ =~= bytes@.subrange(0, 5));
        }
        if SecondaryChannelOffset::from_u8(read_u8_bits(a.as_slice(), 0, 2)).is_none() {
            return None;
        }
        if SupportedChannelWidths::from_u8(read_u8_bits(a.as_slice(), 2, 1)).is_none() {
            return None;
        }
        if HtProtection::from_u8(read_u8_bits(a.as_slice(), 8, 2)).is_none() {
            return None;
        }
        Some(HtOperationInformation { bytes: a })
    }

    /// The encoded bytes.
    pub fn to_bytes(&self) -> (v: Vec<u8>)
        ensures
            v@ == self.raw(),
    {
        vstd::slice::slice_to_vec(self.bytes.as_slice())
    }

    /// The "Secondary Channel Offset" subfield (bits 0-1).
    pub open spec fn spec_secondary_channel_offset(&self) -> SecondaryChannelOffset {
        match SecondaryChannelOffset::spec_from_u8(bits_value(self.raw(), 0, 2) as u8) {
            Some(v) => v,
            None => SecondaryChannelOffset::NoSecondary,
        }
    }

    /// The "Secondary Channel Offset" subfield (bits 0-1).
    pub fn secondary_channel_offset(&self) -> (v: SecondaryChannelOffset)
        ensures
            v == self.spec_secondary_channel_offset(),
    {
        match SecondaryChannelOffset::from_u8(read_u8_bits(self.bytes.as_slice(), 0, 2)) {
            Some(v) => v,
            None => SecondaryChannelOffset::NoSecondary,
        }
    }

    /// The "STA Channel Width" subfield (bit 2).
    pub open spec fn spec_sta_channel_width(&self) -> SupportedChannelWidths {
        match SupportedChannelWidths::spec_from_u8(bits_value(self.raw(), 2, 1) as u8) {
            Some(v) => v,
            None => SupportedChannelWidths::TwentyMhz,
        }
    }

    /// The "STA Channel Width" subfield (bit 2).
    pub fn sta_channel_width(&self) -> (v: SupportedChannelWidths)
        ensures
            v == self.spec_sta_channel_width(),
    {
        match SupportedChannelWidths::from_u8(read_u8_bits(self.bytes.as_slice(), 2, 1)) {
            Some(v) => v,
            None => SupportedChannelWidths::TwentyMhz,
        }
    }

    /// The "RIFS Mode" subfield (bit 3).
    pub open spec fn spec_rifs_mode(&self) -> bool {
        bit_set(self.raw(), 3)
    }

    /// The "RIFS Mode" subfield (bit 3).
    pub fn rifs_mode(&self) -> (b: bool)
        ensures
            b == self.spec_rifs_mode(),
    {
        read_bit(self.bytes.as_slice(), 3)
    }

    /// The "HT Protection" subfield (bits 8-9).
    pub open spec fn spec_ht_protection(&self) -> HtProtection {
        match HtProtection::spec_from_u8(bits_value(self.raw(), 8, 2) as u8) {
            Some(v) => v,
            None => HtProtection::NoProtection,
        }
    }

    /// The "HT Protection" subfield (bits 8-9).
    pub fn ht_protection(&self) -> (v: HtProtection)
        ensures
            v == self.spec_ht_protection(),
    {
        match HtProtection::from_u8(read_u8_bits(self.bytes.as_slice(), 8, 2)) {
            Some(v) => v,
            None => HtProtection::NoProtection,
        }
    }

    /// The "Nongreenfield HT STAs Present" subfield (bit 10).
    pub open spec fn spec_nongreenfield_ht_stas_present(&self) -> bool {
        bit_set(self.raw(), 10)
    }

    /// The "Nongreenfield HT STAs Present" subfield (bit 10).
    pub fn nongreenfield_ht_stas_present(&self) -> (b: bool)
        ensures
            b == self.spec_nongreenfield_ht_stas_present(),
    {
        read_bit(self.bytes.as_slice(), 10)
    }

    /// The "OBSS Non-HT STAs Present" subfield (bit 12).
    pub open spec fn spec_obss_non_ht_stas_present(&self) -> bool {
        bit_set(self.raw(), 12)
    }

    /// The "OBSS Non-HT STAs Present" subfield (bit 12).
    pub fn obss_non_ht_stas_present(&self) -> (b: bool)
        ensures
            b == self.spec_obss_non_ht_stas_present(),
    {
        read_bit(self.bytes.as_slice(), 12)
    }

    /// The "Channel Center Frequency Segment 2" subfield (bits 13-20).
    pub open spec fn spec_channel_center_frequency_segment_two(&self) -> u8 {
        bits_value(self.raw(), 13, 8) as u8
    }

    /// The "Channel Center Frequency Segment 2" subfield (bits 13-20).
    pub fn channel_center_frequency_segment_two(&self) -> (v: u8)
        ensures
            v == self.spec_channel_center_frequency_segment_two(),
            v == bits_value(self.raw(), 13, 8),
    {
        read_u8_bits(self.bytes.as_slice(), 13, 8)
    }

    /// The "Dual Beacon" subfield (bit 30).
    pub open spec fn spec_dual_beacon(&self) -> bool {
        bit_set(self.raw(), 30)
    }

    /// The "Dual Beacon" subfield (bit 30).
    pub fn dual_beacon(&self) -> (b: bool)
        ensures
            b == self.spec_dual_beacon(),
    {
        read_bit(self.bytes.as_slice(), 30)
    }

    /// The "Dual CTS Protection" subfield (bit 31).
    pub open spec fn spec_dual_cts_protection(&self) -> bool {
        bit_set(self.raw(), 31)
    }

    /// The "Dual CTS Protection" subfield (bit 31).
    pub fn dual_cts_protection(&self) -> (b: bool)
        ensures
            b == self.spec_dual_cts_protection(),
    {
        read_bit(self.bytes.as_slice(), 31)
    }

    /// The "STBC Beacon" subfield (bit 32).
    pub open spec fn spec_stbc_beacon(&self) -> bool {
        bit_set(self.raw(), 32)
    }

    /// The "STBC Beacon" subfield (bit 32).
    pub fn stbc_beacon(&self) -> (b: bool)
        ensures
            b == self.spec_stbc_beacon(),
    {
        read_bit(self.bytes.as_slice(), 32)
    }

    /// Whether `f` is the displayable field of this value: one subfield per bit field.
    pub open spec fn field_shows(&self, f: Field) -> bool {
        &&& f.title@ == "HT Operation Information"@
        &&& f.value@ == ""@
        &&& f.bytes matches Some(b) && b@ == self.raw()
        &&& f.byte is None
        &&& f.bits is None
        &&& f.units is None
        &&& f.subfields@.len() == 15
        &&& bit_field_is(f.subfields@[0], "Secondary Channel Offset"@, self.spec_secondary_channel_offset().spec_text(), None, self.raw(), 0, 2)
        &&& bit_field_is(f.subfields@[1], "STA Channel Width"@, self.spec_sta_channel_width().spec_text(), Some("MHz"@), self.raw(), 2, 1)
        &&& bit_field_is(f.subfields@[2], "RIFS Mode"@, bool_text(self.spec_rifs_mode()), None, self.raw(), 3, 1)
        &&& reserved_field_is(f.subfields@[3], self.raw(), 4, 4)
        &&& bit_field_is(f.subfields@[4], "HT Protection"@, self.spec_ht_protection().spec_text(), None, self.raw(), 8, 2)
        &&& bit_field_is(f.subfields@[5], "Nongreenfield HT STAs Present"@, bool_text(self.spec_nongreenfield_ht_stas_present()), None, self.raw(), 10, 1)
        &&& reserved_field_is(f.subfields@[6], self.raw(), 11, 1)
        &&& bit_field_is(f.subfields@[7], "OBSS Non-HT STAs Present"@, bool_text(self.spec_obss_non_ht_stas_present()), None, self.raw(), 12, 1)
        &&& bit_field_is(f.subfields@[8], "Channel Center Frequency Segment 2"@, decimal(self.spec_channel_center_frequency_segment_two() as nat), None, self.raw(), 13, 8)
        &&& reserved_field_is(f.subfields@[9], self.raw(), 21, 3)
        &&& reserved_field_is(f.subfields@[10], self.raw(), 24, 6)
        &&& bit_field_is(f.subfields@[11], "Dual Beacon"@, bool_text(self.spec_dual_beacon()), None, self.raw(), 30, 1)
        &&& bit_field_is(f.subfields@[12], "Dual CTS Protection"@, bool_text(self.spec_dual_cts_protection()), None, self.raw(), 31, 1)
        &&& bit_field_is(f.subfields@[13], "STBC Beacon"@, bool_text(self.spec_stbc_beacon()), None, self.raw(), 32, 1)
        &&& reserved_field_is(f.subfields@[14], self.raw(), 33, 7)
    }

    /// The value as a displayable field with one subfield per bit field.
    pub fn to_field(&self) -> (f: Field)
        ensures
            self.field_shows(f),
    {
        let bytes = self.bytes.as_slice();
        let mut subfields: Vec<Field> = Vec::new();
        subfields.push(bit_field("Secondary Channel Offset", self.secondary_channel_offset().to_string(), bytes, 0, 2));
        subfields.push(bit_field_with_units("STA Channel Width", self.sta_channel_width().to_string(), owned("MHz"), bytes, 2, 1));
        subfields.push(bit_field("RIFS Mode", bool_string(self.rifs_mode()), bytes, 3, 1));
        subfields.push(reserved_bits(bytes, 4, 4));
        subfields.push(bit_field("HT Protection", self.ht_protection().to_string(), bytes, 8, 2));
        subfields.push(bit_field("Nongreenfield HT STAs Present", bool_string(self.nongreenfield_ht_stas_present()), bytes, 10, 1));
        subfields.push(reserved_bits(bytes, 11, 1));
        subfields.push(bit_field("OBSS Non-HT STAs Present", bool_string(self.obss_non_ht_stas_present()), bytes, 12, 1));
        subfields.push(bit_field("Channel Center Frequency Segment 2", u64_text(self.channel_center_frequency_segment_two() as u64), bytes, 13, 8));
        subfields.push(reserved_bits(bytes, 21, 3));
        subfields.push(reserved_bits(bytes, 24, 6));
        subfields.push(bit_field("Dual Beacon", bool_string(self.dual_beacon()), bytes, 30, 1));
        subfields.push(bit_field("Dual CTS Protection", bool_string(self.dual_cts_protection()), bytes, 31, 1));
        subfields.push(bit_field("STBC Beacon", bool_string(self.stbc_beacon()), bytes, 32, 1));
        subfields.push(reserved_bits(bytes, 33, 7));
        Field::new("HT Operation Information", "").with_bytes(self.to_bytes()).with_subfields(subfields)
    }

}

/// An HT Operation element: how an 802.11n access point operates.
#[derive(Debug, Clone, PartialEq, Eq, Hash)]
pub struct HtOperation {
    pub primary_channel: u8,
    pub ht_operation_information: HtOperationInformation,
    pub basic_ht_mcs_set: SupportedMcsSet,
}

/// The layout of a HtOperation body: the parts in order, 22 bytes in all.
pub open spec fn spec_ht_operation_valid(b: Seq<u8>) -> bool {
    &&& b.len() >= 22
    &&& HtOperationInformation::spec_valid(b.subrange(1, 6))
    &&& SupportedMcsSet::spec_valid(b.subrange(6, 22))
}

impl HtOperation {
    pub const NAME: &'static str = "HT Operation";
    pub const ID: u8 = 61;
    pub const ID_EXT: Option<u8> = None;
    pub const LENGTH: usize = 22;

    /// The parts are exactly the consecutive slices of `b`.
    pub open spec fn spec_parsed_from(&self, b: Seq<u8>) -> bool {
        &&& self.primary_channel == b[0]
        &&& self.ht_operation_information.raw() == b.subrange(1, 6)
        &&& self.basic_ht_mcs_set.raw() == b.subrange(6, 22)
    }

    /// Parses the element body. `None` when it is shorter than 22 bytes or a part holds an
    /// undefined code.
    pub fn from_bytes(bytes: &[u8]) -> (r: Option<HtOperation>)
        ensures
            r is Some <==> spec_ht_operation_valid(bytes@),
            r matches Some(c) ==> c.spec_parsed_from(bytes@),
    {
        if bytes.len() < 22 {
            return None;
        }
        let primary_channel = bytes[0];
        let ht_operation_information = match HtOperationInformation::from_bytes(vstd::slice::slice_subrange(bytes, 1, 6)) {
            Some(v) => v,
            None => {
                proof {
                    assert(bytes@.subrange(1, 6).subrange(0, 5) =~= bytes@.subrange(1, 6));
                }
                return None;
            },
        };
        let basic_ht_mcs_set = match SupportedMcsSet::from_bytes(vstd::slice::slice_subrange(bytes, 6, 22)) {
            Some(v) => v,
            None => {
                proof {
                    assert(bytes@.subrange(6, 22).subrange(0, 16) =~= bytes@.subrange(6, 22));
                }
                return None;
            },
        };
        proof {
            assert(bytes@.subrange(1, 6).subrange(0, 5) =~= bytes@.subrange(1, 6));
            assert(bytes@.subrange(6, 22).subrange(0, 16) =~= bytes@.subrange(6, 22));
        }
        Some(HtOperation { primary_channel, ht_operation_information, basic_ht_mcs_set })
    }
    /// The channel width is 40 MHz exactly when the STA Channel Width bit (bit 2 of the
    /// operation information) is set, and 20 MHz otherwise.
    pub proof fn lemma_channel_width_from_sta_bit(&self)
        ensures
            self.spec_channel_width() == (if bits_value(self.ht_operation_information.raw(), 2, 1) == 1 {
                ChannelWidth::FortyMhz
            } else {
                ChannelWidth::TwentyMhz
            }),
    {
        lemma_bits_value_bound(self.ht_operation_information.raw(), 2, 1);
        assert(crate::bits::two_pow(1) == 2) by {
            reveal_with_fuel(crate::bits::two_pow, 2);
        }
    }

    /// The channel width the access point allows: 40 MHz when any width is allowed.
    pub open spec fn spec_channel_width(&self) -> ChannelWidth {
        match self.ht_operation_information.spec_sta_channel_width() {
            SupportedChannelWidths::TwentyMhz => ChannelWidth::TwentyMhz,
            SupportedChannelWidths::Any => ChannelWidth::FortyMhz,
        }
    }

    /// The channel width the access point allows: 20 MHz, or 40 MHz when any width is allowed.
    pub fn channel_width(&self) -> (w: ChannelWidth)
        ensures
            w == self.spec_channel_width(),
    {
        match self.ht_operation_information.sta_channel_width() {
            SupportedChannelWidths::TwentyMhz => ChannelWidth::TwentyMhz,
            SupportedChannelWidths::Any => ChannelWidth::FortyMhz,
        }
    }

    /// The one-line summary.
    pub open spec fn spec_summary(&self) -> Seq<char> {
        "Primary Channel: "@ + decimal(self.primary_channel as nat) + ", Secondary Channel: "@
            + self.ht_operation_information.spec_secondary_channel_offset().spec_text()
    }

    /// A one-line summary, for example `Primary Channel: 36, Secondary Channel: Above Primary`.
    pub fn summary(&self) -> (s: String)
        ensures
            s@ == self.spec_summary(),
    {
        let mut s = String::from_str("Primary Channel: ");
        s.append(u64_text(self.primary_channel as u64).as_str());
        s.append(", Secondary Channel: ");
        s.append(self.ht_operation_information.secondary_channel_offset().to_string().as_str());
        s
    }

    /// The element's fields: the primary channel, the operation information and the basic
    /// MCS set.
    pub fn fields(&self) -> (v: Vec<Field>)
        ensures
            v@.len() == 3,
            byte_field_is(v@[0], "Primary Channel"@, decimal(self.primary_channel as nat), None, self.primary_channel),
            self.ht_operation_information.field_shows(v@[1]),
            v@[2].title@ == "Basic HT-MCS Set"@,
            v@[2].bytes matches Some(b) && b@ == self.basic_ht_mcs_set.raw(),
    {
        let mut v: Vec<Field> = Vec::new();
        v.push(byte_field("Primary Channel", u64_text(self.primary_channel as u64), self.primary_channel));
        v.push(self.ht_operation_information.to_field());
        v.push(self.basic_ht_mcs_set.to_field("Basic HT-MCS Set"));
        v
    }
}

} // verus!
