//! The HE Operation element (802.11ax).
use vstd::prelude::*;

use crate::bits::{
    bit_set, bits_value, lemma_bits_value_bound, lemma_two_pow_64, lemma_two_pow_monotone, read_bit,
    read_bits, read_u16_bits, read_u8_bits,
};
use crate::ies::field::{
    bit_field, bit_field_is, bit_field_with_units, reserved_bits, reserved_field_is, BitRange,
    Field,
};
use crate::channel_width::ChannelWidth;
use crate::ies::elements::vht_operation::VhtOperationInformation;
use crate::ies::field::{byte_field, byte_field_is, text_field_is, text_field_with_units};
use crate::ies::he_capabilities::HeMcsMap;
use crate::ies::ht_capabilities::{spatial_streams_string, spatial_streams_text};
use crate::text::{bool_string, bool_text, decimal, owned, paren_decimal, paren_text, u64_text};

verus! {

/// The channel width code of 6 GHz operation information.
#[derive(Debug, Clone, Copy, PartialEq, Eq, Structural, Hash)]
pub enum SixGhzHeChannelWidth {
    TwentyMhz,
    FortyMhz,
    EightyMhz,
    EightyPlusEightyOrOneHundredSixtyMhz,
}

impl SixGhzHeChannelWidth {
    /// The value encoded by a raw code, if the code is defined.
    pub open spec fn spec_from_u8(v: u8) -> Option<SixGhzHeChannelWidth> {
        if v == 0 {
            Some(SixGhzHeChannelWidth::TwentyMhz)
        } else if v == 1 {
            Some(SixGhzHeChannelWidth::FortyMhz)
        } else if v == 2 {
            Some(SixGhzHeChannelWidth::EightyMhz)
        } else if v == 3 {
            Some(SixGhzHeChannelWidth::EightyPlusEightyOrOneHundredSixtyMhz)
        } else {
            None
        }
    }

    /// The raw code of the value.
    pub open spec fn spec_to_u8(self) -> u8 {
        match self {
            SixGhzHeChannelWidth::TwentyMhz => 0,
            SixGhzHeChannelWidth::FortyMhz => 1,
            SixGhzHeChannelWidth::EightyMhz => 2,
            SixGhzHeChannelWidth::EightyPlusEightyOrOneHundredSixtyMhz => 3,
        }
    }

    /// The human-readable text of the value.
    pub open spec fn spec_text(self) -> Seq<char> {
        match self {
            SixGhzHeChannelWidth::TwentyMhz => "20"@,
            SixGhzHeChannelWidth::FortyMhz => "40"@,
            SixGhzHeChannelWidth::EightyMhz => "80"@,
            SixGhzHeChannelWidth::EightyPlusEightyOrOneHundredSixtyMhz => "80+80/160"@,
        }
    }

    /// Decodes a raw code; `None` for an undefined code.
    pub fn from_u8(v: u8) -> (r: Option<SixGhzHeChannelWidth>)
        ensures
            r == Self::spec_from_u8(v),
    {
        match v {
            0 => Some(SixGhzHeChannelWidth::TwentyMhz),
            1 => Some(SixGhzHeChannelWidth::FortyMhz),
            2 => Some(SixGhzHeChannelWidth::EightyMhz),
            3 => Some(SixGhzHeChannelWidth::EightyPlusEightyOrOneHundredSixtyMhz),
            _ => None,
        }
    }

    /// The raw code of the value.
    pub fn to_u8(&self) -> (v: u8)
        ensures
            v == self.spec_to_u8(),
            Self::spec_from_u8(v) == Some(*self),
    {
        match self {
            SixGhzHeChannelWidth::TwentyMhz => 0,
            SixGhzHeChannelWidth::FortyMhz => 1,
            SixGhzHeChannelWidth::EightyMhz => 2,
            SixGhzHeChannelWidth::EightyPlusEightyOrOneHundredSixtyMhz => 3,
        }
    }

    /// The human-readable text of the value.
    pub fn to_string(&self) -> (s: String)
        ensures
            s@ == self.spec_text(),
    {
        match self {
            SixGhzHeChannelWidth::TwentyMhz => String::from_str("20"),
            SixGhzHeChannelWidth::FortyMhz => String::from_str("40"),
            SixGhzHeChannelWidth::EightyMhz => String::from_str("80"),
            SixGhzHeChannelWidth::EightyPlusEightyOrOneHundredSixtyMhz => String::from_str("80+80/160"),
        }
    }
}

/// Decoding a value's own code gives the value back.
pub proof fn lemma_six_ghz_he_channel_width_code_roundtrip(v: SixGhzHeChannelWidth)
    ensures
        SixGhzHeChannelWidth::spec_from_u8(v.spec_to_u8()) == Some(v),
{
}

/// The HE Operation Parameters field of an HE Operation element.
#[derive(Debug, Clone, Copy, PartialEq, Eq, Hash)]
pub struct HeOperationParameters {
    bytes: [u8; 3],
}

impl HeOperationParameters {
    /// The encoded length in bytes.
    pub const LENGTH: usize = 3;

    /// Whether `bytes` (exactly 3 of them) encode a valid value.
    pub open spec fn spec_valid(bytes: Seq<u8>) -> bool {
        bytes.len() == 3
    }

    /// The encoded bytes.
    pub closed spec fn raw(&self) -> Seq<u8> {
        self.bytes@
    }

    /// Every value is encoded in exactly 3 bytes.
    pub proof fn lemma_raw_len(&self)
        ensures
            self.raw().len() == 3,
    {
    }

    /// Decodes the value from the first 3 bytes of `bytes`. `None` when there are fewer
    /// bytes or they do not encode a valid value.
    pub fn from_bytes(bytes: &[u8]) -> (r: Option<HeOperationParameters>)
        ensures
            r is Some <==> bytes@.len() >= 3 && Self::spec_valid(bytes@.subrange(0, 3)),
            r matches Some(v) ==> v.raw() == bytes@.subrange(0, 3),
    {
        if bytes.len() < 3 {
            return None;
        }
        let a: [u8; 3] = [bytes[0], bytes[1], bytes[2]];
        proof {
            assert(a@ =~= bytes@.subrange(0, 3));
        }
        Some(HeOperationParameters { bytes: a })
    }

    /// The encoded bytes.
    pub fn to_bytes(&self) -> (v: Vec<u8>)
        ensures
            v@ == self.raw(),
    {
        vstd::slice::slice_to_vec(self.bytes.as_slice())
    }

    /// The "Default PE Duration" subfield (bits 0-2).
    pub open spec fn spec_default_pe_duration(&self) -> u8 {
        bits_value(self.raw(), 0, 3) as u8
    }

    /// The "Default PE Duration" subfield (bits 0-2).
    pub fn default_pe_duration(&self) -> (v: u8)
        ensures
            v == self.spec_default_pe_duration(),
            v == bits_value(self.raw(), 0, 3),
    {
        read_u8_bits(self.bytes.as_slice(), 0, 3)
    }

    /// The "TWT Required" subfield (bit 3).
    pub open spec fn spec_twt_required(&self) -> bool {
        bit_set(self.raw(), 3)
    }

    /// The "TWT Required" subfield (bit 3).
    pub fn twt_required(&self) -> (b: bool)
        ensures
            b == self.spec_twt_required(),
    {
        read_bit(self.bytes.as_slice(), 3)
    }

    /// The "TXOP Duration RTS Threshold" subfield (bits 4-13).
    pub open spec fn spec_txop_duration_rts_threshold(&self) -> u16 {
        bits_value(self.raw(), 4, 10) as u16
    }

    /// The "TXOP Duration RTS Threshold" subfield (bits 4-13).
    pub fn txop_duration_rts_threshold(&self) -> (v: u16)
        ensures
            v == self.spec_txop_duration_rts_threshold(),
            v == bits_value(self.raw(), 4, 10),
    {
        read_u16_bits(self.bytes.as_slice(), 4, 10)
    }

    /// The "VHT Operation Information Present" subfield (bit 14).
    pub open spec fn spec_vht_operation_information_present(&self) -> bool {
        bit_set(self.raw(), 14)
    }

    /// The "VHT Operation Information Present" subfield (bit 14).
    pub fn vht_operation_information_present(&self) -> (b: bool)
        ensures
            b == self.spec_vht_operation_information_present(),
    {
        read_bit(self.bytes.as_slice(), 14)
    }

    /// The "Co-Hosted BSS" subfield (bit 15).
    pub open spec fn spec_cohosted_bss(&self) -> bool {
        bit_set(self.raw(), 15)
    }

    /// The "Co-Hosted BSS" subfield (bit 15).
    pub fn cohosted_bss(&self) -> (b: bool)
        ensures
            b == self.spec_cohosted_bss(),
    {
        read_bit(self.bytes.as_slice(), 15)
    }

    /// The "ER SU Disable" subfield (bit 16).
    pub open spec fn spec_er_su_disable(&self) -> bool {
        bit_set(self.raw(), 16)
    }

    /// The "ER SU Disable" subfield (bit 16).
    pub fn er_su_disable(&self) -> (b: bool)
        ensures
            b == self.spec_er_su_disable(),
    {
        read_bit(self.bytes.as_slice(), 16)
    }

    /// The "6 GHz Operation Information Present" subfield (bit 17).
    pub open spec fn spec_six_ghz_operation_information_present(&self) -> bool {
        bit_set(self.raw(), 17)
    }

    /// The "6 GHz Operation Information Present" subfield (bit 17).
    pub fn six_ghz_operation_information_present(&self) -> (b: bool)
        ensures
            b == self.spec_six_ghz_operation_information_present(),
    {
        read_bit(self.bytes.as_slice(), 17)
    }

    /// Whether `f` is the displayable field of this value: one subfield per bit field.
    pub open spec fn field_shows(&self, f: Field) -> bool {
        &&& f.title@ == "HE Operation Parameters"@
        &&& f.value@ == ""@
        &&& f.bytes matches Some(b) && b@ == self.raw()
        &&& f.byte is None
        &&& f.bits is None
        &&& f.units is None
        &&& f.subfields@.len() == 8
        &&& bit_field_is(f.subfields@[0], "Default PE Duration"@, decimal(self.spec_default_pe_duration() as nat), None, self.raw(), 0, 3)
        &&& bit_field_is(f.subfields@[1], "TWT Required"@, bool_text(self.spec_twt_required()), None, self.raw(), 3, 1)
        &&& bit_field_is(f.subfields@[2], "TXOP Duration RTS Threshold"@, decimal(self.spec_txop_duration_rts_threshold() as nat), None, self.raw(), 4, 10)
        &&& bit_field_is(f.subfields@[3], "VHT Operation Information Present"@, bool_text(self.spec_vht_operation_information_present()), None, self.raw(), 14, 1)
        &&& bit_field_is(f.subfields@[4], "Co-Hosted BSS"@, bool_text(self.spec_cohosted_bss()), None, self.raw(), 15, 1)
        &&& bit_field_is(f.subfields@[5], "ER SU Disable"@, bool_text(self.spec_er_su_disable()), None, self.raw(), 16, 1)
        &&& bit_field_is(f.subfields@[6], "6 GHz Operation Information Present"@, bool_text(self.spec_six_ghz_operation_information_present()), None, self.raw(), 17, 1)
        &&& reserved_field_is(f.subfields@[7], self.raw(), 18, 6)
    }

    /// The value as a displayable field with one subfield per bit field.
    pub fn to_field(&self) -> (f: Field)
        ensures
            self.field_shows(f),
    {
        let bytes = self.bytes.as_slice();
        let mut subfields: Vec<Field> = Vec::new();
        subfields.push(bit_field("Default PE Duration", u64_text(self.default_pe_duration() as u64), bytes, 0, 3));
        subfields.push(bit_field("TWT Required", bool_string(self.twt_required()), bytes, 3, 1));
        subfields.push(bit_field("TXOP Duration RTS Threshold", u64_text(self.txop_duration_rts_threshold() as u64), bytes, 4, 10));
        subfields.push(bit_field("VHT Operation Information Present", bool_string(self.vht_operation_information_present()), bytes, 14, 1));
        subfields.push(bit_field("Co-Hosted BSS", bool_string(self.cohosted_bss()), bytes, 15, 1));
        subfields.push(bit_field("ER SU Disable", bool_string(self.er_su_disable()), bytes, 16, 1));
        subfields.push(bit_field("6 GHz Operation Information Present", bool_string(self.six_ghz_operation_information_present()), bytes, 17, 1));
        subfields.push(reserved_bits(bytes, 18, 6));
        Field::new("HE Operation Parameters", "").with_bytes(self.to_bytes()).with_subfields(subfields)
    }

}

/// The BSS Color Information field of an HE Operation element.
#[derive(Debug, Clone, Copy, PartialEq, Eq, Hash)]
pub struct BssColorInformation {
    bytes: [u8; 1],
}

impl BssColorInformation {
    /// The encoded length in bytes.
    pub const LENGTH: usize = 1;

    /// Whether `bytes` (exactly 1 of them) encode a valid value.
    pub open spec fn spec_valid(bytes: Seq<u8>) -> bool {
        bytes.len() == 1
    }

    /// The encoded bytes.
    pub closed spec fn raw(&self) -> Seq<u8> {
        self.bytes@
    }

    /// Every value is encoded in exactly 1 bytes.
    pub proof fn lemma_raw_len(&self)
        ensures
            self.raw().len() == 1,
    {
    }

    /// Decodes the value from the first 1 bytes of `bytes`. `None` when there are fewer
    /// bytes or they do not encode a valid value.
    pub fn from_bytes(bytes: &[u8]) -> (r: Option<BssColorInformation>)
        ensures
            r is Some <==> bytes@.len() >= 1 && Self::spec_valid(bytes@.subrange(0, 1)),
            r matches Some(v) ==> v.raw() == bytes@.subrange(0, 1),
    {
        if bytes.len() < 1 {
            return None;
        }
        let a: [u8; 1] = [bytes[0]];
        proof {
            assert(a@ =~= bytes@.subrange(0, 1));
        }
        Some(BssColorInformation { bytes: a })
    }

    /// The encoded bytes.
    pub fn to_bytes(&self) -> (v: Vec<u8>)
        ensures
            v@ == self.raw(),
    {
        vstd::slice::slice_to_vec(self.bytes.as_slice())
    }

    /// The "BSS Color" subfield (bits 0-5).
    pub open spec fn spec_bss_color(&self) -> u8 {
        bits_value(self.raw(), 0, 6) as u8
    }

    /// The "BSS Color" subfield (bits 0-5).
    pub fn bss_color(&self) -> (v: u8)
        ensures
            v == self.spec_bss_color(),
            v == bits_value(self.raw(), 0, 6),
    {
        read_u8_bits(self.bytes.as_slice(), 0, 6)
    }

    /// The "Partial BSS Color" subfield (bit 6).
    pub open spec fn spec_partial_bss_color(&self) -> bool {
        bit_set(self.raw(), 6)
    }

    /// The "Partial BSS Color" subfield (bit 6).
    pub fn partial_bss_color(&self) -> (b: bool)
        ensures
            b == self.spec_partial_bss_color(),
    {
        read_bit(self.bytes.as_slice(), 6)
    }

    /// The "BSS Color Disabled" subfield (bit 7).
    pub open spec fn spec_bss_color_disabled(&self) -> bool {
        bit_set(self.raw(), 7)
    }

    /// The "BSS Color Disabled" subfield (bit 7).
    pub fn bss_color_disabled(&self) -> (b: bool)
        ensures
            b == self.spec_bss_color_disabled(),
    {
        read_bit(self.bytes.as_slice(), 7)
    }

    /// Whether `f` is the displayable field of this value: one subfield per bit field.
    pub open spec fn field_shows(&self, f: Field) -> bool {
        &&& f.title@ == "BSS Color Information"@
        &&& f.value@ == ""@
        &&& f.byte == Some(self.raw()[0])
        &&& f.bytes is None
        &&& f.bits is None
        &&& f.units is None
        &&& f.subfields@.len() == 3
        &&& bit_field_is(f.subfields@[0], "BSS Color"@, decimal(self.spec_bss_color() as nat), None, self.raw(), 0, 6)
        &&& bit_field_is(f.subfields@[1], "Partial BSS Color"@, bool_text(self.spec_partial_bss_color()), None, self.raw(), 6, 1)
        &&& bit_field_is(f.subfields@[2], "BSS Color Disabled"@, bool_text(self.spec_bss_color_disabled()), None, self.raw(), 7, 1)
    }

    /// The value as a displayable field with one subfield per bit field.
    pub fn to_field(&self) -> (f: Field)
        ensures
            self.field_shows(f),
    {
        let bytes = self.bytes.as_slice();
        let mut subfields: Vec<Field> = Vec::new();
        subfields.push(bit_field("BSS Color", u64_text(self.bss_color() as u64), bytes, 0, 6));
        subfields.push(bit_field("Partial BSS Color", bool_string(self.partial_bss_color()), bytes, 6, 1));
        subfields.push(bit_field("BSS Color Disabled", bool_string(self.bss_color_disabled()), bytes, 7, 1));
        Field::new("BSS Color Information", "").with_byte(self.bytes[0]).with_subfields(subfields)
    }

}

/// The Control field of 6 GHz operation information.
#[derive(Debug, Clone, Copy, PartialEq, Eq, Hash)]
pub struct Control {
    bytes: [u8; 1],
}

impl Control {
    /// The encoded length in bytes.
    pub const LENGTH: usize = 1;

    /// Whether `bytes` (exactly 1 of them) encode a valid value.
    pub open spec fn spec_valid(bytes: Seq<u8>) -> bool {
        &&& bytes.len() == 1
        &&& SixGhzHeChannelWidth::spec_from_u8(bits_value(bytes, 0, 2) as u8) is Some
    }

    /// The encoded bytes.
    pub closed spec fn raw(&self) -> Seq<u8> {
        self.bytes@
    }

    /// Every value is encoded in exactly 1 bytes.
    pub proof fn lemma_raw_len(&self)
        ensures
            self.raw().len() == 1,
    {
    }

    /// Decodes the value from the first 1 bytes of `bytes`. `None` when there are fewer
    /// bytes or they do not encode a valid value.
    pub fn from_bytes(bytes: &[u8]) -> (r: Option<Control>)
        ensures
            r is Some <==> bytes@.len() >= 1 && Self::spec_valid(bytes@.subrange(0, 1)),
            r matches Some(v) ==> v.raw() == bytes@.subrange(0, 1),
    {
        if bytes.len() < 1 {
            return None;
        }
        let a: [u8; 1] = [bytes[0]];
        proof {
            assert(a@ =~= bytes@.subrange(0, 1));
        }
        if SixGhzHeChannelWidth::from_u8(read_u8_bits(a.as_slice(), 0, 2)).is_none() {
            return None;
        }
        Some(Control { bytes: a })
    }

    /// The encoded bytes.
    pub fn to_bytes(&self) -> (v: Vec<u8>)
        ensures
            v@ == self.raw(),
    {
        vstd::slice::slice_to_vec(self.bytes.as_slice())
    }

    /// The channel width subfield (bits 0-1).
    pub open spec fn spec_channel_width(&self) -> SixGhzHeChannelWidth {
        match SixGhzHeChannelWidth::spec_from_u8(bits_value(self.raw(), 0, 2) as u8) {
            Some(v) => v,
            None => SixGhzHeChannelWidth::TwentyMhz,
        }
    }

    /// The channel width subfield (bits 0-1).
    pub fn channel_width(&self) -> (v: SixGhzHeChannelWidth)
        ensures
            v == self.spec_channel_width(),
    {
        match SixGhzHeChannelWidth::from_u8(read_u8_bits(self.bytes.as_slice(), 0, 2)) {
            Some(v) => v,
            None => SixGhzHeChannelWidth::TwentyMhz,
        }
    }

    /// The duplicate beacon subfield (bit 2).
    pub open spec fn spec_duplicate_beacon(&self) -> bool {
        bit_set(self.raw(), 2)
    }

    /// The duplicate beacon subfield (bit 2).
    pub fn duplicate_beacon(&self) -> (b: bool)
        ensures
            b == self.spec_duplicate_beacon(),
    {
        read_bit(self.bytes.as_slice(), 2)
    }

    /// The regulatory info subfield (bits 3-5).
    pub open spec fn spec_regulatory_info(&self) -> u8 {
        bits_value(self.raw(), 3, 3) as u8
    }

    /// The regulatory info subfield (bits 3-5).
    pub fn regulatory_info(&self) -> (v: u8)
        ensures
            v == self.spec_regulatory_info(),
            v == bits_value(self.raw(), 3, 3),
    {
        read_u8_bits(self.bytes.as_slice(), 3, 3)
    }


    /// Whether `f` is the displayable field of this value: channel width, duplicate beacon and
    /// regulatory info, shown without bit ranges.
    pub open spec fn field_shows(&self, f: Field) -> bool {
        &&& f.title@ == "Control"@
        &&& f.value@ == ""@
        &&& f.byte == Some(self.raw()[0])
        &&& f.bytes is None
        &&& f.bits is None
        &&& f.units is None
        &&& f.subfields@.len() == 3
        &&& text_field_is(f.subfields@[0], "Channel Width"@, self.spec_channel_width().spec_text(), Some("MHz"@))
        &&& text_field_is(f.subfields@[1], "Duplicate Beacon"@, bool_text(self.spec_duplicate_beacon()), None)
        &&& text_field_is(f.subfields@[2], "Regulatory Info"@, decimal(self.spec_regulatory_info() as nat), None)
    }

    /// The value as a displayable field.
    pub fn to_field(&self) -> (f: Field)
        ensures
            self.field_shows(f),
    {
        let mut sub: Vec<Field> = Vec::new();
        sub.push(text_field_with_units("Channel Width", self.channel_width().to_string(), "MHz"));
        sub.push(Field::text("Duplicate Beacon", bool_string(self.duplicate_beacon())));
        sub.push(Field::text("Regulatory Info", u64_text(self.regulatory_info() as u64)));
        Field::new("Control", "").with_byte(self.bytes[0]).with_subfields(sub)
    }

}

/// The 6 GHz Operation Information field of an HE Operation element.
#[derive(Debug, Clone, Copy, PartialEq, Eq, Hash)]
pub struct SixGhzOperationInformation {
    pub primary_channel: u8,
    pub control: Control,
    pub channel_center_frequency_segment_0: u8,
    pub channel_center_frequency_segment_1: u8,
    pub minimum_rate: u8,
}

impl SixGhzOperationInformation {
    /// The channel width of 6 GHz operation information is the one its Control field names:
    /// for 20, 40 and 80 MHz that width, and for the 80+80/160 MHz code 160 MHz when the two
    /// segments are 8 channels (40 MHz) apart and 80+80 MHz otherwise.
    pub proof fn lemma_channel_width_is_control_width(&self)
        ensures
            self.control.spec_channel_width() != SixGhzHeChannelWidth::EightyPlusEightyOrOneHundredSixtyMhz ==>
                self.spec_channel_width().spec_text() == self.control.spec_channel_width().spec_text() + " MHz"@,
            self.control.spec_channel_width() == SixGhzHeChannelWidth::EightyPlusEightyOrOneHundredSixtyMhz ==> {
                let s0 = self.channel_center_frequency_segment_0;
                let s1 = self.channel_center_frequency_segment_1;
                &&& (self.spec_channel_width() == ChannelWidth::OneSixtyMhz <==> (s1 - s0 == 8 || s0 - s1 == 8))
                &&& (self.spec_channel_width() == ChannelWidth::OneSixtyMhz
                    || self.spec_channel_width() == ChannelWidth::EightyPlusEightyMhz)
            },
    {
        reveal_strlit("20");
        reveal_strlit("40");
        reveal_strlit("80");
        reveal_strlit(" MHz");
        reveal_strlit("20 MHz");
        reveal_strlit("40 MHz");
        reveal_strlit("80 MHz");
        let t = self.control.spec_channel_width().spec_text() + " MHz"@;
        match self.control.spec_channel_width() {
            SixGhzHeChannelWidth::TwentyMhz => assert(t =~= "20 MHz"@),
            SixGhzHeChannelWidth::FortyMhz => assert(t =~= "40 MHz"@),
            SixGhzHeChannelWidth::EightyMhz => assert(t =~= "80 MHz"@),
            _ => {},
        }
    }
}

impl SixGhzOperationInformation {
    /// The encoded length in bytes.
    pub const LENGTH: usize = 5;

    /// Whether `bytes` (exactly 5 of them) encode a valid value.
    pub open spec fn spec_valid(bytes: Seq<u8>) -> bool {
        &&& bytes.len() == 5
        &&& Control::spec_valid(bytes.subrange(1, 2))
    }

    /// The encoded bytes: the parts in order.
    pub open spec fn raw(&self) -> Seq<u8> {
        seq![self.primary_channel] + self.control.raw() + seq![self.channel_center_frequency_segment_0] + seq![self.channel_center_frequency_segment_1] + seq![self.minimum_rate]
    }

    /// Decodes the value from the first 5 bytes of `bytes`. `None` when there are fewer
    /// bytes or they do not encode a valid value.
    pub fn from_bytes(bytes: &[u8]) -> (r: Option<SixGhzOperationInformation>)
        ensures
            r is Some <==> bytes@.len() >= 5 && Self::spec_valid(bytes@.subrange(0, 5)),
            r matches Some(v) ==> v.raw() == bytes@.subrange(0, 5),
    {
        if bytes.len() < 5 {
            return None;
        }
        let b = vstd::slice::slice_subrange(bytes, 0, 5);
        let primary_channel = b[0];
        let control = match Control::from_bytes(vstd::slice::slice_subrange(b, 1, 2)) {
            Some(v) => v,
            None => {
                proof {
                    assert(b@.subrange(1, 2).subrange(0, 1) =~= b@.subrange(1, 2));
                }
                return None;
            },
        };
        let channel_center_frequency_segment_0 = b[2];
        let channel_center_frequency_segment_1 = b[3];
        let minimum_rate = b[4];
        let v = SixGhzOperationInformation { primary_channel, control, channel_center_frequency_segment_0, channel_center_frequency_segment_1, minimum_rate };
        proof {
            assert(b@.subrange(1, 2).subrange(0, 1) =~= b@.subrange(1, 2));
            control.lemma_raw_len();
            assert(v.raw() =~= b@);
        }
        Some(v)
    }

    /// Every value is encoded in exactly 5 bytes.
    pub proof fn lemma_raw_len(&self)
        ensures
            self.raw().len() == 5,
    {
        self.control.lemma_raw_len();
    }

    /// The encoded bytes.
    pub fn to_bytes(&self) -> (v: Vec<u8>)
        ensures
            v@ == self.raw(),
    {
        let mut v: Vec<u8> = Vec::new();
        v.push(self.primary_channel);
        let mut p = self.control.to_bytes();
        v.append(&mut p);
        v.push(self.channel_center_frequency_segment_0);
        v.push(self.channel_center_frequency_segment_1);
        v.push(self.minimum_rate);
        proof {
            assert(v@ =~= self.raw());
        }
        v
    }
    /// Whether `f` is the displayable field of this value.
    pub open spec fn field_shows(&self, f: Field) -> bool {
        &&& f.title@ == "6 GHz Operation Information"@
        &&& f.value@ == ""@
        &&& f.bytes matches Some(b) && b@ == self.raw()
        &&& f.byte is None
        &&& f.bits is None
        &&& f.units is None
        &&& f.subfields@.len() == 4
        &&& byte_field_is(f.subfields@[0], "Primary Channel"@, decimal(self.primary_channel as nat), None, self.primary_channel)
        &&& self.control.field_shows(f.subfields@[1])
        &&& byte_field_is(f.subfields@[2], "Channel Center Frequency Segment 0"@, decimal(self.channel_center_frequency_segment_0 as nat), None, self.channel_center_frequency_segment_0)
        &&& byte_field_is(f.subfields@[3], "Channel Center Frequency Segment 1"@, decimal(self.channel_center_frequency_segment_1 as nat), None, self.channel_center_frequency_segment_1)
    }

    /// The value as a displayable field (the minimum rate is not shown).
    pub fn to_field(&self) -> (f: Field)
        ensures
            self.field_shows(f),
    {
        let mut sub: Vec<Field> = Vec::new();
        sub.push(byte_field("Primary Channel", u64_text(self.primary_channel as u64), self.primary_channel));
        sub.push(self.control.to_field());
        sub.push(byte_field("Channel Center Frequency Segment 0", u64_text(self.channel_center_frequency_segment_0 as u64), self.channel_center_frequency_segment_0));
        sub.push(byte_field("Channel Center Frequency Segment 1", u64_text(self.channel_center_frequency_segment_1 as u64), self.channel_center_frequency_segment_1));
        Field::new("6 GHz Operation Information", "").with_bytes(self.to_bytes()).with_subfields(sub)
    }

    /// The channel width the 6 GHz information describes: the control width, with the
    /// combined 80+80/160 code read as 160 MHz when the segments are 8 channels apart.
    pub open spec fn spec_channel_width(&self) -> ChannelWidth {
        let s0 = self.channel_center_frequency_segment_0;
        let s1 = self.channel_center_frequency_segment_1;
        match self.control.spec_channel_width() {
            SixGhzHeChannelWidth::TwentyMhz => ChannelWidth::TwentyMhz,
            SixGhzHeChannelWidth::FortyMhz => ChannelWidth::FortyMhz,
            SixGhzHeChannelWidth::EightyMhz => ChannelWidth::EightyMhz,
            SixGhzHeChannelWidth::EightyPlusEightyOrOneHundredSixtyMhz => if s1 - s0 == 8 || s0 - s1 == 8 {
                ChannelWidth::OneSixtyMhz
            } else {
                ChannelWidth::EightyPlusEightyMhz
            },
        }
    }

    /// The channel width the 6 GHz information describes.
    pub fn channel_width(&self) -> (w: ChannelWidth)
        ensures
            w == self.spec_channel_width(),
    {
        match self.control.channel_width() {
            SixGhzHeChannelWidth::TwentyMhz => ChannelWidth::TwentyMhz,
            SixGhzHeChannelWidth::FortyMhz => ChannelWidth::FortyMhz,
            SixGhzHeChannelWidth::EightyMhz => ChannelWidth::EightyMhz,
            SixGhzHeChannelWidth::EightyPlusEightyOrOneHundredSixtyMhz => {
                let s0 = self.channel_center_frequency_segment_0;
                let s1 = self.channel_center_frequency_segment_1;
                let diff = if s1 >= s0 {
                    s1 - s0
                } else {
                    s0 - s1
                };
                if diff == 8 {
                    ChannelWidth::OneSixtyMhz
                } else {
                    ChannelWidth::EightyPlusEightyMhz
                }
            },
        }
    }
}

/// The layout of an HE Operation body: parameters (3 bytes), BSS color (1), basic HE-MCS map
/// (2), then the VHT operation information (3), the max co-hosted BSSID indicator (1) and the
/// 6 GHz operation information (5), each when the parameters announce it.
pub open spec fn spec_he_operation_len(params: Seq<u8>) -> nat {
    6 + (if bit_set(params, 14) { 3nat } else { 0nat }) + (if bit_set(params, 15) { 1nat } else { 0nat })
        + (if bit_set(params, 17) { 5nat } else { 0nat })
}

/// Whether `b` is a well-formed HE Operation body: long enough for the parts its parameters
/// announce, with defined codes in each.
pub open spec fn spec_he_operation_valid(b: Seq<u8>) -> bool {
    let p = b.subrange(0, 3);
    let o1 = 6 + if bit_set(p, 14) { 3int } else { 0int };
    let o2 = o1 + if bit_set(p, 15) { 1int } else { 0int };
    &&& b.len() >= 6
    &&& b.len() >= spec_he_operation_len(p)
    &&& HeOperationParameters::spec_valid(p)
    &&& BssColorInformation::spec_valid(b.subrange(3, 4))
    &&& HeMcsMap::spec_valid(b.subrange(4, 6))
    &&& bit_set(p, 14) ==> VhtOperationInformation::spec_valid(b.subrange(6, 9))
    &&& bit_set(p, 17) ==> SixGhzOperationInformation::spec_valid(b.subrange(o2, o2 + 5))
}

/// An HE Operation element: how an 802.11ax access point operates.
#[derive(Debug, Clone, PartialEq, Eq, Hash)]
pub struct HeOperation {
    pub he_operation_parameters: HeOperationParameters,
    pub bss_color_information: BssColorInformation,
    pub basic_he_mcs_and_nss_set: HeMcsMap,
    pub vht_operation_information: Option<VhtOperationInformation>,
    pub max_cohosted_bssid_indicator: Option<u8>,
    pub six_ghz_operation_information: Option<SixGhzOperationInformation>,
}

impl HeOperation {
    pub const LENGTH: usize = 22;
    pub const NAME: &'static str = "HE Operation";
    pub const ID: u8 = 255;

    /// The element ID extension.
    pub fn id_ext() -> (r: Option<u8>)
        ensures
            r == Some(36u8),
    {
        Some(36)
    }

    /// The element's parts are the ones encoded in `b`.
    pub open spec fn spec_parsed_from(&self, b: Seq<u8>) -> bool {
        let p = self.he_operation_parameters;
        let o1 = 6 + if p.spec_vht_operation_information_present() { 3int } else { 0int };
        let o2 = o1 + if p.spec_cohosted_bss() { 1int } else { 0int };
        &&& p.raw() == b.subrange(0, 3)
        &&& self.bss_color_information.raw() == b.subrange(3, 4)
        &&& self.basic_he_mcs_and_nss_set.raw() == b.subrange(4, 6)
        &&& (self.vht_operation_information is Some <==> p.spec_vht_operation_information_present())
        &&& (self.vht_operation_information matches Some(v) ==> v.raw() == b.subrange(6, 9))
        &&& (self.max_cohosted_bssid_indicator is Some <==> p.spec_cohosted_bss())
        &&& (self.max_cohosted_bssid_indicator matches Some(x) ==> x == b[o1])
        &&& (self.six_ghz_operation_information is Some <==> p.spec_six_ghz_operation_information_present())
        &&& (self.six_ghz_operation_information matches Some(v) ==> v.raw() == b.subrange(o2, o2 + 5))
    }

    /// Parses the element body. `None` when it is shorter than the parts it announces or the
    /// VHT or 6 GHz information holds an undefined width code.
    pub fn from_bytes(bytes: &[u8]) -> (r: Option<HeOperation>)
        ensures
            r is Some <==> spec_he_operation_valid(bytes@),
            r matches Some(c) ==> c.spec_parsed_from(bytes@),
    {
        if bytes.len() < 6 {
            return None;
        }
        proof {
            assert(bytes@.subrange(0, 3).subrange(0, 3) =~= bytes@.subrange(0, 3));
            assert(bytes@.subrange(3, 4).subrange(0, 1) =~= bytes@.subrange(3, 4));
            assert(bytes@.subrange(4, 6).subrange(0, 2) =~= bytes@.subrange(4, 6));
        }
        let params = match HeOperationParameters::from_bytes(vstd::slice::slice_subrange(bytes, 0, 3)) {
            Some(v) => v,
            None => return None,
        };
        let color = match BssColorInformation::from_bytes(vstd::slice::slice_subrange(bytes, 3, 4)) {
            Some(v) => v,
            None => return None,
        };
        let map = match HeMcsMap::from_bytes(vstd::slice::slice_subrange(bytes, 4, 6)) {
            Some(v) => v,
            None => return None,
        };
        let mut pos: usize = 6;
        let vht = if params.vht_operation_information_present() {
            if bytes.len() < pos + 3 {
                return None;
            }
            let s = vstd::slice::slice_subrange(bytes, pos, pos + 3);
            proof {
                assert(s@.subrange(0, 3) =~= s@);
            }
            match VhtOperationInformation::from_bytes(s) {
                Some(v) => {
                    pos = pos + 3;
                    Some(v)
                },
                None => return None,
            }
        } else {
            None
        };
        let cohosted = if params.cohosted_bss() {
            if bytes.len() < pos + 1 {
                return None;
            }
            let x = bytes[pos];
            pos = pos + 1;
            Some(x)
        } else {
            None
        };
        let six = if params.six_ghz_operation_information_present() {
            if bytes.len() < pos + 5 {
                return None;
            }
            let s = vstd::slice::slice_subrange(bytes, pos, pos + 5);
            proof {
                assert(s@.subrange(0, 5) =~= s@);
            }
            match SixGhzOperationInformation::from_bytes(s) {
                Some(v) => Some(v),
                None => return None,
            }
        } else {
            None
        };
        Some(
            HeOperation {
                he_operation_parameters: params,
                bss_color_information: color,
                basic_he_mcs_and_nss_set: map,
                vht_operation_information: vht,
                max_cohosted_bssid_indicator: cohosted,
                six_ghz_operation_information: six,
            },
        )
    }

    /// The channel width the element describes: from the 6 GHz information when present,
    /// else from the VHT information when present, else unknown.
    pub open spec fn spec_channel_width(&self) -> Option<ChannelWidth> {
        match self.six_ghz_operation_information {
            Some(s) => Some(s.spec_channel_width()),
            None => match self.vht_operation_information {
                Some(v) => v.spec_channel_width(),
                None => None,
            },
        }
    }

    /// The channel width the element describes: from the 6 GHz information when present,
    /// else from the VHT information when present, else `None`.
    pub fn channel_width(&self) -> (w: Option<ChannelWidth>)
        ensures
            w == self.spec_channel_width(),
    {
        if let Some(s) = &self.six_ghz_operation_information {
            return Some(s.channel_width());
        }
        if let Some(v) = &self.vht_operation_information {
            return v.channel_width();
        }
        None
    }

    /// The one-line summary: spatial streams of the basic MCS map and the BSS color.
    pub open spec fn spec_summary(&self) -> Seq<char> {
        spatial_streams_text(self.basic_he_mcs_and_nss_set.spec_max_spatial_streams()) + ", BSS Color: "@
            + decimal(self.bss_color_information.spec_bss_color() as nat)
    }

    /// A one-line summary, for example `1 Spatial Stream, BSS Color: 12`.
    pub fn summary(&self) -> (s: String)
        ensures
            s@ == self.spec_summary(),
    {
        let mut s = spatial_streams_string(self.basic_he_mcs_and_nss_set.max_spatial_streams());
        s.append(", BSS Color: ");
        s.append(u64_text(self.bss_color_information.bss_color() as u64).as_str());
        s
    }

    /// The element's fields: parameters, BSS color and basic MCS map, then the optional parts
    /// that are present.
    pub fn fields(&self) -> (v: Vec<Field>)
        ensures
            v@.len() == 3 + (if self.vht_operation_information is Some { 1int } else { 0int })
                + (if self.max_cohosted_bssid_indicator is Some { 1int } else { 0int })
                + (if self.six_ghz_operation_information is Some { 1int } else { 0int }),
            self.he_operation_parameters.field_shows(v@[0]),
            self.bss_color_information.field_shows(v@[1]),
            self.basic_he_mcs_and_nss_set.field_shows(v@[2], "Basic HE-MCS and NSS Set"@),
            self.vht_operation_information matches Some(i) ==> i.field_shows(v@[3]),
            self.max_cohosted_bssid_indicator matches Some(x) ==> byte_field_is(
                v@[3 + if self.vht_operation_information is Some { 1int } else { 0int }],
                "Max Co-Hosted BSSID Indicator"@,
                decimal(x as nat),
                None,
                x,
            ),
            self.six_ghz_operation_information matches Some(i) ==> i.field_shows(v@[v@.len() - 1]),
    {
        let mut v: Vec<Field> = Vec::new();
        v.push(self.he_operation_parameters.to_field());
        v.push(self.bss_color_information.to_field());
        v.push(self.basic_he_mcs_and_nss_set.to_field("Basic HE-MCS and NSS Set"));
        if let Some(i) = self.vht_operation_information {
            v.push(i.to_field());
        }
        if let Some(x) = self.max_cohosted_bssid_indicator {
            v.push(byte_field("Max Co-Hosted BSSID Indicator", u64_text(x as u64), x));
        }
        if let Some(i) = self.six_ghz_operation_information {
            v.push(i.to_field());
        }
        v
    }
}

} // verus!
