//! The EHT Operation element (802.11be).
use vstd::prelude::*;

use crate::bits::{
    bit_set, bits_value, lemma_bits_value_bound, lemma_two_pow_64, lemma_two_pow_monotone, read_bit,
    read_bits, read_u16_bits, read_u8_bits,
};
use crate::ies::field::{
    bit_field, bit_field_is, bit_field_with_units, reserved_bits, reserved_field_is, BitRange,
    Field,
};
use crate::bits::{le_bytes_u16, le_u16, read_le_u16, u16_le_bytes};
use crate::channel_width::ChannelWidth;
use crate::ies::elements::eht_capabilities::{nss_string, nss_text, nss_units, nss_units_str};
use crate::ies::field::{byte_field, byte_field_is};
use crate::text::{bool_string, bool_text, decimal, owned, paren_decimal, paren_text, u64_text};

verus! {

/// The channel width code of an EHT Operation element.
#[derive(Debug, Clone, Copy, PartialEq, Eq, Structural, Hash)]
pub enum EhtChannelWidth {
    TwentyMhz,
    FortyMhz,
    EightyMhz,
    OneHundredSixtyMhz,
    ThreeHundredTwentyMhz,
}

impl EhtChannelWidth {
    /// The value encoded by a raw code, if the code is defined.
    pub open spec fn spec_from_u8(v: u8) -> Option<EhtChannelWidth> {
        if v == 0 {
            Some(EhtChannelWidth::TwentyMhz)
        } else if v == 1 {
            Some(EhtChannelWidth::FortyMhz)
        } else if v == 2 {
            Some(EhtChannelWidth::EightyMhz)
        } else if v == 3 {
            Some(EhtChannelWidth::OneHundredSixtyMhz)
        } else if v == 4 {
            Some(EhtChannelWidth::ThreeHundredTwentyMhz)
        } else {
            None
        }
    }

    /// The raw code of the value.
    pub open spec fn spec_to_u8(self) -> u8 {
        match self {
            EhtChannelWidth::TwentyMhz => 0,
            EhtChannelWidth::FortyMhz => 1,
            EhtChannelWidth::EightyMhz => 2,
            EhtChannelWidth::OneHundredSixtyMhz => 3,
            EhtChannelWidth::ThreeHundredTwentyMhz => 4,
        }
    }

    /// The human-readable text of the value.
    pub open spec fn spec_text(self) -> Seq<char> {
        match self {
            EhtChannelWidth::TwentyMhz => "20"@,
            EhtChannelWidth::FortyMhz => "40"@,
            EhtChannelWidth::EightyMhz => "80"@,
            EhtChannelWidth::OneHundredSixtyMhz => "160"@,
            EhtChannelWidth::ThreeHundredTwentyMhz => "320"@,
        }
    }

    /// Decodes a raw code; `None` for an undefined code.
    pub fn from_u8(v: u8) -> (r: Option<EhtChannelWidth>)
        ensures
            r == Self::spec_from_u8(v),
    {
        match v {
            0 => Some(EhtChannelWidth::TwentyMhz),
            1 => Some(EhtChannelWidth::FortyMhz),
            2 => Some(EhtChannelWidth::EightyMhz),
            3 => Some(EhtChannelWidth::OneHundredSixtyMhz),
            4 => Some(EhtChannelWidth::ThreeHundredTwentyMhz),
            _ => None,
        }
    }

    /// The raw code of the value.
    pub fn to_u8(&self) -> (v: u8)
        ensures
            v == self.spec_to_u8(),
            Self::spec_from_u8(v) == Some(*self),
    {
        match self {
            EhtChannelWidth::TwentyMhz => 0,
            EhtChannelWidth::FortyMhz => 1,
            EhtChannelWidth::EightyMhz => 2,
            EhtChannelWidth::OneHundredSixtyMhz => 3,
            EhtChannelWidth::ThreeHundredTwentyMhz => 4,
        }
    }

    /// The human-readable text of the value.
    pub fn to_string(&self) -> (s: String)
        ensures
            s@ == self.spec_text(),
    {
        match self {
            EhtChannelWidth::TwentyMhz => String::from_str("20"),
            EhtChannelWidth::FortyMhz => String::from_str("40"),
            EhtChannelWidth::EightyMhz => String::from_str("80"),
            EhtChannelWidth::OneHundredSixtyMhz => String::from_str("160"),
            EhtChannelWidth::ThreeHundredTwentyMhz => String::from_str("320"),
        }
    }
}

/// Decoding a value's own code gives the value back.
pub proof fn lemma_eht_channel_width_code_roundtrip(v: EhtChannelWidth)
    ensures
        EhtChannelWidth::spec_from_u8(v.spec_to_u8()) == Some(v),
{
}

/// The EHT Operation Parameters field of an EHT Operation element.
#[derive(Debug, Clone, Copy, PartialEq, Eq, Hash)]
pub struct EhtOperationParameters {
    bytes: [u8; 1],
}

impl EhtOperationParameters {
    /// The encoded length in bytes.
    pub const LENGTH: usize = 1;

    /// Whether `bytes` (exactly 1 of them) encode a valid value.
    pub open spec fn spec_valid(bytes: Seq<u8>) -> bool {
        bytes.len() == 1
    }

    /// The encoded bytes.
    pub closed spec fn raw(&self) -> Seq<u8> {
        self.bytes@
    }

    /// Every value is encoded in exactly 1 bytes.
    pub proof fn lemma_raw_len(&self)
        ensures
            self.raw().len() == 1,
    {
    }

    /// Decodes the value from the first 1 bytes of `bytes`. `None` when there are fewer
    /// bytes or they do not encode a valid value.
    pub fn from_bytes(bytes: &[u8]) -> (r: Option<EhtOperationParameters>)
        ensures
            r is Some <==> bytes@.len() >= 1 && Self::spec_valid(bytes@.subrange(0, 1)),
            r matches Some(v) ==> v.raw() == bytes@.subrange(0, 1),
    {
        if bytes.len() < 1 {
            return None;
        }
        let a: [u8; 1] = [bytes[0]];
        proof {
            assert(a@ =~= bytes@.subrange(0, 1));
        }
        Some(EhtOperationParameters { bytes: a })
    }

    /// The encoded bytes.
    pub fn to_bytes(&self) -> (v: Vec<u8>)
        ensures
            v@ == self.raw(),
    {
        vstd::slice::slice_to_vec(self.bytes.as_slice())
    }

    /// The "EHT Operation Information Present" subfield (bit 0).
    pub open spec fn spec_eht_operation_information_present(&self) -> bool {
        bit_set(self.raw(), 0)
    }

    /// The "EHT Operation Information Present" subfield (bit 0).
    pub fn eht_operation_information_present(&self) -> (b: bool)
        ensures
            b == self.spec_eht_operation_information_present(),
    {
        read_bit(self.bytes.as_slice(), 0)
    }

    /// The "Disabled Subchannel Bitmap Present" subfield (bit 1).
    pub open spec fn spec_disabled_subchannel_bitmap_present(&self) -> bool {
        bit_set(self.raw(), 1)
    }

    /// The "Disabled Subchannel Bitmap Present" subfield (bit 1).
    pub fn disabled_subchannel_bitmap_present(&self) -> (b: bool)
        ensures
            b == self.spec_disabled_subchannel_bitmap_present(),
    {
        read_bit(self.bytes.as_slice(), 1)
    }

    /// The "EHT Default PE Duration" subfield (bit 2).
    pub open spec fn spec_eht_default_pe_duration(&self) -> bool {
        bit_set(self.raw(), 2)
    }

    /// The "EHT Default PE Duration" subfield (bit 2).
    pub fn eht_default_pe_duration(&self) -> (b: bool)
        ensures
            b == self.spec_eht_default_pe_duration(),
    {
        read_bit(self.bytes.as_slice(), 2)
    }

    /// The "Group Addressed BU Indication Limit" subfield (bit 3).
    pub open spec fn spec_group_addressed_bu_indication_limit(&self) -> bool {
        bit_set(self.raw(), 3)
    }

    /// The "Group Addressed BU Indication Limit" subfield (bit 3).
    pub fn group_addressed_bu_indication_limit(&self) -> (b: bool)
        ensures
            b == self.spec_group_addressed_bu_indication_limit(),
    {
        read_bit(self.bytes.as_slice(), 3)
    }

    /// The "Group Addressed BU Indication Exponent" subfield (bits 4-5).
    pub open spec fn spec_group_addressed_bu_indication_exponent(&self) -> u8 {
        bits_value(self.raw(), 4, 2) as u8
    }

    /// The "Group Addressed BU Indication Exponent" subfield (bits 4-5).
    pub fn group_addressed_bu_indication_exponent(&self) -> (v: u8)
        ensures
            v == self.spec_group_addressed_bu_indication_exponent(),
            v == bits_value(self.raw(), 4, 2),
    {
        read_u8_bits(self.bytes.as_slice(), 4, 2)
    }

    /// The "MCS15 Disable" subfield (bit 6).
    pub open spec fn spec_mcs15_disable(&self) -> bool {
        bit_set(self.raw(), 6)
    }

    /// The "MCS15 Disable" subfield (bit 6).
    pub fn mcs15_disable(&self) -> (b: bool)
        ensures
            b == self.spec_mcs15_disable(),
    {
        read_bit(self.bytes.as_slice(), 6)
    }

    /// Whether `f` is the displayable field of this value: one subfield per bit field.
    pub open spec fn field_shows(&self, f: Field) -> bool {
        &&& f.title@ == "EHT Operation Parameters"@
        &&& f.value@ == ""@
        &&& f.byte == Some(self.raw()[0])
        &&& f.bytes is None
        &&& f.bits is None
        &&& f.units is None
        &&& f.subfields@.len() == 7
        &&& bit_field_is(f.subfields@[0], "EHT Operation Information Present"@, bool_text(self.spec_eht_operation_information_present()), None, self.raw(), 0, 1)
        &&& bit_field_is(f.subfields@[1], "Disabled Subchannel Bitmap Present"@, bool_text(self.spec_disabled_subchannel_bitmap_present()), None, self.raw(), 1, 1)
        &&& bit_field_is(f.subfields@[2], "EHT Default PE Duration"@, bool_text(self.spec_eht_default_pe_duration()), None, self.raw(), 2, 1)
        &&& bit_field_is(f.subfields@[3], "Group Addressed BU Indication Limit"@, bool_text(self.spec_group_addressed_bu_indication_limit()), None, self.raw(), 3, 1)
        &&& bit_field_is(f.subfields@[4], "Group Addressed BU Indication Exponent"@, decimal(self.spec_group_addressed_bu_indication_exponent() as nat), None, self.raw(), 4, 2)
        &&& bit_field_is(f.subfields@[5], "MCS15 Disable"@, bool_text(self.spec_mcs15_disable()), None, self.raw(), 6, 1)
        &&& reserved_field_is(f.subfields@[6], self.raw(), 7, 1)
    }

    /// The value as a displayable field with one subfield per bit field.
    pub fn to_field(&self) -> (f: Field)
        ensures
            self.field_shows(f),
    {
        let bytes = self.bytes.as_slice();
        let mut subfields: Vec<Field> = Vec::new();
        subfields.push(bit_field("EHT Operation Information Present", bool_string(self.eht_operation_information_present()), bytes, 0, 1));
        subfields.push(bit_field("Disabled Subchannel Bitmap Present", bool_string(self.disabled_subchannel_bitmap_present()), bytes, 1, 1));
        subfields.push(bit_field("EHT Default PE Duration", bool_string(self.eht_default_pe_duration()), bytes, 2, 1));
        subfields.push(bit_field("Group Addressed BU Indication Limit", bool_string(self.group_addressed_bu_indication_limit()), bytes, 3, 1));
        subfields.push(bit_field("Group Addressed BU Indication Exponent", u64_text(self.group_addressed_bu_indication_exponent() as u64), bytes, 4, 2));
        subfields.push(bit_field("MCS15 Disable", bool_string(self.mcs15_disable()), bytes, 6, 1));
        subfields.push(reserved_bits(bytes, 7, 1));
        Field::new("EHT Operation Parameters", "").with_byte(self.bytes[0]).with_subfields(subfields)
    }

}

/// The Basic EHT-MCS and NSS Set of an EHT Operation element: per MCS range, the stream counts every station must support.
#[derive(Debug, Clone, Copy, PartialEq, Eq, Hash)]
pub struct BasicEhtMcsAndNssSet {
    bytes: [u8; 4],
}

impl BasicEhtMcsAndNssSet {
    /// The encoded length in bytes.
    pub const LENGTH: usize = 4;

    /// Whether `bytes` (exactly 4 of them) encode a valid value.
    pub open spec fn spec_valid(bytes: Seq<u8>) -> bool {
        bytes.len() == 4
    }

    /// The encoded bytes.
    pub closed spec fn raw(&self) -> Seq<u8> {
        self.bytes@
    }

    /// Every value is encoded in exactly 4 bytes.
    pub proof fn lemma_raw_len(&self)
        ensures
            self.raw().len() == 4,
    {
    }

    /// Decodes the value from the first 4 bytes of `bytes`. `None` when there are fewer
    /// bytes or they do not encode a valid value.
    pub fn from_bytes(bytes: &[u8]) -> (r: Option<BasicEhtMcsAndNssSet>)
        ensures
            r is Some <==> bytes@.len() >= 4 && Self::spec_valid(bytes@.subrange(0, 4)),
            r matches Some(v) ==> v.raw() == bytes@.subrange(0, 4),
    {
        if bytes.len() < 4 {
            return None;
        }
        let a: [u8; 4] = [bytes[0], bytes[1], bytes[2], bytes[3]];
        proof {
            assert(a@ =~= bytes@.subrange(0, 4));
        }
        Some(BasicEhtMcsAndNssSet { bytes: a })
    }

    /// The encoded bytes.
    pub fn to_bytes(&self) -> (v: Vec<u8>)
        ensures
            v@ == self.raw(),
    {
        vstd::slice::slice_to_vec(self.bytes.as_slice())
    }

    /// The "Rx Max NSS That Supports EHT-MCS 0-7" subfield (bits 0-3).
    pub open spec fn spec_rx_max_nss_that_supports_eht_mcs_zero_through_seven(&self) -> u8 {
        bits_value(self.raw(), 0, 4) as u8
    }

    /// The "Rx Max NSS That Supports EHT-MCS 0-7" subfield (bits 0-3).
    pub fn rx_max_nss_that_supports_eht_mcs_zero_through_seven(&self) -> (v: u8)
        ensures
            v == self.spec_rx_max_nss_that_supports_eht_mcs_zero_through_seven(),
            v == bits_value(self.raw(), 0, 4),
    {
        read_u8_bits(self.bytes.as_slice(), 0, 4)
    }

    /// The "Tx Max NSS That Supports EHT-MCS 0-7" subfield (bits 4-7).
    pub open spec fn spec_tx_max_nss_that_supports_eht_mcs_zero_through_seven(&self) -> u8 {
        bits_value(self.raw(), 4, 4) as u8
    }

    /// The "Tx Max NSS That Supports EHT-MCS 0-7" subfield (bits 4-7).
    pub fn tx_max_nss_that_supports_eht_mcs_zero_through_seven(&self) -> (v: u8)
        ensures
            v == self.spec_tx_max_nss_that_supports_eht_mcs_zero_through_seven(),
            v == bits_value(self.raw(), 4, 4),
    {
        read_u8_bits(self.bytes.as_slice(), 4, 4)
    }

    /// The "Rx Max NSS That Supports EHT-MCS 8-9" subfield (bits 8-11).
    pub open spec fn spec_rx_max_nss_that_supports_eht_mcs_eight_through_nine(&self) -> u8 {
        bits_value(self.raw(), 8, 4) as u8
    }

    /// The "Rx Max NSS That Supports EHT-MCS 8-9" subfield (bits 8-11).
    pub fn rx_max_nss_that_supports_eht_mcs_eight_through_nine(&self) -> (v: u8)
        ensures
            v == self.spec_rx_max_nss_that_supports_eht_mcs_eight_through_nine(),
            v == bits_value(self.raw(), 8, 4),
    {
        read_u8_bits(self.bytes.as_slice(), 8, 4)
    }

    /// The "Tx Max NSS That Supports EHT-MCS 8-9" subfield (bits 12-15).
    pub open spec fn spec_tx_max_nss_that_supports_eht_mcs_eight_through_nine(&self) -> u8 {
        bits_value(self.raw(), 12, 4) as u8
    }

    /// The "Tx Max NSS That Supports EHT-MCS 8-9" subfield (bits 12-15).
    pub fn tx_max_nss_that_supports_eht_mcs_eight_through_nine(&self) -> (v: u8)
        ensures
            v == self.spec_tx_max_nss_that_supports_eht_mcs_eight_through_nine(),
            v == bits_value(self.raw(), 12, 4),
    {
        read_u8_bits(self.bytes.as_slice(), 12, 4)
    }

    /// The "Rx Max NSS That Supports EHT-MCS 10-11" subfield (bits 16-19).
    pub open spec fn spec_rx_max_nss_that_supports_eht_mcs_ten_through_eleven(&self) -> u8 {
        bits_value(self.raw(), 16, 4) as u8
    }

    /// The "Rx Max NSS That Supports EHT-MCS 10-11" subfield (bits 16-19).
    pub fn rx_max_nss_that_supports_eht_mcs_ten_through_eleven(&self) -> (v: u8)
        ensures
            v == self.spec_rx_max_nss_that_supports_eht_mcs_ten_through_eleven(),
            v == bits_value(self.raw(), 16, 4),
    {
        read_u8_bits(self.bytes.as_slice(), 16, 4)
    }

    /// The "Tx Max NSS That Supports EHT-MCS 10-11" subfield (bits 20-23).
    pub open spec fn spec_tx_max_nss_that_supports_eht_mcs_ten_through_eleven(&self) -> u8 {
        bits_value(self.raw(), 20, 4) as u8
    }

    /// The "Tx Max NSS That Supports EHT-MCS 10-11" subfield (bits 20-23).
    pub fn tx_max_nss_that_supports_eht_mcs_ten_through_eleven(&self) -> (v: u8)
        ensures
            v == self.spec_tx_max_nss_that_supports_eht_mcs_ten_through_eleven(),
            v == bits_value(self.raw(), 20, 4),
    {
        read_u8_bits(self.bytes.as_slice(), 20, 4)
    }

    /// The "Rx Max NSS That Supports EHT-MCS 12-13" subfield (bits 24-27).
    pub open spec fn spec_rx_max_nss_that_supports_eht_mcs_twelve_through_thirteen(&self) -> u8 {
        bits_value(self.raw(), 24, 4) as u8
    }

    /// The "Rx Max NSS That Supports EHT-MCS 12-13" subfield (bits 24-27).
    pub fn rx_max_nss_that_supports_eht_mcs_twelve_through_thirteen(&self) -> (v: u8)
        ensures
            v == self.spec_rx_max_nss_that_supports_eht_mcs_twelve_through_thirteen(),
            v == bits_value(self.raw(), 24, 4),
    {
        read_u8_bits(self.bytes.as_slice(), 24, 4)
    }

    /// The "Tx Max NSS That Supports EHT-MCS 12-13" subfield (bits 28-31).
    pub open spec fn spec_tx_max_nss_that_supports_eht_mcs_twelve_through_thirteen(&self) -> u8 {
        bits_value(self.raw(), 28, 4) as u8
    }

    /// The "Tx Max NSS That Supports EHT-MCS 12-13" subfield (bits 28-31).
    pub fn tx_max_nss_that_supports_eht_mcs_twelve_through_thirteen(&self) -> (v: u8)
        ensures
            v == self.spec_tx_max_nss_that_supports_eht_mcs_twelve_through_thirteen(),
            v == bits_value(self.raw(), 28, 4),
    {
        read_u8_bits(self.bytes.as_slice(), 28, 4)
    }

    /// Whether `f` is the displayable field of this value: one subfield per bit field.
    pub open spec fn field_shows(&self, f: Field) -> bool {
        &&& f.title@ == "Basic EHT-MCS and NSS Set"@
        &&& f.value@ == ""@
        &&& f.bytes matches Some(b) && b@ == self.raw()
        &&& f.byte is None
        &&& f.bits is None
        &&& f.units is None
        &&& f.subfields@.len() == 8
        &&& bit_field_is(f.subfields@[0], "Rx Max NSS That Supports EHT-MCS 0-7"@, nss_text(self.spec_rx_max_nss_that_supports_eht_mcs_zero_through_seven()), Some(nss_units(self.spec_rx_max_nss_that_supports_eht_mcs_zero_through_seven())), self.raw(), 0, 4)
        &&& bit_field_is(f.subfields@[1], "Tx Max NSS That Supports EHT-MCS 0-7"@, nss_text(self.spec_tx_max_nss_that_supports_eht_mcs_zero_through_seven()), Some(nss_units(self.spec_tx_max_nss_that_supports_eht_mcs_zero_through_seven())), self.raw(), 4, 4)
        &&& bit_field_is(f.subfields@[2], "Rx Max NSS That Supports EHT-MCS 8-9"@, nss_text(self.spec_rx_max_nss_that_supports_eht_mcs_eight_through_nine()), Some(nss_units(self.spec_rx_max_nss_that_supports_eht_mcs_eight_through_nine())), self.raw(), 8, 4)
        &&& bit_field_is(f.subfields@[3], "Tx Max NSS That Supports EHT-MCS 8-9"@, nss_text(self.spec_tx_max_nss_that_supports_eht_mcs_eight_through_nine()), Some(nss_units(self.spec_tx_max_nss_that_supports_eht_mcs_eight_through_nine())), self.raw(), 12, 4)
        &&& bit_field_is(f.subfields@[4], "Rx Max NSS That Supports EHT-MCS 10-11"@, nss_text(self.spec_rx_max_nss_that_supports_eht_mcs_ten_through_eleven()), Some(nss_units(self.spec_rx_max_nss_that_supports_eht_mcs_ten_through_eleven())), self.raw(), 16, 4)
        &&& bit_field_is(f.subfields@[5], "Tx Max NSS That Supports EHT-MCS 10-11"@, nss_text(self.spec_tx_max_nss_that_supports_eht_mcs_ten_through_eleven()), Some(nss_units(self.spec_tx_max_nss_that_supports_eht_mcs_ten_through_eleven())), self.raw(), 20, 4)
        &&& bit_field_is(f.subfields@[6], "Rx Max NSS That Supports EHT-MCS 12-13"@, nss_text(self.spec_rx_max_nss_that_supports_eht_mcs_twelve_through_thirteen()), Some(nss_units(self.spec_rx_max_nss_that_supports_eht_mcs_twelve_through_thirteen())), self.raw(), 24, 4)
        &&& bit_field_is(f.subfields@[7], "Tx Max NSS That Supports EHT-MCS 12-13"@, nss_text(self.spec_tx_max_nss_that_supports_eht_mcs_twelve_through_thirteen()), Some(nss_units(self.spec_tx_max_nss_that_supports_eht_mcs_twelve_through_thirteen())), self.raw(), 28, 4)
    }

    /// The value as a displayable field with one subfield per bit field.
    pub fn to_field(&self) -> (f: Field)
        ensures
            self.field_shows(f),
    {
        let bytes = self.bytes.as_slice();
        let mut subfields: Vec<Field> = Vec::new();
        subfields.push(bit_field_with_units("Rx Max NSS That Supports EHT-MCS 0-7", nss_string(self.rx_max_nss_that_supports_eht_mcs_zero_through_seven()), owned(nss_units_str(self.rx_max_nss_that_supports_eht_mcs_zero_through_seven())), bytes, 0, 4));
        subfields.push(bit_field_with_units("Tx Max NSS That Supports EHT-MCS 0-7", nss_string(self.tx_max_nss_that_supports_eht_mcs_zero_through_seven()), owned(nss_units_str(self.tx_max_nss_that_supports_eht_mcs_zero_through_seven())), bytes, 4, 4));
        subfields.push(bit_field_with_units("Rx Max NSS That Supports EHT-MCS 8-9", nss_string(self.rx_max_nss_that_supports_eht_mcs_eight_through_nine()), owned(nss_units_str(self.rx_max_nss_that_supports_eht_mcs_eight_through_nine())), bytes, 8, 4));
        subfields.push(bit_field_with_units("Tx Max NSS That Supports EHT-MCS 8-9", nss_string(self.tx_max_nss_that_supports_eht_mcs_eight_through_nine()), owned(nss_units_str(self.tx_max_nss_that_supports_eht_mcs_eight_through_nine())), bytes, 12, 4));
        subfields.push(bit_field_with_units("Rx Max NSS That Supports EHT-MCS 10-11", nss_string(self.rx_max_nss_that_supports_eht_mcs_ten_through_eleven()), owned(nss_units_str(self.rx_max_nss_that_supports_eht_mcs_ten_through_eleven())), bytes, 16, 4));
        subfields.push(bit_field_with_units("Tx Max NSS That Supports EHT-MCS 10-11", nss_string(self.tx_max_nss_that_supports_eht_mcs_ten_through_eleven()), owned(nss_units_str(self.tx_max_nss_that_supports_eht_mcs_ten_through_eleven())), bytes, 20, 4));
        subfields.push(bit_field_with_units("Rx Max NSS That Supports EHT-MCS 12-13", nss_string(self.rx_max_nss_that_supports_eht_mcs_twelve_through_thirteen()), owned(nss_units_str(self.rx_max_nss_that_supports_eht_mcs_twelve_through_thirteen())), bytes, 24, 4));
        subfields.push(bit_field_with_units("Tx Max NSS That Supports EHT-MCS 12-13", nss_string(self.tx_max_nss_that_supports_eht_mcs_twelve_through_thirteen()), owned(nss_units_str(self.tx_max_nss_that_supports_eht_mcs_twelve_through_thirteen())), bytes, 28, 4));
        Field::new("Basic EHT-MCS and NSS Set", "").with_bytes(self.to_bytes()).with_subfields(subfields)
    }


    /// The highest receive stream count over the four MCS ranges, and at least 1.
    pub open spec fn spec_max_spatial_streams(&self) -> u8 {
        let a = self.spec_rx_max_nss_that_supports_eht_mcs_zero_through_seven();
        let b = self.spec_rx_max_nss_that_supports_eht_mcs_eight_through_nine();
        let c = self.spec_rx_max_nss_that_supports_eht_mcs_ten_through_eleven();
        let d = self.spec_rx_max_nss_that_supports_eht_mcs_twelve_through_thirteen();
        let m1 = if a >= b { a } else { b };
        let m2 = if m1 >= c { m1 } else { c };
        let m3 = if m2 >= d { m2 } else { d };
        if m3 >= 1 { m3 } else { 1 }
    }

    /// The maximum number of spatial streams: the highest receive stream count over the four
    /// MCS ranges, and at least 1.
    pub fn max_spatial_streams(&self) -> (n: u8)
        ensures
            n == self.spec_max_spatial_streams(),
    {
        let a = self.rx_max_nss_that_supports_eht_mcs_zero_through_seven();
        let b = self.rx_max_nss_that_supports_eht_mcs_eight_through_nine();
        let c = self.rx_max_nss_that_supports_eht_mcs_ten_through_eleven();
        let d = self.rx_max_nss_that_supports_eht_mcs_twelve_through_thirteen();
        let m1 = if a >= b { a } else { b };
        let m2 = if m1 >= c { m1 } else { c };
        let m3 = if m2 >= d { m2 } else { d };
        if m3 >= 1 { m3 } else { 1 }
    }

}

/// The Control field of EHT operation information.
#[derive(Debug, Clone, Copy, PartialEq, Eq, Hash)]
pub struct Control {
    bytes: [u8; 1],
}

impl Control {
    /// The encoded length in bytes.
    pub const LENGTH: usize = 1;

    /// Whether `bytes` (exactly 1 of them) encode a valid value.
    pub open spec fn spec_valid(bytes: Seq<u8>) -> bool {
        &&& bytes.len() == 1
        &&& EhtChannelWidth::spec_from_u8(bits_value(bytes, 0, 3) as u8) is Some
    }

    /// The encoded bytes.
    pub closed spec fn raw(&self) -> Seq<u8> {
        self.bytes@
    }

    /// Every value is encoded in exactly 1 bytes.
    pub proof fn lemma_raw_len(&self)
        ensures
            self.raw().len() == 1,
    {
    }

    /// Decodes the value from the first 1 bytes of `bytes`. `None` when there are fewer
    /// bytes or they do not encode a valid value.
    pub fn from_bytes(bytes: &[u8]) -> (r: Option<Control>)
        ensures
            r is Some <==> bytes@.len() >= 1 && Self::spec_valid(bytes@.subrange(0, 1)),
            r matches Some(v) ==> v.raw() == bytes@.subrange(0, 1),
    {
        if bytes.len() < 1 {
            return None;
        }
        let a: [u8; 1] = [bytes[0]];
        proof {
            assert(a@ =~= bytes@.subrange(0, 1));
        }
        if EhtChannelWidth::from_u8(read_u8_bits(a.as_slice(), 0, 3)).is_none() {
            return None;
        }
        Some(Control { bytes: a })
    }

    /// The encoded bytes.
    pub fn to_bytes(&self) -> (v: Vec<u8>)
        ensures
            v@ == self.raw(),
    {
        vstd::slice::slice_to_vec(self.bytes.as_slice())
    }

    /// The "Channel Width" subfield (bits 0-2).
    pub open spec fn spec_channel_width(&self) -> EhtChannelWidth {
        match EhtChannelWidth::spec_from_u8(bits_value(self.raw(), 0, 3) as u8) {
            Some(v) => v,
            None => EhtChannelWidth::TwentyMhz,
        }
    }

    /// The "Channel Width" subfield (bits 0-2).
    pub fn channel_width(&self) -> (v: EhtChannelWidth)
        ensures
            v == self.spec_channel_width(),
    {
        match EhtChannelWidth::from_u8(read_u8_bits(self.bytes.as_slice(), 0, 3)) {
            Some(v) => v,
            None => EhtChannelWidth::TwentyMhz,
        }
    }

    /// Whether `f` is the displayable field of this value: one subfield per bit field.
    pub open spec fn field_shows(&self, f: Field) -> bool {
        &&& f.title@ == "Control"@
        &&& f.value@ == ""@
        &&& f.byte == Some(self.raw()[0])
        &&& f.bytes is None
        &&& f.bits is None
        &&& f.units is None
        &&& f.subfields@.len() == 2
        &&& bit_field_is(f.subfields@[0], "Channel Width"@, self.spec_channel_width().spec_text(), Some("MHz"@), self.raw(), 0, 3)
        &&& reserved_field_is(f.subfields@[1], self.raw(), 3, 5)
    }

    /// The value as a displayable field with one subfield per bit field.
    pub fn to_field(&self) -> (f: Field)
        ensures
            self.field_shows(f),
    {
        let bytes = self.bytes.as_slice();
        let mut subfields: Vec<Field> = Vec::new();
        subfields.push(bit_field_with_units("Channel Width", self.channel_width().to_string(), owned("MHz"), bytes, 0, 3));
        subfields.push(reserved_bits(bytes, 3, 5));
        Field::new("Control", "").with_byte(self.bytes[0]).with_subfields(subfields)
    }

}

/// The EHT Operation Information field: the channel width control, the two channel center
/// frequency segments and, when announced, the disabled subchannel bitmap.
#[derive(Debug, Clone, Copy, PartialEq, Eq, Hash)]
pub struct EhtOperationInformation {
    pub control: Control,
    pub ccfs0: u8,
    pub ccfs1: u8,
    pub disabled_subchannel_bitmap: Option<u16>,
}

impl EhtOperationInformation {
    /// Whether `f` is the displayable field of this value.
    pub open spec fn field_shows(&self, f: Field) -> bool {
        &&& f.title@ == "EHT Operation Information"@
        &&& f.value@ == ""@
        &&& f.bytes is None
        &&& f.byte is None
        &&& f.bits is None
        &&& f.units is None
        &&& f.subfields@.len() == 3 + if self.disabled_subchannel_bitmap is Some { 1int } else { 0int }
        &&& self.control.field_shows(f.subfields@[0])
        &&& byte_field_is(f.subfields@[1], "CCFS0"@, decimal(self.ccfs0 as nat), None, self.ccfs0)
        &&& byte_field_is(f.subfields@[2], "CCFS1"@, decimal(self.ccfs1 as nat), None, self.ccfs1)
        &&& self.disabled_subchannel_bitmap matches Some(m) ==> bit_field_is(
            f.subfields@[3],
            "Disabled Subchannel Bitmap"@,
            decimal(m as nat),
            None,
            le_bytes_u16(m),
            0,
            16,
        )
    }

    /// The value as a displayable field.
    pub fn to_field(&self) -> (f: Field)
        ensures
            self.field_shows(f),
    {
        let mut sub: Vec<Field> = Vec::new();
        sub.push(self.control.to_field());
        sub.push(byte_field("CCFS0", u64_text(self.ccfs0 as u64), self.ccfs0));
        sub.push(byte_field("CCFS1", u64_text(self.ccfs1 as u64), self.ccfs1));
        if let Some(m) = self.disabled_subchannel_bitmap {
            let b = u16_le_bytes(m);
            sub.push(bit_field("Disabled Subchannel Bitmap", u64_text(m as u64), b.as_slice(), 0, 16));
        }
        Field::new("EHT Operation Information", "").with_subfields(sub)
    }
}

/// The layout of an EHT Operation body: parameters (1 byte), basic MCS set (4), then the
/// operation information (3 bytes, 5 with the disabled subchannel bitmap) when announced.
pub open spec fn spec_eht_operation_valid(b: Seq<u8>) -> bool {
    let p = b.subrange(0, 1);
    let info_len = if bit_set(p, 1) { 5int } else { 3int };
    &&& b.len() >= 5
    &&& bit_set(p, 0) ==> b.len() >= 5 + info_len && Control::spec_valid(b.subrange(5, 6))
}

/// An EHT Operation element: how an 802.11be access point operates.
#[derive(Debug, Clone, PartialEq, Eq, Hash)]
pub struct EhtOperation {
    pub eht_operation_parameters: EhtOperationParameters,
    pub basic_eht_mcs_and_nss_set: BasicEhtMcsAndNssSet,
    pub eht_operation_information: Option<EhtOperationInformation>,
}

impl EhtOperation {
    pub const NAME: &'static str = "EHT Operation";
    pub const ID: u8 = 255;

    /// The element ID extension.
    pub fn id_ext() -> (r: Option<u8>)
        ensures
            r == Some(106u8),
    {
        Some(106)
    }

    /// The element's parts are the ones encoded in `b`.
    pub open spec fn spec_parsed_from(&self, b: Seq<u8>) -> bool {
        let p = self.eht_operation_parameters;
        &&& p.raw() == b.subrange(0, 1)
        &&& self.basic_eht_mcs_and_nss_set.raw() == b.subrange(1, 5)
        &&& (self.eht_operation_information is Some <==> p.spec_eht_operation_information_present())
        &&& self.eht_operation_information matches Some(i) ==> {
            &&& i.control.raw() == b.subrange(5, 6)
            &&& i.ccfs0 == b[6]
            &&& i.ccfs1 == b[7]
            &&& (i.disabled_subchannel_bitmap is Some <==> p.spec_disabled_subchannel_bitmap_present())
            &&& (i.disabled_subchannel_bitmap matches Some(m) ==> m == le_u16(b, 8))
        }
    }

    /// Parses the element body. `None` when it is shorter than the parts it announces or the
    /// control holds an undefined width code.
    pub fn from_bytes(bytes: &[u8]) -> (r: Option<EhtOperation>)
        ensures
            r is Some <==> spec_eht_operation_valid(bytes@),
            r matches Some(c) ==> c.spec_parsed_from(bytes@),
    {
        if bytes.len() < 5 {
            return None;
        }
        let ps = vstd::slice::slice_subrange(bytes, 0, 1);
        let ms = vstd::slice::slice_subrange(bytes, 1, 5);
        proof {
            assert(ps@.subrange(0, 1) =~= ps@);
            assert(ms@.subrange(0, 4) =~= ms@);
        }
        let params = EhtOperationParameters::from_bytes(ps).unwrap();
        let set = BasicEhtMcsAndNssSet::from_bytes(ms).unwrap();
        let info = if params.eht_operation_information_present() {
            let with_bitmap = params.disabled_subchannel_bitmap_present();
            let need: usize = if with_bitmap { 10 } else { 8 };
            if bytes.len() < need {
                return None;
            }
            let cs = vstd::slice::slice_subrange(bytes, 5, 6);
            proof {
                assert(cs@.subrange(0, 1) =~= cs@);
            }
            let control = match Control::from_bytes(cs) {
                Some(c) => c,
                None => return None,
            };
            let bitmap = if with_bitmap {
                Some(read_le_u16(bytes, 8))
            } else {
                None
            };
            Some(EhtOperationInformation { control, ccfs0: bytes[6], ccfs1: bytes[7], disabled_subchannel_bitmap: bitmap })
        } else {
            None
        };
        Some(EhtOperation { eht_operation_parameters: params, basic_eht_mcs_and_nss_set: set, eht_operation_information: info })
    }

    /// The channel width of the operation information, when present.
    pub open spec fn spec_channel_width(&self) -> Option<ChannelWidth> {
        match self.eht_operation_information {
            Some(i) => Some(
                match i.control.spec_channel_width() {
                    EhtChannelWidth::TwentyMhz => ChannelWidth::TwentyMhz,
                    EhtChannelWidth::FortyMhz => ChannelWidth::FortyMhz,
                    EhtChannelWidth::EightyMhz => ChannelWidth::EightyMhz,
                    EhtChannelWidth::OneHundredSixtyMhz => ChannelWidth::OneSixtyMhz,
                    EhtChannelWidth::ThreeHundredTwentyMhz => ChannelWidth::ThreeHundredTwentyMhz,
                },
            ),
            None => None,
        }
    }

    /// The channel width is the one the Control field announces: present exactly when the
    /// operation information is, and then named by the Control field's width in MHz (for
    /// example a Control width of 320 gives "320 MHz").
    pub proof fn lemma_channel_width_is_control_width(&self)
        ensures
            self.spec_channel_width() is Some <==> self.eht_operation_information is Some,
            self.spec_channel_width() matches Some(w) ==> w.spec_text()
                == self.eht_operation_information->0.control.spec_channel_width().spec_text() + " MHz"@,
    {
        reveal_strlit(" MHz");
        reveal_strlit("20");
        reveal_strlit("40");
        reveal_strlit("80");
        reveal_strlit("160");
        reveal_strlit("320");
        reveal_strlit("20 MHz");
        reveal_strlit("40 MHz");
        reveal_strlit("80 MHz");
        reveal_strlit("160 MHz");
        reveal_strlit("320 MHz");
        if let Some(i) = self.eht_operation_information {
            let t = i.control.spec_channel_width().spec_text() + " MHz"@;
            match i.control.spec_channel_width() {
                EhtChannelWidth::TwentyMhz => assert(t =~= "20 MHz"@),
                EhtChannelWidth::FortyMhz => assert(t =~= "40 MHz"@),
                EhtChannelWidth::EightyMhz => assert(t =~= "80 MHz"@),
                EhtChannelWidth::OneHundredSixtyMhz => assert(t =~= "160 MHz"@),
                EhtChannelWidth::ThreeHundredTwentyMhz => assert(t =~= "320 MHz"@),
            }
        }
    }

    /// The channel width of the operation information, `None` when it is absent.
    pub fn channel_width(&self) -> (w: Option<ChannelWidth>)
        ensures
            w == self.spec_channel_width(),
    {
        match &self.eht_operation_information {
            Some(i) => Some(
                match i.control.channel_width() {
                    EhtChannelWidth::TwentyMhz => ChannelWidth::TwentyMhz,
                    EhtChannelWidth::FortyMhz => ChannelWidth::FortyMhz,
                    EhtChannelWidth::EightyMhz => ChannelWidth::EightyMhz,
                    EhtChannelWidth::OneHundredSixtyMhz => ChannelWidth::OneSixtyMhz,
                    EhtChannelWidth::ThreeHundredTwentyMhz => ChannelWidth::ThreeHundredTwentyMhz,
                },
            ),
            None => None,
        }
    }

    /// The one-line summary: the number of spatial streams of the basic MCS set.
    pub open spec fn spec_summary(&self) -> Seq<char> {
        let n = self.basic_eht_mcs_and_nss_set.spec_max_spatial_streams();
        if n == 1 {
            "1 spatial stream"@
        } else {
            decimal(n as nat) + " spatial streams"@
        }
    }

    /// A one-line summary, for example `2 spatial streams`.
    pub fn summary(&self) -> (s: String)
        ensures
            s@ == self.spec_summary(),
    {
        let n = self.basic_eht_mcs_and_nss_set.max_spatial_streams();
        if n == 1 {
            owned("1 spatial stream")
        } else {
            let mut s = u64_text(n as u64);
            s.append(" spatial streams");
            s
        }
    }

    /// The element's fields: parameters, basic MCS set and, when present, the operation
    /// information.
    pub fn fields(&self) -> (v: Vec<Field>)
        ensures
            v@.len() == 2 + if self.eht_operation_information is Some { 1int } else { 0int },
            self.eht_operation_parameters.field_shows(v@[0]),
            self.basic_eht_mcs_and_nss_set.field_shows(v@[1]),
            self.eht_operation_information matches Some(i) ==> i.field_shows(v@[2]),
    {
        let mut v: Vec<Field> = Vec::new();
        v.push(self.eht_operation_parameters.to_field());
        v.push(self.basic_eht_mcs_and_nss_set.to_field());
        if let Some(i) = self.eht_operation_information {
            v.push(i.to_field());
        }
        v
    }
}

} // verus!
