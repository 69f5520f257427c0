//! The EHT Capabilities element (802.11be).
use vstd::prelude::*;

use crate::bits::{
    code_bits, lemma_bits_prefix, lemma_code_bits_len, pack_bit_vec, pack_bits, push_code_bits, two_pow,
    bit_set, bits_value, lemma_bits_value_bound, lemma_two_pow_64, lemma_two_pow_monotone, read_bit,
    read_bits, read_u16_bits, read_u8_bits,
};
use crate::ies::field::{
    bit_field, bit_field_is, bit_field_with_units, reserved_bits, reserved_field_is, BitRange,
    Field,
};
use crate::ies::he_capabilities::{width_set_has, HeCapabilities};
use crate::ies::ht_capabilities::{spatial_streams_string, spatial_streams_text};
use crate::ies::parse_error::ParseError;
use crate::text::{bool_string, bool_text, decimal, owned, paren_decimal, paren_text, u64_text};

verus! {

/// A constellation used as an EHT PPE threshold.
#[derive(Debug, Clone, Copy, PartialEq, Eq, Structural, Hash)]
pub enum TransmissionConstellation {
    Bpsk,
    Qpsk,
    SixteenQam,
    SixtyFourQam,
    TwoHundredFiftySixQam,
    OneThousandTwentyFourQam,
    FourThousandNinetySixQam,
    NoConstellation,
}

impl TransmissionConstellation {
    /// The value encoded by a raw code, if the code is defined.
    pub open spec fn spec_from_u8(v: u8) -> Option<TransmissionConstellation> {
        if v == 0 {
            Some(TransmissionConstellation::Bpsk)
        } else if v == 1 {
            Some(TransmissionConstellation::Qpsk)
        } else if v == 2 {
            Some(TransmissionConstellation::SixteenQam)
        } else if v == 3 {
            Some(TransmissionConstellation::SixtyFourQam)
        } else if v == 4 {
            Some(TransmissionConstellation::TwoHundredFiftySixQam)
        } else if v == 5 {
            Some(TransmissionConstellation::OneThousandTwentyFourQam)
        } else if v == 6 {
            Some(TransmissionConstellation::FourThousandNinetySixQam)
        } else if v == 7 {
            Some(TransmissionConstellation::NoConstellation)
        } else {
            None
        }
    }

    /// The raw code of the value.
    pub open spec fn spec_to_u8(self) -> u8 {
        match self {
            TransmissionConstellation::Bpsk => 0,
            TransmissionConstellation::Qpsk => 1,
            TransmissionConstellation::SixteenQam => 2,
            TransmissionConstellation::SixtyFourQam => 3,
            TransmissionConstellation::TwoHundredFiftySixQam => 4,
            TransmissionConstellation::OneThousandTwentyFourQam => 5,
            TransmissionConstellation::FourThousandNinetySixQam => 6,
            TransmissionConstellation::NoConstellation => 7,
        }
    }

    /// The human-readable text of the value.
    pub open spec fn spec_text(self) -> Seq<char> {
        match self {
            TransmissionConstellation::Bpsk => "BPSK"@,
            TransmissionConstellation::Qpsk => "QPSK"@,
            TransmissionConstellation::SixteenQam => "16-QAM"@,
            TransmissionConstellation::SixtyFourQam => "64-QAM"@,
            TransmissionConstellation::TwoHundredFiftySixQam => "256-QAM"@,
            TransmissionConstellation::OneThousandTwentyFourQam => "1024-QAM"@,
            TransmissionConstellation::FourThousandNinetySixQam => "4096-QAM"@,
            TransmissionConstellation::NoConstellation => "None"@,
        }
    }

    /// Decodes a raw code; `None` for an undefined code.
    pub fn from_u8(v: u8) -> (r: Option<TransmissionConstellation>)
        ensures
            r == Self::spec_from_u8(v),
    {
        match v {
            0 => Some(TransmissionConstellation::Bpsk),
            1 => Some(TransmissionConstellation::Qpsk),
            2 => Some(TransmissionConstellation::SixteenQam),
            3 => Some(TransmissionConstellation::SixtyFourQam),
            4 => Some(TransmissionConstellation::TwoHundredFiftySixQam),
            5 => Some(TransmissionConstellation::OneThousandTwentyFourQam),
            6 => Some(TransmissionConstellation::FourThousandNinetySixQam),
            7 => Some(TransmissionConstellation::NoConstellation),
            _ => None,
        }
    }

    /// The raw code of the value.
    pub fn to_u8(&self) -> (v: u8)
        ensures
            v == self.spec_to_u8(),
            Self::spec_from_u8(v) == Some(*self),
    {
        match self {
            TransmissionConstellation::Bpsk => 0,
            TransmissionConstellation::Qpsk => 1,
            TransmissionConstellation::SixteenQam => 2,
            TransmissionConstellation::SixtyFourQam => 3,
            TransmissionConstellation::TwoHundredFiftySixQam => 4,
            TransmissionConstellation::OneThousandTwentyFourQam => 5,
            TransmissionConstellation::FourThousandNinetySixQam => 6,
            TransmissionConstellation::NoConstellation => 7,
        }
    }

    /// The human-readable text of the value.
    pub fn to_string(&self) -> (s: String)
        ensures
            s@ == self.spec_text(),
    {
        match self {
            TransmissionConstellation::Bpsk => String::from_str("BPSK"),
            TransmissionConstellation::Qpsk => String::from_str("QPSK"),
            TransmissionConstellation::SixteenQam => String::from_str("16-QAM"),
            TransmissionConstellation::SixtyFourQam => String::from_str("64-QAM"),
            TransmissionConstellation::TwoHundredFiftySixQam => String::from_str("256-QAM"),
            TransmissionConstellation::OneThousandTwentyFourQam => String::from_str("1024-QAM"),
            TransmissionConstellation::FourThousandNinetySixQam => String::from_str("4096-QAM"),
            TransmissionConstellation::NoConstellation => String::from_str("None"),
        }
    }
}

/// Decoding a value's own code gives the value back.
pub proof fn lemma_transmission_constellation_code_roundtrip(v: TransmissionConstellation)
    ensures
        TransmissionConstellation::spec_from_u8(v.spec_to_u8()) == Some(v),
{
}

/// The EHT MAC Capabilities Information field of an EHT Capabilities element.
#[derive(Debug, Clone, Copy, PartialEq, Eq, Hash)]
pub struct EhtMacCapabilitiesInformation {
    bytes: [u8; 2],
}

impl EhtMacCapabilitiesInformation {
    /// The encoded length in bytes.
    pub const LENGTH: usize = 2;

    /// Whether `bytes` (exactly 2 of them) encode a valid value.
    pub open spec fn spec_valid(bytes: Seq<u8>) -> bool {
        bytes.len() == 2
    }

    /// The encoded bytes.
    pub closed spec fn raw(&self) -> Seq<u8> {
        self.bytes@
    }

    /// Every value is encoded in exactly 2 bytes.
    pub proof fn lemma_raw_len(&self)
        ensures
            self.raw().len() == 2,
    {
    }

    /// Decodes the value from the first 2 bytes of `bytes`. `None` when there are fewer
    /// bytes or they do not encode a valid value.
    pub fn from_bytes(bytes: &[u8]) -> (r: Option<EhtMacCapabilitiesInformation>)
        ensures
            r is Some <==> bytes@.len() >= 2 && Self::spec_valid(bytes@.subrange(0, 2)),
            r matches Some(v) ==> v.raw() == bytes@.subrange(0, 2),
    {
        if bytes.len() < 2 {
            return None;
        }
        let a: [u8; 2] = [bytes[0], bytes[1]];
        proof {
            assert(a@ =~= bytes@.subrange(0, 2));
        }
        Some(EhtMacCapabilitiesInformation { bytes: a })
    }

    /// The encoded bytes.
    pub fn to_bytes(&self) -> (v: Vec<u8>)
        ensures
            v@ == self.raw(),
    {
        vstd::slice::slice_to_vec(self.bytes.as_slice())
    }

    /// The "EPCS Priority Access Support" subfield (bit 0).
    pub open spec fn spec_epcs_priority_access_support(&self) -> bool {
        bit_set(self.raw(), 0)
    }

    /// The "EPCS Priority Access Support" subfield (bit 0).
    pub fn epcs_priority_access_support(&self) -> (b: bool)
        ensures
            b == self.spec_epcs_priority_access_support(),
    {
        read_bit(self.bytes.as_slice(), 0)
    }

    /// The "EHT OM Control Support" subfield (bit 1).
    pub open spec fn spec_eht_om_control_support(&self) -> bool {
        bit_set(self.raw(), 1)
    }

    /// The "EHT OM Control Support" subfield (bit 1).
    pub fn eht_om_control_support(&self) -> (b: bool)
        ensures
            b == self.spec_eht_om_control_support(),
    {
        read_bit(self.bytes.as_slice(), 1)
    }

    /// The "TXS Mode 1 Support" subfield (bit 2).
    pub open spec fn spec_txs_mode_1_support(&self) -> bool {
        bit_set(self.raw(), 2)
    }

    /// The "TXS Mode 1 Support" subfield (bit 2).
    pub fn txs_mode_1_support(&self) -> (b: bool)
        ensures
            b == self.spec_txs_mode_1_support(),
    {
        read_bit(self.bytes.as_slice(), 2)
    }

    /// The "TXS Mode 2 Support" subfield (bit 3).
    pub open spec fn spec_txs_mode_2_support(&self) -> bool {
        bit_set(self.raw(), 3)
    }

    /// The "TXS Mode 2 Support" subfield (bit 3).
    pub fn txs_mode_2_support(&self) -> (b: bool)
        ensures
            b == self.spec_txs_mode_2_support(),
    {
        read_bit(self.bytes.as_slice(), 3)
    }

    /// The "Restricted TWT Support" subfield (bit 4).
    pub open spec fn spec_restricted_twt_support(&self) -> bool {
        bit_set(self.raw(), 4)
    }

    /// The "Restricted TWT Support" subfield (bit 4).
    pub fn restricted_twt_support(&self) -> (b: bool)
        ensures
            b == self.spec_restricted_twt_support(),
    {
        read_bit(self.bytes.as_slice(), 4)
    }

    /// The "SCS Traffic Description Support" subfield (bit 5).
    pub open spec fn spec_scs_traffic_description_support(&self) -> bool {
        bit_set(self.raw(), 5)
    }

    /// The "SCS Traffic Description Support" subfield (bit 5).
    pub fn scs_traffic_description_support(&self) -> (b: bool)
        ensures
            b == self.spec_scs_traffic_description_support(),
    {
        read_bit(self.bytes.as_slice(), 5)
    }

    /// The "Maximum MPDU Length" subfield (bits 6-7).
    pub open spec fn spec_maximum_mpdu_length(&self) -> u8 {
        bits_value(self.raw(), 6, 2) as u8
    }

    /// The "Maximum MPDU Length" subfield (bits 6-7).
    pub fn maximum_mpdu_length(&self) -> (v: u8)
        ensures
            v == self.spec_maximum_mpdu_length(),
            v == bits_value(self.raw(), 6, 2),
    {
        read_u8_bits(self.bytes.as_slice(), 6, 2)
    }

    /// The "Maximum A-MPDU Length Exponent Extension" subfield (bit 8).
    pub open spec fn spec_maximum_ampdu_length_exponent_extension(&self) -> bool {
        bit_set(self.raw(), 8)
    }

    /// The "Maximum A-MPDU Length Exponent Extension" subfield (bit 8).
    pub fn maximum_ampdu_length_exponent_extension(&self) -> (b: bool)
        ensures
            b == self.spec_maximum_ampdu_length_exponent_extension(),
    {
        read_bit(self.bytes.as_slice(), 8)
    }

    /// The "EHT TRS Support" subfield (bit 9).
    pub open spec fn spec_eht_trs_support(&self) -> bool {
        bit_set(self.raw(), 9)
    }

    /// The "EHT TRS Support" subfield (bit 9).
    pub fn eht_trs_support(&self) -> (b: bool)
        ensures
            b == self.spec_eht_trs_support(),
    {
        read_bit(self.bytes.as_slice(), 9)
    }

    /// The "TXOP Return Support in TXS Mode 2" subfield (bit 10).
    pub open spec fn spec_txop_return_support_in_txs_mode_2(&self) -> bool {
        bit_set(self.raw(), 10)
    }

    /// The "TXOP Return Support in TXS Mode 2" subfield (bit 10).
    pub fn txop_return_support_in_txs_mode_2(&self) -> (b: bool)
        ensures
            b == self.spec_txop_return_support_in_txs_mode_2(),
    {
        read_bit(self.bytes.as_slice(), 10)
    }

    /// The "Two BQRs Support" subfield (bit 11).
    pub open spec fn spec_two_bqrs_support(&self) -> bool {
        bit_set(self.raw(), 11)
    }

    /// The "Two BQRs Support" subfield (bit 11).
    pub fn two_bqrs_support(&self) -> (b: bool)
        ensures
            b == self.spec_two_bqrs_support(),
    {
        read_bit(self.bytes.as_slice(), 11)
    }

    /// The "EHT Link Adaptation Support" subfield (bits 12-13).
    pub open spec fn spec_eht_link_adaptation_support(&self) -> u8 {
        bits_value(self.raw(), 12, 2) as u8
    }

    /// The "EHT Link Adaptation Support" subfield (bits 12-13).
    pub fn eht_link_adaptation_support(&self) -> (v: u8)
        ensures
            v == self.spec_eht_link_adaptation_support(),
            v == bits_value(self.raw(), 12, 2),
    {
        read_u8_bits(self.bytes.as_slice(), 12, 2)
    }

    /// The "Unsolicited EPCS Priority Access Parameter Update" subfield (bit 14).
    pub open spec fn spec_unsolicited_epcs_priority_access_parameter_update(&self) -> bool {
        bit_set(self.raw(), 14)
    }

    /// The "Unsolicited EPCS Priority Access Parameter Update" subfield (bit 14).
    pub fn unsolicited_epcs_priority_access_parameter_update(&self) -> (b: bool)
        ensures
            b == self.spec_unsolicited_epcs_priority_access_parameter_update(),
    {
        read_bit(self.bytes.as_slice(), 14)
    }

    /// The reserved subfield (bit 15).
    pub open spec fn spec_reserved(&self) -> bool {
        bit_set(self.raw(), 15)
    }

    /// The reserved subfield (bit 15).
    pub fn reserved(&self) -> (b: bool)
        ensures
            b == self.spec_reserved(),
    {
        read_bit(self.bytes.as_slice(), 15)
    }

    /// Whether `f` is the displayable field of this value: one subfield per bit field.
    pub open spec fn field_shows(&self, f: Field) -> bool {
        &&& f.title@ == "EHT MAC Capabilities Information"@
        &&& f.value@ == ""@
        &&& f.byte is None
        &&& f.bytes is None
        &&& f.bits is None
        &&& f.units is None
        &&& f.subfields@.len() == 14
        &&& bit_field_is(f.subfields@[0], "EPCS Priority Access Support"@, bool_text(self.spec_epcs_priority_access_support()), None, self.raw(), 0, 1)
        &&& bit_field_is(f.subfields@[1], "EHT OM Control Support"@, bool_text(self.spec_eht_om_control_support()), None, self.raw(), 1, 1)
        &&& bit_field_is(f.subfields@[2], "TXS Mode 1 Support"@, bool_text(self.spec_txs_mode_1_support()), None, self.raw(), 2, 1)
        &&& bit_field_is(f.subfields@[3], "TXS Mode 2 Support"@, bool_text(self.spec_txs_mode_2_support()), None, self.raw(), 3, 1)
        &&& bit_field_is(f.subfields@[4], "Restricted TWT Support"@, bool_text(self.spec_restricted_twt_support()), None, self.raw(), 4, 1)
        &&& bit_field_is(f.subfields@[5], "SCS Traffic Description Support"@, bool_text(self.spec_scs_traffic_description_support()), None, self.raw(), 5, 1)
        &&& bit_field_is(f.subfields@[6], "Maximum MPDU Length"@, if self.spec_maximum_mpdu_length() == 0 { "3895"@ } else if self.spec_maximum_mpdu_length() == 1 { "7991"@ } else if self.spec_maximum_mpdu_length() == 2 { "11454"@ } else { "Reserved"@ }, None, self.raw(), 6, 2)
        &&& bit_field_is(f.subfields@[7], "Maximum A-MPDU Length Exponent Extension"@, bool_text(self.spec_maximum_ampdu_length_exponent_extension()), None, self.raw(), 8, 1)
        &&& bit_field_is(f.subfields@[8], "EHT TRS Support"@, bool_text(self.spec_eht_trs_support()), None, self.raw(), 9, 1)
        &&& bit_field_is(f.subfields@[9], "TXOP Return Support in TXS Mode 2"@, bool_text(self.spec_txop_return_support_in_txs_mode_2()), None, self.raw(), 10, 1)
        &&& bit_field_is(f.subfields@[10], "Two BQRs Support"@, bool_text(self.spec_two_bqrs_support()), None, self.raw(), 11, 1)
        &&& bit_field_is(f.subfields@[11], "EHT Link Adaptation Support"@, if self.spec_eht_link_adaptation_support() == 0 { "Not Supported"@ } else if self.spec_eht_link_adaptation_support() == 1 { "Reserved"@ } else if self.spec_eht_link_adaptation_support() == 2 { "Unsolicited"@ } else if self.spec_eht_link_adaptation_support() == 3 { "Solicited and Unsolicited"@ } else { "Unknown"@ }, None, self.raw(), 12, 2)
        &&& bit_field_is(f.subfields@[12], "Unsolicited EPCS Priority Access Parameter Update"@, bool_text(self.spec_unsolicited_epcs_priority_access_parameter_update()), None, self.raw(), 14, 1)
        &&& reserved_field_is(f.subfields@[13], self.raw(), 15, 1)
    }

    /// The value as a displayable field with one subfield per bit field.
    pub fn to_field(&self) -> (f: Field)
        ensures
            self.field_shows(f),
    {
        let bytes = self.bytes.as_slice();
        let mut subfields: Vec<Field> = Vec::new();
        subfields.push(bit_field("EPCS Priority Access Support", bool_string(self.epcs_priority_access_support()), bytes, 0, 1));
        subfields.push(bit_field("EHT OM Control Support", bool_string(self.eht_om_control_support()), bytes, 1, 1));
        subfields.push(bit_field("TXS Mode 1 Support", bool_string(self.txs_mode_1_support()), bytes, 2, 1));
        subfields.push(bit_field("TXS Mode 2 Support", bool_string(self.txs_mode_2_support()), bytes, 3, 1));
        subfields.push(bit_field("Restricted TWT Support", bool_string(self.restricted_twt_support()), bytes, 4, 1));
        subfields.push(bit_field("SCS Traffic Description Support", bool_string(self.scs_traffic_description_support()), bytes, 5, 1));
        subfields.push(bit_field("Maximum MPDU Length", owned(if self.maximum_mpdu_length() == 0 { "3895" } else if self.maximum_mpdu_length() == 1 { "7991" } else if self.maximum_mpdu_length() == 2 { "11454" } else { "Reserved" }), bytes, 6, 2));
        subfields.push(bit_field("Maximum A-MPDU Length Exponent Extension", bool_string(self.maximum_ampdu_length_exponent_extension()), bytes, 8, 1));
        subfields.push(bit_field("EHT TRS Support", bool_string(self.eht_trs_support()), bytes, 9, 1));
        subfields.push(bit_field("TXOP Return Support in TXS Mode 2", bool_string(self.txop_return_support_in_txs_mode_2()), bytes, 10, 1));
        subfields.push(bit_field("Two BQRs Support", bool_string(self.two_bqrs_support()), bytes, 11, 1));
        subfields.push(bit_field("EHT Link Adaptation Support", owned(if self.eht_link_adaptation_support() == 0 { "Not Supported" } else if self.eht_link_adaptation_support() == 1 { "Reserved" } else if self.eht_link_adaptation_support() == 2 { "Unsolicited" } else if self.eht_link_adaptation_support() == 3 { "Solicited and Unsolicited" } else { "Unknown" }), bytes, 12, 2));
        subfields.push(bit_field("Unsolicited EPCS Priority Access Parameter Update", bool_string(self.unsolicited_epcs_priority_access_parameter_update()), bytes, 14, 1));
        subfields.push(reserved_bits(bytes, 15, 1));
        Field::new("EHT MAC Capabilities Information", "").with_subfields(subfields)
    }

}

/// The EHT PHY Capabilities Information field of an EHT Capabilities element.
#[derive(Debug, Clone, Copy, PartialEq, Eq, Hash)]
pub struct EhtPhyCapabilitiesInformation {
    bytes: [u8; 9],
}

impl EhtPhyCapabilitiesInformation {
    /// The encoded length in bytes.
    pub const LENGTH: usize = 9;

    /// Whether `bytes` (exactly 9 of them) encode a valid value.
    pub open spec fn spec_valid(bytes: Seq<u8>) -> bool {
        bytes.len() == 9
    }

    /// The encoded bytes.
    pub closed spec fn raw(&self) -> Seq<u8> {
        self.bytes@
    }

    /// Every value is encoded in exactly 9 bytes.
    pub proof fn lemma_raw_len(&self)
        ensures
            self.raw().len() == 9,
    {
    }

    /// Decodes the value from the first 9 bytes of `bytes`. `None` when there are fewer
    /// bytes or they do not encode a valid value.
    pub fn from_bytes(bytes: &[u8]) -> (r: Option<EhtPhyCapabilitiesInformation>)
        ensures
            r is Some <==> bytes@.len() >= 9 && Self::spec_valid(bytes@.subrange(0, 9)),
            r matches Some(v) ==> v.raw() == bytes@.subrange(0, 9),
    {
        if bytes.len() < 9 {
            return None;
        }
        let a: [u8; 9] = [bytes[0], bytes[1], bytes[2], bytes[3], bytes[4], bytes[5], bytes[6], bytes[7], bytes[8]];
        proof {
            assert(a@ =~= bytes@.subrange(0, 9));
        }
        Some(EhtPhyCapabilitiesInformation { bytes: a })
    }

    /// The encoded bytes.
    pub fn to_bytes(&self) -> (v: Vec<u8>)
        ensures
            v@ == self.raw(),
    {
        vstd::slice::slice_to_vec(self.bytes.as_slice())
    }

    /// The "Support for 320 MHz in 6 GHz" subfield (bit 1).
    pub open spec fn spec_support_for_320_mhz_in_6_ghz(&self) -> bool {
        bit_set(self.raw(), 1)
    }

    /// The "Support for 320 MHz in 6 GHz" subfield (bit 1).
    pub fn support_for_320_mhz_in_6_ghz(&self) -> (b: bool)
        ensures
            b == self.spec_support_for_320_mhz_in_6_ghz(),
    {
        read_bit(self.bytes.as_slice(), 1)
    }

    /// The "Support for 242-tone RU in BW Wider Than 20 MHz" subfield (bit 2).
    pub open spec fn spec_support_for_two_hundred_forty_two_tone_ru_in_bw_wider_than_twenty_mhz(&self) -> bool {
        bit_set(self.raw(), 2)
    }

    /// The "Support for 242-tone RU in BW Wider Than 20 MHz" subfield (bit 2).
    pub fn support_for_two_hundred_forty_two_tone_ru_in_bw_wider_than_twenty_mhz(&self) -> (b: bool)
        ensures
            b == self.spec_support_for_two_hundred_forty_two_tone_ru_in_bw_wider_than_twenty_mhz(),
    {
        read_bit(self.bytes.as_slice(), 2)
    }

    /// The "NDP With 4x EHT-LTF and 3.2 µs GI" subfield (bit 3).
    pub open spec fn spec_ndp_with_4x_eht_ltf_and_three_point_two_microseconds_gi(&self) -> bool {
        bit_set(self.raw(), 3)
    }

    /// The "NDP With 4x EHT-LTF and 3.2 µs GI" subfield (bit 3).
    pub fn ndp_with_4x_eht_ltf_and_three_point_two_microseconds_gi(&self) -> (b: bool)
        ensures
            b == self.spec_ndp_with_4x_eht_ltf_and_three_point_two_microseconds_gi(),
    {
        read_bit(self.bytes.as_slice(), 3)
    }

    /// The "Partial Bandwidth UL MU-MIMO" subfield (bit 4).
    pub open spec fn spec_partial_bandwidth_ul_mu_mimo(&self) -> bool {
        bit_set(self.raw(), 4)
    }

    /// The "Partial Bandwidth UL MU-MIMO" subfield (bit 4).
    pub fn partial_bandwidth_ul_mu_mimo(&self) -> (b: bool)
        ensures
            b == self.spec_partial_bandwidth_ul_mu_mimo(),
    {
        read_bit(self.bytes.as_slice(), 4)
    }

    /// The "SU Beamformer" subfield (bit 5).
    pub open spec fn spec_su_beamformer(&self) -> bool {
        bit_set(self.raw(), 5)
    }

    /// The "SU Beamformer" subfield (bit 5).
    pub fn su_beamformer(&self) -> (b: bool)
        ensures
            b == self.spec_su_beamformer(),
    {
        read_bit(self.bytes.as_slice(), 5)
    }

    /// The "SU Beamformee" subfield (bit 6).
    pub open spec fn spec_su_beamformee(&self) -> bool {
        bit_set(self.raw(), 6)
    }

    /// The "SU Beamformee" subfield (bit 6).
    pub fn su_beamformee(&self) -> (b: bool)
        ensures
            b == self.spec_su_beamformee(),
    {
        read_bit(self.bytes.as_slice(), 6)
    }

    /// The "Beamformee SS (≤ 80 MHz)" subfield (bits 7-9).
    pub open spec fn spec_beamformee_ss_less_than_or_equal_to_eighty_mhz(&self) -> u8 {
        bits_value(self.raw(), 7, 3) as u8
    }

    /// The "Beamformee SS (≤ 80 MHz)" subfield (bits 7-9).
    pub fn beamformee_ss_less_than_or_equal_to_eighty_mhz(&self) -> (v: u8)
        ensures
            v == self.spec_beamformee_ss_less_than_or_equal_to_eighty_mhz(),
            v == bits_value(self.raw(), 7, 3),
    {
        read_u8_bits(self.bytes.as_slice(), 7, 3)
    }

    /// The "Beamformee SS (= 160 MHz)" subfield (bits 10-12).
    pub open spec fn spec_beamformee_ss_equal_to_one_hundred_sixty_mhz(&self) -> u8 {
        bits_value(self.raw(), 10, 3) as u8
    }

    /// The "Beamformee SS (= 160 MHz)" subfield (bits 10-12).
    pub fn beamformee_ss_equal_to_one_hundred_sixty_mhz(&self) -> (v: u8)
        ensures
            v == self.spec_beamformee_ss_equal_to_one_hundred_sixty_mhz(),
            v == bits_value(self.raw(), 10, 3),
    {
        read_u8_bits(self.bytes.as_slice(), 10, 3)
    }

    /// The "Beamformee SS (= 320 MHz)" subfield (bits 13-15).
    pub open spec fn spec_beamformee_ss_equal_to_three_hundred_twenty_mhz(&self) -> u8 {
        bits_value(self.raw(), 13, 3) as u8
    }

    /// The "Beamformee SS (= 320 MHz)" subfield (bits 13-15).
    pub fn beamformee_ss_equal_to_three_hundred_twenty_mhz(&self) -> (v: u8)
        ensures
            v == self.spec_beamformee_ss_equal_to_three_hundred_twenty_mhz(),
            v == bits_value(self.raw(), 13, 3),
    {
        read_u8_bits(self.bytes.as_slice(), 13, 3)
    }

    /// The "Number of Sounding Dimensions (≤ 80 MHz)" subfield (bits 16-18).
    pub open spec fn spec_number_of_sounding_dimensions_less_than_or_equal_to_eighty_mhz(&self) -> u8 {
        bits_value(self.raw(), 16, 3) as u8
    }

    /// The "Number of Sounding Dimensions (≤ 80 MHz)" subfield (bits 16-18).
    pub fn number_of_sounding_dimensions_less_than_or_equal_to_eighty_mhz(&self) -> (v: u8)
        ensures
            v == self.spec_number_of_sounding_dimensions_less_than_or_equal_to_eighty_mhz(),
            v == bits_value(self.raw(), 16, 3),
    {
        read_u8_bits(self.bytes.as_slice(), 16, 3)
    }

    /// The "Number of Sounding Dimensions (= 160 MHz)" subfield (bits 19-21).
    pub open spec fn spec_number_of_sounding_dimensions_equal_to_one_hundred_sixty_mhz(&self) -> u8 {
        bits_value(self.raw(), 19, 3) as u8
    }

    /// The "Number of Sounding Dimensions (= 160 MHz)" subfield (bits 19-21).
    pub fn number_of_sounding_dimensions_equal_to_one_hundred_sixty_mhz(&self) -> (v: u8)
        ensures
            v == self.spec_number_of_sounding_dimensions_equal_to_one_hundred_sixty_mhz(),
            v == bits_value(self.raw(), 19, 3),
    {
        read_u8_bits(self.bytes.as_slice(), 19, 3)
    }

    /// The "Number of Sounding Dimensions (= 320 MHz)" subfield (bits 22-24).
    pub open spec fn spec_number_of_sounding_dimensions_equal_to_three_hundred_twenty_mhz(&self) -> u8 {
        bits_value(self.raw(), 22, 3) as u8
    }

    /// The "Number of Sounding Dimensions (= 320 MHz)" subfield (bits 22-24).
    pub fn number_of_sounding_dimensions_equal_to_three_hundred_twenty_mhz(&self) -> (v: u8)
        ensures
            v == self.spec_number_of_sounding_dimensions_equal_to_three_hundred_twenty_mhz(),
            v == bits_value(self.raw(), 22, 3),
    {
        read_u8_bits(self.bytes.as_slice(), 22, 3)
    }

    /// The "Ng = 16 SU Feedback" subfield (bit 25).
    pub open spec fn spec_ng_equals_sixteen_su_feedback(&self) -> bool {
        bit_set(self.raw(), 25)
    }

    /// The "Ng = 16 SU Feedback" subfield (bit 25).
    pub fn ng_equals_sixteen_su_feedback(&self) -> (b: bool)
        ensures
            b == self.spec_ng_equals_sixteen_su_feedback(),
    {
        read_bit(self.bytes.as_slice(), 25)
    }

    /// The "Ng = 16 MU Feedback" subfield (bit 26).
    pub open spec fn spec_ng_equals_sixteen_mu_feedback(&self) -> bool {
        bit_set(self.raw(), 26)
    }

    /// The "Ng = 16 MU Feedback" subfield (bit 26).
    pub fn ng_equals_sixteen_mu_feedback(&self) -> (b: bool)
        ensures
            b == self.spec_ng_equals_sixteen_mu_feedback(),
    {
        read_bit(self.bytes.as_slice(), 26)
    }

    /// The "Codebook Size {4, 2} SU Feedback" subfield (bit 27).
    pub open spec fn spec_codebook_size_su_feedback(&self) -> bool {
        bit_set(self.raw(), 27)
    }

    /// The "Codebook Size {4, 2} SU Feedback" subfield (bit 27).
    pub fn codebook_size_su_feedback(&self) -> (b: bool)
        ensures
            b == self.spec_codebook_size_su_feedback(),
    {
        read_bit(self.bytes.as_slice(), 27)
    }

    /// The "Codebook Size {7, 5} MU Feedback" subfield (bit 28).
    pub open spec fn spec_codebook_size_mu_feedback(&self) -> bool {
        bit_set(self.raw(), 28)
    }

    /// The "Codebook Size {7, 5} MU Feedback" subfield (bit 28).
    pub fn codebook_size_mu_feedback(&self) -> (b: bool)
        ensures
            b == self.spec_codebook_size_mu_feedback(),
    {
        read_bit(self.bytes.as_slice(), 28)
    }

    /// The "Triggered SU Beamforming Feedback" subfield (bit 29).
    pub open spec fn spec_triggered_su_beamforming_feedback(&self) -> bool {
        bit_set(self.raw(), 29)
    }

    /// The "Triggered SU Beamforming Feedback" subfield (bit 29).
    pub fn triggered_su_beamforming_feedback(&self) -> (b: bool)
        ensures
            b == self.spec_triggered_su_beamforming_feedback(),
    {
        read_bit(self.bytes.as_slice(), 29)
    }

    /// The "Triggered MU Beamforming Partial BW Feedback" subfield (bit 30).
    pub open spec fn spec_triggered_mu_beamforming_partial_bw_feedback(&self) -> bool {
        bit_set(self.raw(), 30)
    }

    /// The "Triggered MU Beamforming Partial BW Feedback" subfield (bit 30).
    pub fn triggered_mu_beamforming_partial_bw_feedback(&self) -> (b: bool)
        ensures
            b == self.spec_triggered_mu_beamforming_partial_bw_feedback(),
    {
        read_bit(self.bytes.as_slice(), 30)
    }

    /// The "Triggered CQI Feedback" subfield (bit 31).
    pub open spec fn spec_triggered_cqi_feedback(&self) -> bool {
        bit_set(self.raw(), 31)
    }

    /// The "Triggered CQI Feedback" subfield (bit 31).
    pub fn triggered_cqi_feedback(&self) -> (b: bool)
        ensures
            b == self.spec_triggered_cqi_feedback(),
    {
        read_bit(self.bytes.as_slice(), 31)
    }

    /// The "Partial Bandwidth DL MU-MIMO" subfield (bit 32).
    pub open spec fn spec_partial_bandwidth_dl_mu_mimo(&self) -> bool {
        bit_set(self.raw(), 32)
    }

    /// The "Partial Bandwidth DL MU-MIMO" subfield (bit 32).
    pub fn partial_bandwidth_dl_mu_mimo(&self) -> (b: bool)
        ensures
            b == self.spec_partial_bandwidth_dl_mu_mimo(),
    {
        read_bit(self.bytes.as_slice(), 32)
    }

    /// The "EHT PSR-Based SR Support" subfield (bit 33).
    pub open spec fn spec_eht_psr_based_sr_support(&self) -> bool {
        bit_set(self.raw(), 33)
    }

    /// The "EHT PSR-Based SR Support" subfield (bit 33).
    pub fn eht_psr_based_sr_support(&self) -> (b: bool)
        ensures
            b == self.spec_eht_psr_based_sr_support(),
    {
        read_bit(self.bytes.as_slice(), 33)
    }

    /// The "Power Boost Factor Support" subfield (bit 34).
    pub open spec fn spec_power_boost_factor_support(&self) -> bool {
        bit_set(self.raw(), 34)
    }

    /// The "Power Boost Factor Support" subfield (bit 34).
    pub fn power_boost_factor_support(&self) -> (b: bool)
        ensures
            b == self.spec_power_boost_factor_support(),
    {
        read_bit(self.bytes.as_slice(), 34)
    }

    /// The "EHT MU PPDU With 4x EHT-LTF and 0.8 µs GI" subfield (bit 35).
    pub open spec fn spec_eht_mu_ppdu_with_4x_eht_ltf_and_zero_point_eight_microseconds_gi(&self) -> bool {
        bit_set(self.raw(), 35)
    }

    /// The "EHT MU PPDU With 4x EHT-LTF and 0.8 µs GI" subfield (bit 35).
    pub fn eht_mu_ppdu_with_4x_eht_ltf_and_zero_point_eight_microseconds_gi(&self) -> (b: bool)
        ensures
            b == self.spec_eht_mu_ppdu_with_4x_eht_ltf_and_zero_point_eight_microseconds_gi(),
    {
        read_bit(self.bytes.as_slice(), 35)
    }

    /// The "Max Nc" subfield (bits 36-39).
    pub open spec fn spec_max_nc(&self) -> u8 {
        bits_value(self.raw(), 36, 4) as u8
    }

    /// The "Max Nc" subfield (bits 36-39).
    pub fn max_nc(&self) -> (v: u8)
        ensures
            v == self.spec_max_nc(),
            v == bits_value(self.raw(), 36, 4),
    {
        read_u8_bits(self.bytes.as_slice(), 36, 4)
    }

    /// The "Non-Triggered CQI Feedback" subfield (bit 40).
    pub open spec fn spec_non_triggered_cqi_feedback(&self) -> bool {
        bit_set(self.raw(), 40)
    }

    /// The "Non-Triggered CQI Feedback" subfield (bit 40).
    pub fn non_triggered_cqi_feedback(&self) -> (b: bool)
        ensures
            b == self.spec_non_triggered_cqi_feedback(),
    {
        read_bit(self.bytes.as_slice(), 40)
    }

    /// The "Tx 1024-QAM and 4096-QAM < 242-tone RU Support" subfield (bit 41).
    pub open spec fn spec_tx_1024_qam_and_4096_qam_less_than_242_tone_ru_support(&self) -> bool {
        bit_set(self.raw(), 41)
    }

    /// The "Tx 1024-QAM and 4096-QAM < 242-tone RU Support" subfield (bit 41).
    pub fn tx_1024_qam_and_4096_qam_less_than_242_tone_ru_support(&self) -> (b: bool)
        ensures
            b == self.spec_tx_1024_qam_and_4096_qam_less_than_242_tone_ru_support(),
    {
        read_bit(self.bytes.as_slice(), 41)
    }

    /// The "Rx 1024-QAM and 4096-QAM < 242-tone RU Support" subfield (bit 42).
    pub open spec fn spec_rx_1024_qam_and_4096_qam_less_than_242_tone_ru_support(&self) -> bool {
        bit_set(self.raw(), 42)
    }

    /// The "Rx 1024-QAM and 4096-QAM < 242-tone RU Support" subfield (bit 42).
    pub fn rx_1024_qam_and_4096_qam_less_than_242_tone_ru_support(&self) -> (b: bool)
        ensures
            b == self.spec_rx_1024_qam_and_4096_qam_less_than_242_tone_ru_support(),
    {
        read_bit(self.bytes.as_slice(), 42)
    }

    /// The "PPE Thresholds Present" subfield (bit 43).
    pub open spec fn spec_ppe_thresholds_present(&self) -> bool {
        bit_set(self.raw(), 43)
    }

    /// The "PPE Thresholds Present" subfield (bit 43).
    pub fn ppe_thresholds_present(&self) -> (b: bool)
        ensures
            b == self.spec_ppe_thresholds_present(),
    {
        read_bit(self.bytes.as_slice(), 43)
    }

    /// The "Common Nominal Packet Padding" subfield (bits 44-45).
    pub open spec fn spec_common_nominal_packet_padding(&self) -> u8 {
        bits_value(self.raw(), 44, 2) as u8
    }

    /// The "Common Nominal Packet Padding" subfield (bits 44-45).
    pub fn common_nominal_packet_padding(&self) -> (v: u8)
        ensures
            v == self.spec_common_nominal_packet_padding(),
            v == bits_value(self.raw(), 44, 2),
    {
        read_u8_bits(self.bytes.as_slice(), 44, 2)
    }

    /// The "Maximum Number of Supported EHT-LTFs" subfield (bits 46-50).
    pub open spec fn spec_maximum_number_of_supported_eht_ltfs(&self) -> u8 {
        bits_value(self.raw(), 46, 5) as u8
    }

    /// The "Maximum Number of Supported EHT-LTFs" subfield (bits 46-50).
    pub fn maximum_number_of_supported_eht_ltfs(&self) -> (v: u8)
        ensures
            v == self.spec_maximum_number_of_supported_eht_ltfs(),
            v == bits_value(self.raw(), 46, 5),
    {
        read_u8_bits(self.bytes.as_slice(), 46, 5)
    }

    /// The "Support of EHT-MCS 15 in MRU" subfield (bits 51-54).
    pub open spec fn spec_support_of_eht_mcs_15_in_mru(&self) -> u8 {
        bits_value(self.raw(), 51, 4) as u8
    }

    /// The "Support of EHT-MCS 15 in MRU" subfield (bits 51-54).
    pub fn support_of_eht_mcs_15_in_mru(&self) -> (v: u8)
        ensures
            v == self.spec_support_of_eht_mcs_15_in_mru(),
            v == bits_value(self.raw(), 51, 4),
    {
        read_u8_bits(self.bytes.as_slice(), 51, 4)
    }

    /// The "Support of EHT DUP in 6 GHz" subfield (bit 55).
    pub open spec fn spec_support_of_eht_dup_in_6_ghz(&self) -> bool {
        bit_set(self.raw(), 55)
    }

    /// The "Support of EHT DUP in 6 GHz" subfield (bit 55).
    pub fn support_of_eht_dup_in_6_ghz(&self) -> (b: bool)
        ensures
            b == self.spec_support_of_eht_dup_in_6_ghz(),
    {
        read_bit(self.bytes.as_slice(), 55)
    }

    /// The "Support for 20 MHz Operating STA Receiving NDP With Wider BW" subfield (bit 56).
    pub open spec fn spec_support_for_20_mhz_operating_sta_receiving_ndp_with_wider_bandwidth(&self) -> bool {
        bit_set(self.raw(), 56)
    }

    /// The "Support for 20 MHz Operating STA Receiving NDP With Wider BW" subfield (bit 56).
    pub fn support_for_20_mhz_operating_sta_receiving_ndp_with_wider_bandwidth(&self) -> (b: bool)
        ensures
            b == self.spec_support_for_20_mhz_operating_sta_receiving_ndp_with_wider_bandwidth(),
    {
        read_bit(self.bytes.as_slice(), 56)
    }

    /// The "Non-OFDMA UL MU-MIMO (≤ 80 MHz)" subfield (bit 57).
    pub open spec fn spec_non_ofdma_ul_mu_mimo_bw_less_than_or_equal_to_eighty_mhz(&self) -> bool {
        bit_set(self.raw(), 57)
    }

    /// The "Non-OFDMA UL MU-MIMO (≤ 80 MHz)" subfield (bit 57).
    pub fn non_ofdma_ul_mu_mimo_bw_less_than_or_equal_to_eighty_mhz(&self) -> (b: bool)
        ensures
            b == self.spec_non_ofdma_ul_mu_mimo_bw_less_than_or_equal_to_eighty_mhz(),
    {
        read_bit(self.bytes.as_slice(), 57)
    }

    /// The "Non-OFDMA UL MU-MIMO (= 160 MHz)" subfield (bit 58).
    pub open spec fn spec_non_ofdma_ul_mu_mimo_bw_equal_to_160_mhz(&self) -> bool {
        bit_set(self.raw(), 58)
    }

    /// The "Non-OFDMA UL MU-MIMO (= 160 MHz)" subfield (bit 58).
    pub fn non_ofdma_ul_mu_mimo_bw_equal_to_160_mhz(&self) -> (b: bool)
        ensures
            b == self.spec_non_ofdma_ul_mu_mimo_bw_equal_to_160_mhz(),
    {
        read_bit(self.bytes.as_slice(), 58)
    }

    /// The "Non-OFDMA UL MU-MIMO (= 320 MHz)" subfield (bit 59).
    pub open spec fn spec_non_ofdma_ul_mu_mimo_bw_equal_to_320_mhz(&self) -> bool {
        bit_set(self.raw(), 59)
    }

    /// The "Non-OFDMA UL MU-MIMO (= 320 MHz)" subfield (bit 59).
    pub fn non_ofdma_ul_mu_mimo_bw_equal_to_320_mhz(&self) -> (b: bool)
        ensures
            b == self.spec_non_ofdma_ul_mu_mimo_bw_equal_to_320_mhz(),
    {
        read_bit(self.bytes.as_slice(), 59)
    }

    /// The "MU Beamformer (≤ 80 MHz)" subfield (bit 60).
    pub open spec fn spec_mu_beamformer_bw_less_than_or_equal_to_80_mhz(&self) -> bool {
        bit_set(self.raw(), 60)
    }

    /// The "MU Beamformer (≤ 80 MHz)" subfield (bit 60).
    pub fn mu_beamformer_bw_less_than_or_equal_to_80_mhz(&self) -> (b: bool)
        ensures
            b == self.spec_mu_beamformer_bw_less_than_or_equal_to_80_mhz(),
    {
        read_bit(self.bytes.as_slice(), 60)
    }

    /// The "MU Beamformer (= 160 MHz)" subfield (bit 61).
    pub open spec fn spec_mu_beamformer_bw_equal_to_160_mhz(&self) -> bool {
        bit_set(self.raw(), 61)
    }

    /// The "MU Beamformer (= 160 MHz)" subfield (bit 61).
    pub fn mu_beamformer_bw_equal_to_160_mhz(&self) -> (b: bool)
        ensures
            b == self.spec_mu_beamformer_bw_equal_to_160_mhz(),
    {
        read_bit(self.bytes.as_slice(), 61)
    }

    /// The "MU Beamformer (= 320 MHz)" subfield (bit 62).
    pub open spec fn spec_mu_beamformer_equal_to_320_mhz(&self) -> bool {
        bit_set(self.raw(), 62)
    }

    /// The "MU Beamformer (= 320 MHz)" subfield (bit 62).
    pub fn mu_beamformer_equal_to_320_mhz(&self) -> (b: bool)
        ensures
            b == self.spec_mu_beamformer_equal_to_320_mhz(),
    {
        read_bit(self.bytes.as_slice(), 62)
    }

    /// The "TB Sounding Feedback Rate Limit" subfield (bit 63).
    pub open spec fn spec_tb_sounding_feedback_rate_limit(&self) -> bool {
        bit_set(self.raw(), 63)
    }

    /// The "TB Sounding Feedback Rate Limit" subfield (bit 63).
    pub fn tb_sounding_feedback_rate_limit(&self) -> (b: bool)
        ensures
            b == self.spec_tb_sounding_feedback_rate_limit(),
    {
        read_bit(self.bytes.as_slice(), 63)
    }

    /// The "Rx 1024-QAM in Wider BW DL OFDMA Support" subfield (bit 64).
    pub open spec fn spec_rx_1024_qam_in_wider_bandwidth_dl_ofdma_support(&self) -> bool {
        bit_set(self.raw(), 64)
    }

    /// The "Rx 1024-QAM in Wider BW DL OFDMA Support" subfield (bit 64).
    pub fn rx_1024_qam_in_wider_bandwidth_dl_ofdma_support(&self) -> (b: bool)
        ensures
            b == self.spec_rx_1024_qam_in_wider_bandwidth_dl_ofdma_support(),
    {
        read_bit(self.bytes.as_slice(), 64)
    }

    /// The "Rx 4096-QAM in Wider BW DL OFDMA Support" subfield (bit 65).
    pub open spec fn spec_rx_4096_qam_in_wider_bandwidth_dl_ofdma_support(&self) -> bool {
        bit_set(self.raw(), 65)
    }

    /// The "Rx 4096-QAM in Wider BW DL OFDMA Support" subfield (bit 65).
    pub fn rx_4096_qam_in_wider_bandwidth_dl_ofdma_support(&self) -> (b: bool)
        ensures
            b == self.spec_rx_4096_qam_in_wider_bandwidth_dl_ofdma_support(),
    {
        read_bit(self.bytes.as_slice(), 65)
    }

    /// The "20 MHz-Only Limited Capabilities Support" subfield (bit 66).
    pub open spec fn spec_twenty_mhz_only_limited_capabilities_support(&self) -> bool {
        bit_set(self.raw(), 66)
    }

    /// The "20 MHz-Only Limited Capabilities Support" subfield (bit 66).
    pub fn twenty_mhz_only_limited_capabilities_support(&self) -> (b: bool)
        ensures
            b == self.spec_twenty_mhz_only_limited_capabilities_support(),
    {
        read_bit(self.bytes.as_slice(), 66)
    }

    /// The "20 MHz-Only Triggered MU Beamforming Full BW Feedback and DL MU-MIMO" subfield (bit 67).
    pub open spec fn spec_twenty_mhz_only_triggered_mu_beamforming_full_bw_feedback_and_dl_mu_mimo(&self) -> bool {
        bit_set(self.raw(), 67)
    }

    /// The "20 MHz-Only Triggered MU Beamforming Full BW Feedback and DL MU-MIMO" subfield (bit 67).
    pub fn twenty_mhz_only_triggered_mu_beamforming_full_bw_feedback_and_dl_mu_mimo(&self) -> (b: bool)
        ensures
            b == self.spec_twenty_mhz_only_triggered_mu_beamforming_full_bw_feedback_and_dl_mu_mimo(),
    {
        read_bit(self.bytes.as_slice(), 67)
    }

    /// The "20 MHz-Only MRU Support" subfield (bit 68).
    pub open spec fn spec_twenty_mhz_only_mru_support(&self) -> bool {
        bit_set(self.raw(), 68)
    }

    /// The "20 MHz-Only MRU Support" subfield (bit 68).
    pub fn twenty_mhz_only_mru_support(&self) -> (b: bool)
        ensures
            b == self.spec_twenty_mhz_only_mru_support(),
    {
        read_bit(self.bytes.as_slice(), 68)
    }

    /// Whether `f` is the displayable field of this value: one subfield per bit field.
    pub open spec fn field_shows(&self, f: Field) -> bool {
        &&& f.title@ == "EHT PHY Capabilities Information"@
        &&& f.value@ == ""@
        &&& f.byte is None
        &&& f.bytes is None
        &&& f.bits is None
        &&& f.units is None
        &&& f.subfields@.len() == 47
        &&& reserved_field_is(f.subfields@[0], self.raw(), 0, 1)
        &&& bit_field_is(f.subfields@[1], "Support for 320 MHz in 6 GHz"@, bool_text(self.spec_support_for_320_mhz_in_6_ghz()), None, self.raw(), 1, 1)
        &&& bit_field_is(f.subfields@[2], "Support for 242-tone RU in BW Wider Than 20 MHz"@, bool_text(self.spec_support_for_two_hundred_forty_two_tone_ru_in_bw_wider_than_twenty_mhz()), None, self.raw(), 2, 1)
        &&& bit_field_is(f.subfields@[3], "NDP With 4x EHT-LTF and 3.2 µs GI"@, bool_text(self.spec_ndp_with_4x_eht_ltf_and_three_point_two_microseconds_gi()), None, self.raw(), 3, 1)
        &&& bit_field_is(f.subfields@[4], "Partial Bandwidth UL MU-MIMO"@, bool_text(self.spec_partial_bandwidth_ul_mu_mimo()), None, self.raw(), 4, 1)
        &&& bit_field_is(f.subfields@[5], "SU Beamformer"@, bool_text(self.spec_su_beamformer()), None, self.raw(), 5, 1)
        &&& bit_field_is(f.subfields@[6], "SU Beamformee"@, bool_text(self.spec_su_beamformee()), None, self.raw(), 6, 1)
        &&& bit_field_is(f.subfields@[7], "Beamformee SS (≤ 80 MHz)"@, decimal(self.spec_beamformee_ss_less_than_or_equal_to_eighty_mhz() as nat), None, self.raw(), 7, 3)
        &&& bit_field_is(f.subfields@[8], "Beamformee SS (= 160 MHz)"@, decimal(self.spec_beamformee_ss_equal_to_one_hundred_sixty_mhz() as nat), None, self.raw(), 10, 3)
        &&& bit_field_is(f.subfields@[9], "Beamformee SS (= 320 MHz)"@, decimal(self.spec_beamformee_ss_equal_to_three_hundred_twenty_mhz() as nat), None, self.raw(), 13, 3)
        &&& bit_field_is(f.subfields@[10], "Number of Sounding Dimensions (≤ 80 MHz)"@, decimal(self.spec_number_of_sounding_dimensions_less_than_or_equal_to_eighty_mhz() as nat), None, self.raw(), 16, 3)
        &&& bit_field_is(f.subfields@[11], "Number of Sounding Dimensions (= 160 MHz)"@, decimal(self.spec_number_of_sounding_dimensions_equal_to_one_hundred_sixty_mhz() as nat), None, self.raw(), 19, 3)
        &&& bit_field_is(f.subfields@[12], "Number of Sounding Dimensions (= 320 MHz)"@, decimal(self.spec_number_of_sounding_dimensions_equal_to_three_hundred_twenty_mhz() as nat), None, self.raw(), 22, 3)
        &&& bit_field_is(f.subfields@[13], "Ng = 16 SU Feedback"@, bool_text(self.spec_ng_equals_sixteen_su_feedback()), None, self.raw(), 25, 1)
        &&& bit_field_is(f.subfields@[14], "Ng = 16 MU Feedback"@, bool_text(self.spec_ng_equals_sixteen_mu_feedback()), None, self.raw(), 26, 1)
        &&& bit_field_is(f.subfields@[15], "Codebook Size {4, 2} SU Feedback"@, bool_text(self.spec_codebook_size_su_feedback()), None, self.raw(), 27, 1)
        &&& bit_field_is(f.subfields@[16], "Codebook Size {7, 5} MU Feedback"@, bool_text(self.spec_codebook_size_mu_feedback()), None, self.raw(), 28, 1)
        &&& bit_field_is(f.subfields@[17], "Triggered SU Beamforming Feedback"@, bool_text(self.spec_triggered_su_beamforming_feedback()), None, self.raw(), 29, 1)
        &&& bit_field_is(f.subfields@[18], "Triggered MU Beamforming Partial BW Feedback"@, bool_text(self.spec_triggered_mu_beamforming_partial_bw_feedback()), None, self.raw(), 30, 1)
        &&& bit_field_is(f.subfields@[19], "Triggered CQI Feedback"@, bool_text(self.spec_triggered_cqi_feedback()), None, self.raw(), 31, 1)
        &&& bit_field_is(f.subfields@[20], "Partial Bandwidth DL MU-MIMO"@, bool_text(self.spec_partial_bandwidth_dl_mu_mimo()), None, self.raw(), 32, 1)
        &&& bit_field_is(f.subfields@[21], "EHT PSR-Based SR Support"@, bool_text(self.spec_eht_psr_based_sr_support()), None, self.raw(), 33, 1)
        &&& bit_field_is(f.subfields@[22], "Power Boost Factor Support"@, bool_text(self.spec_power_boost_factor_support()), None, self.raw(), 34, 1)
        &&& bit_field_is(f.subfields@[23], "EHT MU PPDU With 4x EHT-LTF and 0.8 µs GI"@, bool_text(self.spec_eht_mu_ppdu_with_4x_eht_ltf_and_zero_point_eight_microseconds_gi()), None, self.raw(), 35, 1)
        &&& bit_field_is(f.subfields@[24], "Max Nc"@, decimal(self.spec_max_nc() as nat), None, self.raw(), 36, 4)
        &&& bit_field_is(f.subfields@[25], "Non-Triggered CQI Feedback"@, bool_text(self.spec_non_triggered_cqi_feedback()), None, self.raw(), 40, 1)
        &&& bit_field_is(f.subfields@[26], "Tx 1024-QAM and 4096-QAM < 242-tone RU Support"@, bool_text(self.spec_tx_1024_qam_and_4096_qam_less_than_242_tone_ru_support()), None, self.raw(), 41, 1)
        &&& bit_field_is(f.subfields@[27], "Rx 1024-QAM and 4096-QAM < 242-tone RU Support"@, bool_text(self.spec_rx_1024_qam_and_4096_qam_less_than_242_tone_ru_support()), None, self.raw(), 42, 1)
        &&& bit_field_is(f.subfields@[28], "PPE Thresholds Present"@, bool_text(self.spec_ppe_thresholds_present()), None, self.raw(), 43, 1)
        &&& bit_field_is(f.subfields@[29], "Common Nominal Packet Padding"@, if self.spec_common_nominal_packet_padding() == 0 { "0"@ } else if self.spec_common_nominal_packet_padding() == 1 { "8"@ } else if self.spec_common_nominal_packet_padding() == 2 { "16"@ } else if self.spec_common_nominal_packet_padding() == 3 { "20"@ } else { "Unknown"@ }, Some("µs"@), self.raw(), 44, 2)
        &&& bit_field_is(f.subfields@[30], "Maximum Number of Supported EHT-LTFs"@, decimal(self.spec_maximum_number_of_supported_eht_ltfs() as nat), None, self.raw(), 46, 5)
        &&& bit_field_is(f.subfields@[31], "Support of EHT-MCS 15 in MRU"@, decimal(self.spec_support_of_eht_mcs_15_in_mru() as nat), None, self.raw(), 51, 4)
        &&& bit_field_is(f.subfields@[32], "Support of EHT DUP in 6 GHz"@, bool_text(self.spec_support_of_eht_dup_in_6_ghz()), None, self.raw(), 55, 1)
        &&& bit_field_is(f.subfields@[33], "Support for 20 MHz Operating STA Receiving NDP With Wider BW"@, bool_text(self.spec_support_for_20_mhz_operating_sta_receiving_ndp_with_wider_bandwidth()), None, self.raw(), 56, 1)
        &&& bit_field_is(f.subfields@[34], "Non-OFDMA UL MU-MIMO (≤ 80 MHz)"@, bool_text(self.spec_non_ofdma_ul_mu_mimo_bw_less_than_or_equal_to_eighty_mhz()), None, self.raw(), 57, 1)
        &&& bit_field_is(f.subfields@[35], "Non-OFDMA UL MU-MIMO (= 160 MHz)"@, bool_text(self.spec_non_ofdma_ul_mu_mimo_bw_equal_to_160_mhz()), None, self.raw(), 58, 1)
        &&& bit_field_is(f.subfields@[36], "Non-OFDMA UL MU-MIMO (= 320 MHz)"@, bool_text(self.spec_non_ofdma_ul_mu_mimo_bw_equal_to_320_mhz()), None, self.raw(), 59, 1)
        &&& bit_field_is(f.subfields@[37], "MU Beamformer (≤ 80 MHz)"@, bool_text(self.spec_mu_beamformer_bw_less_than_or_equal_to_80_mhz()), None, self.raw(), 60, 1)
        &&& bit_field_is(f.subfields@[38], "MU Beamformer (= 160 MHz)"@, bool_text(self.spec_mu_beamformer_bw_equal_to_160_mhz()), None, self.raw(), 61, 1)
        &&& bit_field_is(f.subfields@[39], "MU Beamformer (= 320 MHz)"@, bool_text(self.spec_mu_beamformer_equal_to_320_mhz()), None, self.raw(), 62, 1)
        &&& bit_field_is(f.subfields@[40], "TB Sounding Feedback Rate Limit"@, bool_text(self.spec_tb_sounding_feedback_rate_limit()), None, self.raw(), 63, 1)
        &&& bit_field_is(f.subfields@[41], "Rx 1024-QAM in Wider BW DL OFDMA Support"@, bool_text(self.spec_rx_1024_qam_in_wider_bandwidth_dl_ofdma_support()), None, self.raw(), 64, 1)
        &&& bit_field_is(f.subfields@[42], "Rx 4096-QAM in Wider BW DL OFDMA Support"@, bool_text(self.spec_rx_4096_qam_in_wider_bandwidth_dl_ofdma_support()), None, self.raw(), 65, 1)
        &&& bit_field_is(f.subfields@[43], "20 MHz-Only Limited Capabilities Support"@, bool_text(self.spec_twenty_mhz_only_limited_capabilities_support()), None, self.raw(), 66, 1)
        &&& bit_field_is(f.subfields@[44], "20 MHz-Only Triggered MU Beamforming Full BW Feedback and DL MU-MIMO"@, bool_text(self.spec_twenty_mhz_only_triggered_mu_beamforming_full_bw_feedback_and_dl_mu_mimo()), None, self.raw(), 67, 1)
        &&& bit_field_is(f.subfields@[45], "20 MHz-Only MRU Support"@, bool_text(self.spec_twenty_mhz_only_mru_support()), None, self.raw(), 68, 1)
        &&& reserved_field_is(f.subfields@[46], self.raw(), 69, 3)
    }

    /// The value as a displayable field with one subfield per bit field.
    #[verifier::rlimit(40)]
    pub fn to_field(&self) -> (f: Field)
        ensures
            self.field_shows(f),
    {
        let bytes = self.bytes.as_slice();
        let mut subfields: Vec<Field> = Vec::new();
        self.push_subfields_0(bytes, &mut subfields);
        self.push_subfields_1(bytes, &mut subfields);
        self.push_subfields_2(bytes, &mut subfields);
        self.push_subfields_3(bytes, &mut subfields);
        Field::new("EHT PHY Capabilities Information", "").with_subfields(subfields)
    }

    /// Appends the subfields 0 to 11 of the displayable field.
    fn push_subfields_0(&self, bytes: &[u8], subfields: &mut Vec<Field>)
        requires
            bytes@ == self.raw(),
            old(subfields)@.len() == 0,
        ensures
            final(subfields)@.len() == 12,
            forall|j: int| 0 <= j < 0 ==> final(subfields)@[j] == old(subfields)@[j],
            reserved_field_is(final(subfields)@[0], self.raw(), 0, 1),
            bit_field_is(final(subfields)@[1], "Support for 320 MHz in 6 GHz"@, bool_text(self.spec_support_for_320_mhz_in_6_ghz()), None, self.raw(), 1, 1),
            bit_field_is(final(subfields)@[2], "Support for 242-tone RU in BW Wider Than 20 MHz"@, bool_text(self.spec_support_for_two_hundred_forty_two_tone_ru_in_bw_wider_than_twenty_mhz()), None, self.raw(), 2, 1),
            bit_field_is(final(subfields)@[3], "NDP With 4x EHT-LTF and 3.2 µs GI"@, bool_text(self.spec_ndp_with_4x_eht_ltf_and_three_point_two_microseconds_gi()), None, self.raw(), 3, 1),
            bit_field_is(final(subfields)@[4], "Partial Bandwidth UL MU-MIMO"@, bool_text(self.spec_partial_bandwidth_ul_mu_mimo()), None, self.raw(), 4, 1),
            bit_field_is(final(subfields)@[5], "SU Beamformer"@, bool_text(self.spec_su_beamformer()), None, self.raw(), 5, 1),
            bit_field_is(final(subfields)@[6], "SU Beamformee"@, bool_text(self.spec_su_beamformee()), None, self.raw(), 6, 1),
            bit_field_is(final(subfields)@[7], "Beamformee SS (≤ 80 MHz)"@, decimal(self.spec_beamformee_ss_less_than_or_equal_to_eighty_mhz() as nat), None, self.raw(), 7, 3),
            bit_field_is(final(subfields)@[8], "Beamformee SS (= 160 MHz)"@, decimal(self.spec_beamformee_ss_equal_to_one_hundred_sixty_mhz() as nat), None, self.raw(), 10, 3),
            bit_field_is(final(subfields)@[9], "Beamformee SS (= 320 MHz)"@, decimal(self.spec_beamformee_ss_equal_to_three_hundred_twenty_mhz() as nat), None, self.raw(), 13, 3),
            bit_field_is(final(subfields)@[10], "Number of Sounding Dimensions (≤ 80 MHz)"@, decimal(self.spec_number_of_sounding_dimensions_less_than_or_equal_to_eighty_mhz() as nat), None, self.raw(), 16, 3),
            bit_field_is(final(subfields)@[11], "Number of Sounding Dimensions (= 160 MHz)"@, decimal(self.spec_number_of_sounding_dimensions_equal_to_one_hundred_sixty_mhz() as nat), None, self.raw(), 19, 3),
    {
        subfields.push(reserved_bits(bytes, 0, 1));
        subfields.push(bit_field("Support for 320 MHz in 6 GHz", bool_string(self.support_for_320_mhz_in_6_ghz()), bytes, 1, 1));
        subfields.push(bit_field("Support for 242-tone RU in BW Wider Than 20 MHz", bool_string(self.support_for_two_hundred_forty_two_tone_ru_in_bw_wider_than_twenty_mhz()), bytes, 2, 1));
        subfields.push(bit_field("NDP With 4x EHT-LTF and 3.2 µs GI", bool_string(self.ndp_with_4x_eht_ltf_and_three_point_two_microseconds_gi()), bytes, 3, 1));
        subfields.push(bit_field("Partial Bandwidth UL MU-MIMO", bool_string(self.partial_bandwidth_ul_mu_mimo()), bytes, 4, 1));
        subfields.push(bit_field("SU Beamformer", bool_string(self.su_beamformer()), bytes, 5, 1));
        subfields.push(bit_field("SU Beamformee", bool_string(self.su_beamformee()), bytes, 6, 1));
        subfields.push(bit_field("Beamformee SS (≤ 80 MHz)", u64_text(self.beamformee_ss_less_than_or_equal_to_eighty_mhz() as u64), bytes, 7, 3));
        subfields.push(bit_field("Beamformee SS (= 160 MHz)", u64_text(self.beamformee_ss_equal_to_one_hundred_sixty_mhz() as u64), bytes, 10, 3));
        subfields.push(bit_field("Beamformee SS (= 320 MHz)", u64_text(self.beamformee_ss_equal_to_three_hundred_twenty_mhz() as u64), bytes, 13, 3));
        subfields.push(bit_field("Number of Sounding Dimensions (≤ 80 MHz)", u64_text(self.number_of_sounding_dimensions_less_than_or_equal_to_eighty_mhz() as u64), bytes, 16, 3));
        subfields.push(bit_field("Number of Sounding Dimensions (= 160 MHz)", u64_text(self.number_of_sounding_dimensions_equal_to_one_hundred_sixty_mhz() as u64), bytes, 19, 3));
    }

    /// Appends the subfields 12 to 23 of the displayable field.
    fn push_subfields_1(&self, bytes: &[u8], subfields: &mut Vec<Field>)
        requires
            bytes@ == self.raw(),
            old(subfields)@.len() == 12,
        ensures
            final(subfields)@.len() == 24,
            forall|j: int| 0 <= j < 12 ==> final(subfields)@[j] == old(subfields)@[j],
            bit_field_is(final(subfields)@[12], "Number of Sounding Dimensions (= 320 MHz)"@, decimal(self.spec_number_of_sounding_dimensions_equal_to_three_hundred_twenty_mhz() as nat), None, self.raw(), 22, 3),
            bit_field_is(final(subfields)@[13], "Ng = 16 SU Feedback"@, bool_text(self.spec_ng_equals_sixteen_su_feedback()), None, self.raw(), 25, 1),
            bit_field_is(final(subfields)@[14], "Ng = 16 MU Feedback"@, bool_text(self.spec_ng_equals_sixteen_mu_feedback()), None, self.raw(), 26, 1),
            bit_field_is(final(subfields)@[15], "Codebook Size {4, 2} SU Feedback"@, bool_text(self.spec_codebook_size_su_feedback()), None, self.raw(), 27, 1),
            bit_field_is(final(subfields)@[16], "Codebook Size {7, 5} MU Feedback"@, bool_text(self.spec_codebook_size_mu_feedback()), None, self.raw(), 28, 1),
            bit_field_is(final(subfields)@[17], "Triggered SU Beamforming Feedback"@, bool_text(self.spec_triggered_su_beamforming_feedback()), None, self.raw(), 29, 1),
            bit_field_is(final(subfields)@[18], "Triggered MU Beamforming Partial BW Feedback"@, bool_text(self.spec_triggered_mu_beamforming_partial_bw_feedback()), None, self.raw(), 30, 1),
            bit_field_is(final(subfields)@[19], "Triggered CQI Feedback"@, bool_text(self.spec_triggered_cqi_feedback()), None, self.raw(), 31, 1),
            bit_field_is(final(subfields)@[20], "Partial Bandwidth DL MU-MIMO"@, bool_text(self.spec_partial_bandwidth_dl_mu_mimo()), None, self.raw(), 32, 1),
            bit_field_is(final(subfields)@[21], "EHT PSR-Based SR Support"@, bool_text(self.spec_eht_psr_based_sr_support()), None, self.raw(), 33, 1),
            bit_field_is(final(subfields)@[22], "Power Boost Factor Support"@, bool_text(self.spec_power_boost_factor_support()), None, self.raw(), 34, 1),
            bit_field_is(final(subfields)@[23], "EHT MU PPDU With 4x EHT-LTF and 0.8 µs GI"@, bool_text(self.spec_eht_mu_ppdu_with_4x_eht_ltf_and_zero_point_eight_microseconds_gi()), None, self.raw(), 35, 1),
    {
        subfields.push(bit_field("Number of Sounding Dimensions (= 320 MHz)", u64_text(self.number_of_sounding_dimensions_equal_to_three_hundred_twenty_mhz() as u64), bytes, 22, 3));
        subfields.push(bit_field("Ng = 16 SU Feedback", bool_string(self.ng_equals_sixteen_su_feedback()), bytes, 25, 1));
        subfields.push(bit_field("Ng = 16 MU Feedback", bool_string(self.ng_equals_sixteen_mu_feedback()), bytes, 26, 1));
        subfields.push(bit_field("Codebook Size {4, 2} SU Feedback", bool_string(self.codebook_size_su_feedback()), bytes, 27, 1));
        subfields.push(bit_field("Codebook Size {7, 5} MU Feedback", bool_string(self.codebook_size_mu_feedback()), bytes, 28, 1));
        subfields.push(bit_field("Triggered SU Beamforming Feedback", bool_string(self.triggered_su_beamforming_feedback()), bytes, 29, 1));
        subfields.push(bit_field("Triggered MU Beamforming Partial BW Feedback", bool_string(self.triggered_mu_beamforming_partial_bw_feedback()), bytes, 30, 1));
        subfields.push(bit_field("Triggered CQI Feedback", bool_string(self.triggered_cqi_feedback()), bytes, 31, 1));
        subfields.push(bit_field("Partial Bandwidth DL MU-MIMO", bool_string(self.partial_bandwidth_dl_mu_mimo()), bytes, 32, 1));
        subfields.push(bit_field("EHT PSR-Based SR Support", bool_string(self.eht_psr_based_sr_support()), bytes, 33, 1));
        subfields.push(bit_field("Power Boost Factor Support", bool_string(self.power_boost_factor_support()), bytes, 34, 1));
        subfields.push(bit_field("EHT MU PPDU With 4x EHT-LTF and 0.8 µs GI", bool_string(self.eht_mu_ppdu_with_4x_eht_ltf_and_zero_point_eight_microseconds_gi()), bytes, 35, 1));
    }

    /// Appends the subfields 24 to 35 of the displayable field.
    fn push_subfields_2(&self, bytes: &[u8], subfields: &mut Vec<Field>)
        requires
            bytes@ == self.raw(),
            old(subfields)@.len() == 24,
        ensures
            final(subfields)@.len() == 36,
            forall|j: int| 0 <= j < 24 ==> final(subfields)@[j] == old(subfields)@[j],
            bit_field_is(final(subfields)@[24], "Max Nc"@, decimal(self.spec_max_nc() as nat), None, self.raw(), 36, 4),
            bit_field_is(final(subfields)@[25], "Non-Triggered CQI Feedback"@, bool_text(self.spec_non_triggered_cqi_feedback()), None, self.raw(), 40, 1),
            bit_field_is(final(subfields)@[26], "Tx 1024-QAM and 4096-QAM < 242-tone RU Support"@, bool_text(self.spec_tx_1024_qam_and_4096_qam_less_than_242_tone_ru_support()), None, self.raw(), 41, 1),
            bit_field_is(final(subfields)@[27], "Rx 1024-QAM and 4096-QAM < 242-tone RU Support"@, bool_text(self.spec_rx_1024_qam_and_4096_qam_less_than_242_tone_ru_support()), None, self.raw(), 42, 1),
            bit_field_is(final(subfields)@[28], "PPE Thresholds Present"@, bool_text(self.spec_ppe_thresholds_present()), None, self.raw(), 43, 1),
            bit_field_is(final(subfields)@[29], "Common Nominal Packet Padding"@, if self.spec_common_nominal_packet_padding() == 0 { "0"@ } else if self.spec_common_nominal_packet_padding() == 1 { "8"@ } else if self.spec_common_nominal_packet_padding() == 2 { "16"@ } else if self.spec_common_nominal_packet_padding() == 3 { "20"@ } else { "Unknown"@ }, Some("µs"@), self.raw(), 44, 2),
            bit_field_is(final(subfields)@[30], "Maximum Number of Supported EHT-LTFs"@, decimal(self.spec_maximum_number_of_supported_eht_ltfs() as nat), None, self.raw(), 46, 5),
            bit_field_is(final(subfields)@[31], "Support of EHT-MCS 15 in MRU"@, decimal(self.spec_support_of_eht_mcs_15_in_mru() as nat), None, self.raw(), 51, 4),
            bit_field_is(final(subfields)@[32], "Support of EHT DUP in 6 GHz"@, bool_text(self.spec_support_of_eht_dup_in_6_ghz()), None, self.raw(), 55, 1),
            bit_field_is(final(subfields)@[33], "Support for 20 MHz Operating STA Receiving NDP With Wider BW"@, bool_text(self.spec_support_for_20_mhz_operating_sta_receiving_ndp_with_wider_bandwidth()), None, self.raw(), 56, 1),
            bit_field_is(final(subfields)@[34], "Non-OFDMA UL MU-MIMO (≤ 80 MHz)"@, bool_text(self.spec_non_ofdma_ul_mu_mimo_bw_less_than_or_equal_to_eighty_mhz()), None, self.raw(), 57, 1),
            bit_field_is(final(subfields)@[35], "Non-OFDMA UL MU-MIMO (= 160 MHz)"@, bool_text(self.spec_non_ofdma_ul_mu_mimo_bw_equal_to_160_mhz()), None, self.raw(), 58, 1),
    {
        subfields.push(bit_field("Max Nc", u64_text(self.max_nc() as u64), bytes, 36, 4));
        subfields.push(bit_field("Non-Triggered CQI Feedback", bool_string(self.non_triggered_cqi_feedback()), bytes, 40, 1));
        subfields.push(bit_field("Tx 1024-QAM and 4096-QAM < 242-tone RU Support", bool_string(self.tx_1024_qam_and_4096_qam_less_than_242_tone_ru_support()), bytes, 41, 1));
        subfields.push(bit_field("Rx 1024-QAM and 4096-QAM < 242-tone RU Support", bool_string(self.rx_1024_qam_and_4096_qam_less_than_242_tone_ru_support()), bytes, 42, 1));
        subfields.push(bit_field("PPE Thresholds Present", bool_string(self.ppe_thresholds_present()), bytes, 43, 1));
        subfields.push(bit_field_with_units("Common Nominal Packet Padding", owned(if self.common_nominal_packet_padding() == 0 { "0" } else if self.common_nominal_packet_padding() == 1 { "8" } else if self.common_nominal_packet_padding() == 2 { "16" } else if self.common_nominal_packet_padding() == 3 { "20" } else { "Unknown" }), owned("µs"), bytes, 44, 2));
        subfields.push(bit_field("Maximum Number of Supported EHT-LTFs", u64_text(self.maximum_number_of_supported_eht_ltfs() as u64), bytes, 46, 5));
        subfields.push(bit_field("Support of EHT-MCS 15 in MRU", u64_text(self.support_of_eht_mcs_15_in_mru() as u64), bytes, 51, 4));
        subfields.push(bit_field("Support of EHT DUP in 6 GHz", bool_string(self.support_of_eht_dup_in_6_ghz()), bytes, 55, 1));
        subfields.push(bit_field("Support for 20 MHz Operating STA Receiving NDP With Wider BW", bool_string(self.support_for_20_mhz_operating_sta_receiving_ndp_with_wider_bandwidth()), bytes, 56, 1));
        subfields.push(bit_field("Non-OFDMA UL MU-MIMO (≤ 80 MHz)", bool_string(self.non_ofdma_ul_mu_mimo_bw_less_than_or_equal_to_eighty_mhz()), bytes, 57, 1));
        subfields.push(bit_field("Non-OFDMA UL MU-MIMO (= 160 MHz)", bool_string(self.non_ofdma_ul_mu_mimo_bw_equal_to_160_mhz()), bytes, 58, 1));
    }

    /// Appends the subfields 36 to 46 of the displayable field.
    fn push_subfields_3(&self, bytes: &[u8], subfields: &mut Vec<Field>)
        requires
            bytes@ == self.raw(),
            old(subfields)@.len() == 36,
        ensures
            final(subfields)@.len() == 47,
            forall|j: int| 0 <= j < 36 ==> final(subfields)@[j] == old(subfields)@[j],
            bit_field_is(final(subfields)@[36], "Non-OFDMA UL MU-MIMO (= 320 MHz)"@, bool_text(self.spec_non_ofdma_ul_mu_mimo_bw_equal_to_320_mhz()), None, self.raw(), 59, 1),
            bit_field_is(final(subfields)@[37], "MU Beamformer (≤ 80 MHz)"@, bool_text(self.spec_mu_beamformer_bw_less_than_or_equal_to_80_mhz()), None, self.raw(), 60, 1),
            bit_field_is(final(subfields)@[38], "MU Beamformer (= 160 MHz)"@, bool_text(self.spec_mu_beamformer_bw_equal_to_160_mhz()), None, self.raw(), 61, 1),
            bit_field_is(final(subfields)@[39], "MU Beamformer (= 320 MHz)"@, bool_text(self.spec_mu_beamformer_equal_to_320_mhz()), None, self.raw(), 62, 1),
            bit_field_is(final(subfields)@[40], "TB Sounding Feedback Rate Limit"@, bool_text(self.spec_tb_sounding_feedback_rate_limit()), None, self.raw(), 63, 1),
            bit_field_is(final(subfields)@[41], "Rx 1024-QAM in Wider BW DL OFDMA Support"@, bool_text(self.spec_rx_1024_qam_in_wider_bandwidth_dl_ofdma_support()), None, self.raw(), 64, 1),
            bit_field_is(final(subfields)@[42], "Rx 4096-QAM in Wider BW DL OFDMA Support"@, bool_text(self.spec_rx_4096_qam_in_wider_bandwidth_dl_ofdma_support()), None, self.raw(), 65, 1),
            bit_field_is(final(subfields)@[43], "20 MHz-Only Limited Capabilities Support"@, bool_text(self.spec_twenty_mhz_only_limited_capabilities_support()), None, self.raw(), 66, 1),
            bit_field_is(final(subfields)@[44], "20 MHz-Only Triggered MU Beamforming Full BW Feedback and DL MU-MIMO"@, bool_text(self.spec_twenty_mhz_only_triggered_mu_beamforming_full_bw_feedback_and_dl_mu_mimo()), None, self.raw(), 67, 1),
            bit_field_is(final(subfields)@[45], "20 MHz-Only MRU Support"@, bool_text(self.spec_twenty_mhz_only_mru_support()), None, self.raw(), 68, 1),
            reserved_field_is(final(subfields)@[46], self.raw(), 69, 3),
    {
        subfields.push(bit_field("Non-OFDMA UL MU-MIMO (= 320 MHz)", bool_string(self.non_ofdma_ul_mu_mimo_bw_equal_to_320_mhz()), bytes, 59, 1));
        subfields.push(bit_field("MU Beamformer (≤ 80 MHz)", bool_string(self.mu_beamformer_bw_less_than_or_equal_to_80_mhz()), bytes, 60, 1));
        subfields.push(bit_field("MU Beamformer (= 160 MHz)", bool_string(self.mu_beamformer_bw_equal_to_160_mhz()), bytes, 61, 1));
        subfields.push(bit_field("MU Beamformer (= 320 MHz)", bool_string(self.mu_beamformer_equal_to_320_mhz()), bytes, 62, 1));
        subfields.push(bit_field("TB Sounding Feedback Rate Limit", bool_string(self.tb_sounding_feedback_rate_limit()), bytes, 63, 1));
        subfields.push(bit_field("Rx 1024-QAM in Wider BW DL OFDMA Support", bool_string(self.rx_1024_qam_in_wider_bandwidth_dl_ofdma_support()), bytes, 64, 1));
        subfields.push(bit_field("Rx 4096-QAM in Wider BW DL OFDMA Support", bool_string(self.rx_4096_qam_in_wider_bandwidth_dl_ofdma_support()), bytes, 65, 1));
        subfields.push(bit_field("20 MHz-Only Limited Capabilities Support", bool_string(self.twenty_mhz_only_limited_capabilities_support()), bytes, 66, 1));
        subfields.push(bit_field("20 MHz-Only Triggered MU Beamforming Full BW Feedback and DL MU-MIMO", bool_string(self.twenty_mhz_only_triggered_mu_beamforming_full_bw_feedback_and_dl_mu_mimo()), bytes, 67, 1));
        subfields.push(bit_field("20 MHz-Only MRU Support", bool_string(self.twenty_mhz_only_mru_support()), bytes, 68, 1));
        subfields.push(reserved_bits(bytes, 69, 3));
    }

}

/// The text of a stream count: `Not Supported` for 0, else the number.
pub open spec fn nss_text(nss: u8) -> Seq<char> {
    if nss == 0 {
        "Not Supported"@
    } else {
        decimal(nss as nat)
    }
}

/// The text of a stream count: `Not Supported` for 0, else the number.
pub fn nss_string(nss: u8) -> (s: String)
    ensures
        s@ == nss_text(nss),
{
    if nss == 0 {
        owned("Not Supported")
    } else {
        u64_text(nss as u64)
    }
}

/// The units of a stream count.
pub open spec fn nss_units(nss: u8) -> Seq<char> {
    if nss == 1 {
        "spatial stream"@
    } else if nss >= 2 {
        "spatial streams"@
    } else {
        ""@
    }
}

/// The units of a stream count: singular for 1, plural for more, none for 0.
pub fn nss_units_str(nss: u8) -> (s: &'static str)
    ensures
        s@ == nss_units(nss),
{
    if nss == 1 {
        "spatial stream"
    } else if nss >= 2 {
        "spatial streams"
    } else {
        ""
    }
}

/// An EHT-MCS map: for each MCS range, the highest receive and transmit stream counts.
#[derive(Debug, Clone, Copy, PartialEq, Eq, Hash)]
pub struct EhtMcsMap {
    bytes: [u8; 3],
}

impl EhtMcsMap {
    /// The encoded length in bytes.
    pub const LENGTH: usize = 3;

    /// Whether `bytes` (exactly 3 of them) encode a valid value.
    pub open spec fn spec_valid(bytes: Seq<u8>) -> bool {
        bytes.len() == 3
    }

    /// The encoded bytes.
    pub closed spec fn raw(&self) -> Seq<u8> {
        self.bytes@
    }

    /// Every value is encoded in exactly 3 bytes.
    pub proof fn lemma_raw_len(&self)
        ensures
            self.raw().len() == 3,
    {
    }

    /// Decodes the value from the first 3 bytes of `bytes`. `None` when there are fewer
    /// bytes or they do not encode a valid value.
    pub fn from_bytes(bytes: &[u8]) -> (r: Option<EhtMcsMap>)
        ensures
            r is Some <==> bytes@.len() >= 3 && Self::spec_valid(bytes@.subrange(0, 3)),
            r matches Some(v) ==> v.raw() == bytes@.subrange(0, 3),
    {
        if bytes.len() < 3 {
            return None;
        }
        let a: [u8; 3] = [bytes[0], bytes[1], bytes[2]];
        proof {
            assert(a@ =~= bytes@.subrange(0, 3));
        }
        Some(EhtMcsMap { bytes: a })
    }

    /// The encoded bytes.
    pub fn to_bytes(&self) -> (v: Vec<u8>)
        ensures
            v@ == self.raw(),
    {
        vstd::slice::slice_to_vec(self.bytes.as_slice())
    }

    /// The "Rx Max NSS That Supports EHT-MCS 0-9" subfield (bits 0-3).
    pub open spec fn spec_rx_max_nss_that_supports_eht_mcs_zero_through_nine(&self) -> u8 {
        bits_value(self.raw(), 0, 4) as u8
    }

    /// The "Rx Max NSS That Supports EHT-MCS 0-9" subfield (bits 0-3).
    pub fn rx_max_nss_that_supports_eht_mcs_zero_through_nine(&self) -> (v: u8)
        ensures
            v == self.spec_rx_max_nss_that_supports_eht_mcs_zero_through_nine(),
            v == bits_value(self.raw(), 0, 4),
    {
        read_u8_bits(self.bytes.as_slice(), 0, 4)
    }

    /// The "Tx Max NSS That Supports EHT-MCS 0-9" subfield (bits 4-7).
    pub open spec fn spec_tx_max_nss_that_supports_eht_mcs_zero_through_nine(&self) -> u8 {
        bits_value(self.raw(), 4, 4) as u8
    }

    /// The "Tx Max NSS That Supports EHT-MCS 0-9" subfield (bits 4-7).
    pub fn tx_max_nss_that_supports_eht_mcs_zero_through_nine(&self) -> (v: u8)
        ensures
            v == self.spec_tx_max_nss_that_supports_eht_mcs_zero_through_nine(),
            v == bits_value(self.raw(), 4, 4),
    {
        read_u8_bits(self.bytes.as_slice(), 4, 4)
    }

    /// The "Rx Max NSS That Supports EHT-MCS 10-11" subfield (bits 8-11).
    pub open spec fn spec_rx_max_nss_that_supports_eht_mcs_ten_through_eleven(&self) -> u8 {
        bits_value(self.raw(), 8, 4) as u8
    }

    /// The "Rx Max NSS That Supports EHT-MCS 10-11" subfield (bits 8-11).
    pub fn rx_max_nss_that_supports_eht_mcs_ten_through_eleven(&self) -> (v: u8)
        ensures
            v == self.spec_rx_max_nss_that_supports_eht_mcs_ten_through_eleven(),
            v == bits_value(self.raw(), 8, 4),
    {
        read_u8_bits(self.bytes.as_slice(), 8, 4)
    }

    /// The "Tx Max NSS That Supports EHT-MCS 10-11" subfield (bits 12-15).
    pub open spec fn spec_tx_max_nss_that_supports_eht_mcs_ten_through_eleven(&self) -> u8 {
        bits_value(self.raw(), 12, 4) as u8
    }

    /// The "Tx Max NSS That Supports EHT-MCS 10-11" subfield (bits 12-15).
    pub fn tx_max_nss_that_supports_eht_mcs_ten_through_eleven(&self) -> (v: u8)
        ensures
            v == self.spec_tx_max_nss_that_supports_eht_mcs_ten_through_eleven(),
            v == bits_value(self.raw(), 12, 4),
    {
        read_u8_bits(self.bytes.as_slice(), 12, 4)
    }

    /// The "Rx Max NSS That Supports EHT-MCS 12-13" subfield (bits 16-19).
    pub open spec fn spec_rx_max_nss_that_supports_eht_mcs_twelve_through_thirteen(&self) -> u8 {
        bits_value(self.raw(), 16, 4) as u8
    }

    /// The "Rx Max NSS That Supports EHT-MCS 12-13" subfield (bits 16-19).
    pub fn rx_max_nss_that_supports_eht_mcs_twelve_through_thirteen(&self) -> (v: u8)
        ensures
            v == self.spec_rx_max_nss_that_supports_eht_mcs_twelve_through_thirteen(),
            v == bits_value(self.raw(), 16, 4),
    {
        read_u8_bits(self.bytes.as_slice(), 16, 4)
    }

    /// The "Tx Max NSS That Supports EHT-MCS 12-13" subfield (bits 20-23).
    pub open spec fn spec_tx_max_nss_that_supports_eht_mcs_twelve_through_thirteen(&self) -> u8 {
        bits_value(self.raw(), 20, 4) as u8
    }

    /// The "Tx Max NSS That Supports EHT-MCS 12-13" subfield (bits 20-23).
    pub fn tx_max_nss_that_supports_eht_mcs_twelve_through_thirteen(&self) -> (v: u8)
        ensures
            v == self.spec_tx_max_nss_that_supports_eht_mcs_twelve_through_thirteen(),
            v == bits_value(self.raw(), 20, 4),
    {
        read_u8_bits(self.bytes.as_slice(), 20, 4)
    }

    /// Whether `f` is the displayable field of this value under `title`: one subfield per bit field.
    pub open spec fn field_shows(&self, f: Field, title: Seq<char>) -> bool {
        &&& f.title@ == title
        &&& f.value@ == ""@
        &&& f.bytes matches Some(b) && b@ == self.raw()
        &&& f.byte is None
        &&& f.bits is None
        &&& f.units is None
        &&& f.subfields@.len() == 6
        &&& bit_field_is(f.subfields@[0], "Rx Max NSS That Supports EHT-MCS 0-9"@, nss_text(self.spec_rx_max_nss_that_supports_eht_mcs_zero_through_nine()), Some(nss_units(self.spec_rx_max_nss_that_supports_eht_mcs_zero_through_nine())), self.raw(), 0, 4)
        &&& bit_field_is(f.subfields@[1], "Tx Max NSS That Supports EHT-MCS 0-9"@, nss_text(self.spec_tx_max_nss_that_supports_eht_mcs_zero_through_nine()), Some(nss_units(self.spec_tx_max_nss_that_supports_eht_mcs_zero_through_nine())), self.raw(), 4, 4)
        &&& bit_field_is(f.subfields@[2], "Rx Max NSS That Supports EHT-MCS 10-11"@, nss_text(self.spec_rx_max_nss_that_supports_eht_mcs_ten_through_eleven()), Some(nss_units(self.spec_rx_max_nss_that_supports_eht_mcs_ten_through_eleven())), self.raw(), 8, 4)
        &&& bit_field_is(f.subfields@[3], "Tx Max NSS That Supports EHT-MCS 10-11"@, nss_text(self.spec_tx_max_nss_that_supports_eht_mcs_ten_through_eleven()), Some(nss_units(self.spec_tx_max_nss_that_supports_eht_mcs_ten_through_eleven())), self.raw(), 12, 4)
        &&& bit_field_is(f.subfields@[4], "Rx Max NSS That Supports EHT-MCS 12-13"@, nss_text(self.spec_rx_max_nss_that_supports_eht_mcs_twelve_through_thirteen()), Some(nss_units(self.spec_rx_max_nss_that_supports_eht_mcs_twelve_through_thirteen())), self.raw(), 16, 4)
        &&& bit_field_is(f.subfields@[5], "Tx Max NSS That Supports EHT-MCS 12-13"@, nss_text(self.spec_tx_max_nss_that_supports_eht_mcs_twelve_through_thirteen()), Some(nss_units(self.spec_tx_max_nss_that_supports_eht_mcs_twelve_through_thirteen())), self.raw(), 20, 4)
    }

    /// The value as a displayable field with one subfield per bit field.
    pub fn to_field(&self, title: &str) -> (f: Field)
        ensures
            self.field_shows(f, title@),
    {
        let bytes = self.bytes.as_slice();
        let mut subfields: Vec<Field> = Vec::new();
        subfields.push(bit_field_with_units("Rx Max NSS That Supports EHT-MCS 0-9", nss_string(self.rx_max_nss_that_supports_eht_mcs_zero_through_nine()), owned(nss_units_str(self.rx_max_nss_that_supports_eht_mcs_zero_through_nine())), bytes, 0, 4));
        subfields.push(bit_field_with_units("Tx Max NSS That Supports EHT-MCS 0-9", nss_string(self.tx_max_nss_that_supports_eht_mcs_zero_through_nine()), owned(nss_units_str(self.tx_max_nss_that_supports_eht_mcs_zero_through_nine())), bytes, 4, 4));
        subfields.push(bit_field_with_units("Rx Max NSS That Supports EHT-MCS 10-11", nss_string(self.rx_max_nss_that_supports_eht_mcs_ten_through_eleven()), owned(nss_units_str(self.rx_max_nss_that_supports_eht_mcs_ten_through_eleven())), bytes, 8, 4));
        subfields.push(bit_field_with_units("Tx Max NSS That Supports EHT-MCS 10-11", nss_string(self.tx_max_nss_that_supports_eht_mcs_ten_through_eleven()), owned(nss_units_str(self.tx_max_nss_that_supports_eht_mcs_ten_through_eleven())), bytes, 12, 4));
        subfields.push(bit_field_with_units("Rx Max NSS That Supports EHT-MCS 12-13", nss_string(self.rx_max_nss_that_supports_eht_mcs_twelve_through_thirteen()), owned(nss_units_str(self.rx_max_nss_that_supports_eht_mcs_twelve_through_thirteen())), bytes, 16, 4));
        subfields.push(bit_field_with_units("Tx Max NSS That Supports EHT-MCS 12-13", nss_string(self.tx_max_nss_that_supports_eht_mcs_twelve_through_thirteen()), owned(nss_units_str(self.tx_max_nss_that_supports_eht_mcs_twelve_through_thirteen())), bytes, 20, 4));
        Field::new(title, "").with_bytes(self.to_bytes()).with_subfields(subfields)
    }


    /// The highest receive stream count over the three MCS ranges, and at least 1.
    pub open spec fn spec_max_spatial_streams(&self) -> u8 {
        let a = self.spec_rx_max_nss_that_supports_eht_mcs_zero_through_nine();
        let b = self.spec_rx_max_nss_that_supports_eht_mcs_ten_through_eleven();
        let c = self.spec_rx_max_nss_that_supports_eht_mcs_twelve_through_thirteen();
        let m1 = if a >= b { a } else { b };
        let m2 = if m1 >= c { m1 } else { c };
        if m2 >= 1 { m2 } else { 1 }
    }

    /// The maximum number of spatial streams supported: the highest receive stream count over
    /// the three MCS ranges, and at least 1.
    pub fn max_spatial_streams(&self) -> (n: u8)
        ensures
            n == self.spec_max_spatial_streams(),
    {
        let a = self.rx_max_nss_that_supports_eht_mcs_zero_through_nine();
        let b = self.rx_max_nss_that_supports_eht_mcs_ten_through_eleven();
        let c = self.rx_max_nss_that_supports_eht_mcs_twelve_through_thirteen();
        let m1 = if a >= b { a } else { b };
        let m2 = if m1 >= c { m1 } else { c };
        if m2 >= 1 { m2 } else { 1 }
    }

    /// Whether the map lets stream `s` use the MCS range that ends at `m` (9, 11 or 13): the
    /// range's receive stream count reaches `s`.
    pub open spec fn spec_range_reaches(&self, m: u8, s: u8) -> bool {
        ||| m == 9 && self.spec_rx_max_nss_that_supports_eht_mcs_zero_through_nine() >= s
        ||| m == 11 && self.spec_rx_max_nss_that_supports_eht_mcs_ten_through_eleven() >= s
        ||| m == 13 && self.spec_rx_max_nss_that_supports_eht_mcs_twelve_through_thirteen() >= s
    }

    /// The highest MCS of a stream from 1 to 8 is the top of the highest range that reaches the
    /// stream: the range ending at that MCS reaches it and no higher range does; the stream has
    /// none when no range reaches it.
    pub proof fn lemma_max_mcs_is_highest_reaching_range(&self, s: u8)
        requires
            1 <= s <= 8,
        ensures
            self.spec_max_mcs_for_stream(s) matches Some(m) ==> {
                &&& self.spec_range_reaches(m, s)
                &&& forall|h: u8| h > m ==> !#[trigger] self.spec_range_reaches(h, s)
            },
            self.spec_max_mcs_for_stream(s) is None ==> forall|h: u8| !#[trigger] self.spec_range_reaches(h, s),
    {
    }

    /// The highest MCS supported on a stream: 13, 11 or 9 by the highest range whose receive
    /// stream count reaches the stream; `None` for streams outside 1 to 8 or not supported.
    pub open spec fn spec_max_mcs_for_stream(&self, stream: u8) -> Option<u8> {
        if stream < 1 || stream > 8 {
            None
        } else if self.spec_rx_max_nss_that_supports_eht_mcs_twelve_through_thirteen() >= stream {
            Some(13)
        } else if self.spec_rx_max_nss_that_supports_eht_mcs_ten_through_eleven() >= stream {
            Some(11)
        } else if self.spec_rx_max_nss_that_supports_eht_mcs_zero_through_nine() >= stream {
            Some(9)
        } else {
            None
        }
    }

    /// The highest MCS supported on a stream (1 to 8).
    pub fn max_mcs_for_stream(&self, stream: u8) -> (m: Option<u8>)
        ensures
            m == self.spec_max_mcs_for_stream(stream),
    {
        if stream < 1 || stream > 8 {
            return None;
        }
        if self.rx_max_nss_that_supports_eht_mcs_twelve_through_thirteen() >= stream {
            return Some(13);
        }
        if self.rx_max_nss_that_supports_eht_mcs_ten_through_eleven() >= stream {
            return Some(11);
        }
        if self.rx_max_nss_that_supports_eht_mcs_zero_through_nine() >= stream {
            return Some(9);
        }
        None
    }

}

/// The length of a Supported EHT-MCS and NSS Set: the map for 80 MHz and below, plus one
/// more map for each of 160 and 320 MHz that is present.
pub open spec fn spec_eht_set_len(has160: bool, has320: bool) -> nat {
    3 + (if has160 { 3nat } else { 0nat }) + (if has320 { 3nat } else { 0nat })
}

/// The Supported EHT-MCS and NSS Set field of an EHT Capabilities element, as sent by an
/// access point (the 20 MHz-only map of non-AP stations is not part of it).
#[derive(Debug, Clone, Copy, PartialEq, Eq, Hash)]
pub struct SupportedEhtMcsAndNssSet {
    pub eht_mcs_map_bw_lte_80_mhz_except_20_mhz_only_non_ap_sta: EhtMcsMap,
    pub eht_mcs_map_bw_eq_160_mhz: Option<EhtMcsMap>,
    pub eht_mcs_map_bw_eq_320_mhz: Option<EhtMcsMap>,
}

impl SupportedEhtMcsAndNssSet {
    /// Whether the set is the one read from the start of `b` with the 160 and 320 MHz maps
    /// present as told: the 80 MHz map from the first three bytes, then each present map from
    /// the next three.
    pub open spec fn spec_parsed_from(&self, b: Seq<u8>, has160: bool, has320: bool) -> bool {
        &&& b.len() >= spec_eht_set_len(has160, has320)
        &&& self.eht_mcs_map_bw_lte_80_mhz_except_20_mhz_only_non_ap_sta.raw() == b.subrange(0, 3)
        &&& (self.eht_mcs_map_bw_eq_160_mhz is Some <==> has160)
        &&& (self.eht_mcs_map_bw_eq_160_mhz matches Some(m) ==> m.raw() == b.subrange(3, 6))
        &&& (self.eht_mcs_map_bw_eq_320_mhz is Some <==> has320)
        &&& (self.eht_mcs_map_bw_eq_320_mhz matches Some(m) ==> m.raw() == b.subrange(
            if has160 { 6 } else { 3 },
            if has160 { 9 } else { 6 },
        ))
    }

    /// Parses the set from the start of `bytes`, with the 160 and 320 MHz maps present as
    /// told. `None` when `bytes` is too short.
    pub fn from_bytes(bytes: &[u8], has160: bool, has320: bool) -> (r: Option<SupportedEhtMcsAndNssSet>)
        ensures
            r is Some <==> bytes@.len() >= spec_eht_set_len(has160, has320),
            r matches Some(s) ==> s.spec_parsed_from(bytes@, has160, has320),
    {
        let need: usize = 3 + (if has160 { 3 } else { 0 }) + (if has320 { 3 } else { 0 });
        if bytes.len() < need {
            return None;
        }
        let base = read_eht_map(bytes, 0);
        let m160 = if has160 {
            Some(read_eht_map(bytes, 3))
        } else {
            None
        };
        let p: usize = if has160 { 6 } else { 3 };
        let m320 = if has320 {
            Some(read_eht_map(bytes, p))
        } else {
            None
        };
        Some(
            SupportedEhtMcsAndNssSet {
                eht_mcs_map_bw_lte_80_mhz_except_20_mhz_only_non_ap_sta: base,
                eht_mcs_map_bw_eq_160_mhz: m160,
                eht_mcs_map_bw_eq_320_mhz: m320,
            },
        )
    }

    /// The maps with their display titles, in order.
    pub open spec fn map_entries(&self) -> Seq<(Seq<char>, EhtMcsMap)> {
        seq![("EHT-MCS Map BW ≤ 80 MHz"@, self.eht_mcs_map_bw_lte_80_mhz_except_20_mhz_only_non_ap_sta)]
            + (match self.eht_mcs_map_bw_eq_160_mhz {
            Some(m) => seq![("EHT-MCS Map BW = 160 MHz"@, m)],
            None => seq![],
        }) + (match self.eht_mcs_map_bw_eq_320_mhz {
            Some(m) => seq![("EHT-MCS Map BW = 320 MHz"@, m)],
            None => seq![],
        })
    }

    /// Whether `f` is the displayable field of this set: one subfield per map present.
    pub open spec fn field_shows(&self, f: Field) -> bool {
        let e = self.map_entries();
        &&& f.title@ == "Supported EHT-MCS and NSS Set"@
        &&& f.value@ == ""@
        &&& f.bytes is None
        &&& f.byte is None
        &&& f.bits is None
        &&& f.units is None
        &&& f.subfields@.len() == e.len()
        &&& forall|i: int| 0 <= i < e.len() ==> #[trigger] e[i].1.field_shows(f.subfields@[i], e[i].0)
    }

    /// The set as a displayable field.
    pub fn to_field(&self) -> (f: Field)
        ensures
            self.field_shows(f),
    {
        let ghost e = self.map_entries();
        let mut sub: Vec<Field> = Vec::new();
        sub.push(self.eht_mcs_map_bw_lte_80_mhz_except_20_mhz_only_non_ap_sta.to_field("EHT-MCS Map BW ≤ 80 MHz"));
        if let Some(m) = self.eht_mcs_map_bw_eq_160_mhz {
            sub.push(m.to_field("EHT-MCS Map BW = 160 MHz"));
        }
        let ghost n1 = sub@.len();
        if let Some(m) = self.eht_mcs_map_bw_eq_320_mhz {
            sub.push(m.to_field("EHT-MCS Map BW = 320 MHz"));
        }
        assert(sub@.len() == e.len());
        assert forall|i: int| 0 <= i < e.len() implies #[trigger] e[i].1.field_shows(sub@[i], e[i].0) by {
            if i >= n1 {
                assert(e[i].0 == "EHT-MCS Map BW = 320 MHz"@);
            }
        }
        Field::new("Supported EHT-MCS and NSS Set", "").with_subfields(sub)
    }
}

/// Reads the EHT-MCS map at byte `pos`.
fn read_eht_map(b: &[u8], pos: usize) -> (m: EhtMcsMap)
    requires
        pos + 3 <= b@.len(),
        pos <= 16,
    ensures
        m.raw() == b@.subrange(pos as int, pos + 3),
{
    let s = vstd::slice::slice_subrange(b, pos, pos + 3);
    proof {
        assert(s@.subrange(0, 3) =~= s@);
    }
    EhtMcsMap::from_bytes(s).unwrap()
}

/// Whether an RU index bitmask selects RU `r` (0 to 4).
pub open spec fn ru_selected(mask: u8, r: int) -> bool {
    bit_set(seq![mask], r)
}

/// How many of RUs `0..r` an RU index bitmask selects.
pub open spec fn ru_rank(mask: u8, r: int) -> nat
    decreases r,
{
    if r <= 0 {
        0
    } else {
        ru_rank(mask, r - 1) + if ru_selected(mask, r - 1) {
            1nat
        } else {
            0nat
        }
    }
}

/// The constellation coded by the three bits of `bytes` at bit `off`.
pub open spec fn constellation_at(bytes: Seq<u8>, off: int) -> TransmissionConstellation {
    match TransmissionConstellation::spec_from_u8(bits_value(bytes, off, 3) as u8) {
        Some(t) => t,
        None => TransmissionConstellation::Bpsk,
    }
}

/// The threshold of RU `r` at offset `k` (0 for PPETmax, 3 for PPET8) within the RU's six
/// bits, when the bitmask selects the RU.
pub open spec fn ru_threshold(bytes: Seq<u8>, mask: u8, base: int, r: int, k: int) -> Option<TransmissionConstellation> {
    if ru_selected(mask, r) {
        Some(constellation_at(bytes, base + 6 * ru_rank(mask, r) + k))
    } else {
        None
    }
}

/// The thresholds of one stream read from `bytes` at bit `base`: for each RU the bitmask
/// selects, in RU order, a PPETmax code then a PPET8 code, three bits each.
pub open spec fn spec_ppe_info_at(bytes: Seq<u8>, mask: u8, base: int) -> PpeThresholdsInfo {
    PpeThresholdsInfo {
        ppet_max_nss_ru_0: ru_threshold(bytes, mask, base, 0, 0),
        ppet_eight_nss_ru_0: ru_threshold(bytes, mask, base, 0, 3),
        ppet_max_nss_ru_1: ru_threshold(bytes, mask, base, 1, 0),
        ppet_eight_nss_ru_1: ru_threshold(bytes, mask, base, 1, 3),
        ppet_max_nss_ru_2: ru_threshold(bytes, mask, base, 2, 0),
        ppet_eight_nss_ru_2: ru_threshold(bytes, mask, base, 2, 3),
        ppet_max_nss_ru_3: ru_threshold(bytes, mask, base, 3, 0),
        ppet_eight_nss_ru_3: ru_threshold(bytes, mask, base, 3, 3),
        ppet_max_nss_ru_4: ru_threshold(bytes, mask, base, 4, 0),
        ppet_eight_nss_ru_4: ru_threshold(bytes, mask, base, 4, 3),
    }
}

/// Reads the two thresholds of RU `r`, if selected, from the six bits at `off`, the RU's
/// position within the stream that starts at `base`.
fn read_ru_pair(bytes: &[u8], mask: u8, base: usize, r: usize, off: usize) -> (p: (Option<TransmissionConstellation>, Option<TransmissionConstellation>))
    requires
        r < 5,
        off == base + 6 * ru_rank(mask, r as int),
        base + 6 * ru_rank(mask, 5) <= bytes@.len() * 8,
        base + 30 <= usize::MAX,
    ensures
        p.0 == ru_threshold(bytes@, mask, base as int, r as int, 0),
        p.1 == ru_threshold(bytes@, mask, base as int, r as int, 3),
{
    let m = [mask];
    proof {
        assert(m@ =~= seq![mask]);
        lemma_ru_rank_monotone(mask, r as int + 1, 5);
    }
    if read_bit(m.as_slice(), r) {
        assert(ru_rank(mask, r as int + 1) == ru_rank(mask, r as int) + 1);
        (Some(read_constellation(bytes, off)), Some(read_constellation(bytes, off + 3)))
    } else {
        (None, None)
    }
}

/// The rank only grows with the RU index.
pub proof fn lemma_ru_rank_monotone(mask: u8, a: int, b: int)
    requires
        0 <= a <= b,
    ensures
        ru_rank(mask, a) <= ru_rank(mask, b),
        ru_rank(mask, b) <= b,
    decreases b,
{
    if b > 0 {
        lemma_ru_rank_monotone(mask, 0, b - 1);
        if a < b {
            lemma_ru_rank_monotone(mask, a, b - 1);
        }
    }
}

/// The present entries of a list of titled optional thresholds, in order.
pub open spec fn present_thresholds(
    s: Seq<(Seq<char>, Option<TransmissionConstellation>)>,
) -> Seq<(Seq<char>, TransmissionConstellation)>
    decreases s.len(),
{
    if s.len() == 0 {
        seq![]
    } else {
        let rest = present_thresholds(s.drop_last());
        match s.last().1 {
            Some(v) => rest.push((s.last().0, v)),
            None => rest,
        }
    }
}

/// The bits of a list of thresholds: three per threshold, in order.
pub open spec fn threshold_bits(e: Seq<(Seq<char>, TransmissionConstellation)>) -> Seq<bool>
    decreases e.len(),
{
    if e.len() == 0 {
        seq![]
    } else {
        threshold_bits(e.drop_last()) + code_bits(e.last().1.spec_to_u8() as nat, 3)
    }
}

/// The EHT PPE thresholds of one spatial stream: a PPETmax and a PPET8 constellation for each
/// selected resource unit size.
#[derive(Debug, Clone, Copy, PartialEq, Eq, Structural, Hash)]
pub struct PpeThresholdsInfo {
    pub ppet_max_nss_ru_0: Option<TransmissionConstellation>,
    pub ppet_eight_nss_ru_0: Option<TransmissionConstellation>,
    pub ppet_max_nss_ru_1: Option<TransmissionConstellation>,
    pub ppet_eight_nss_ru_1: Option<TransmissionConstellation>,
    pub ppet_max_nss_ru_2: Option<TransmissionConstellation>,
    pub ppet_eight_nss_ru_2: Option<TransmissionConstellation>,
    pub ppet_max_nss_ru_3: Option<TransmissionConstellation>,
    pub ppet_eight_nss_ru_3: Option<TransmissionConstellation>,
    pub ppet_max_nss_ru_4: Option<TransmissionConstellation>,
    pub ppet_eight_nss_ru_4: Option<TransmissionConstellation>,
}

impl PpeThresholdsInfo {
    /// The ten thresholds with their display titles, in encoding order.
    pub open spec fn slots(&self) -> Seq<(Seq<char>, Option<TransmissionConstellation>)> {
        seq![
            ("PPETmax NSS RU 0"@, self.ppet_max_nss_ru_0),
            ("PPET8 NSS RU 0"@, self.ppet_eight_nss_ru_0),
            ("PPETmax NSS RU 1"@, self.ppet_max_nss_ru_1),
            ("PPET8 NSS RU 1"@, self.ppet_eight_nss_ru_1),
            ("PPETmax NSS RU 2"@, self.ppet_max_nss_ru_2),
            ("PPET8 NSS RU 2"@, self.ppet_eight_nss_ru_2),
            ("PPETmax NSS RU 3"@, self.ppet_max_nss_ru_3),
            ("PPET8 NSS RU 3"@, self.ppet_eight_nss_ru_3),
            ("PPETmax NSS RU 4"@, self.ppet_max_nss_ru_4),
            ("PPET8 NSS RU 4"@, self.ppet_eight_nss_ru_4),
        ]
    }

    /// The thresholds that are present, with their titles.
    pub open spec fn entries(&self) -> Seq<(Seq<char>, TransmissionConstellation)> {
        present_thresholds(self.slots())
    }

    /// The encoded bits: three per present threshold.
    pub open spec fn bits(&self) -> Seq<bool> {
        threshold_bits(self.entries())
    }

    /// Whether exactly the thresholds of the RUs `mask` selects are present.
    pub open spec fn fits_mask(&self, mask: u8) -> bool {
        &&& (self.ppet_max_nss_ru_0 is Some <==> ru_selected(mask, 0))
        &&& (self.ppet_eight_nss_ru_0 is Some <==> ru_selected(mask, 0))
        &&& (self.ppet_max_nss_ru_1 is Some <==> ru_selected(mask, 1))
        &&& (self.ppet_eight_nss_ru_1 is Some <==> ru_selected(mask, 1))
        &&& (self.ppet_max_nss_ru_2 is Some <==> ru_selected(mask, 2))
        &&& (self.ppet_eight_nss_ru_2 is Some <==> ru_selected(mask, 2))
        &&& (self.ppet_max_nss_ru_3 is Some <==> ru_selected(mask, 3))
        &&& (self.ppet_eight_nss_ru_3 is Some <==> ru_selected(mask, 3))
        &&& (self.ppet_max_nss_ru_4 is Some <==> ru_selected(mask, 4))
        &&& (self.ppet_eight_nss_ru_4 is Some <==> ru_selected(mask, 4))
    }

    /// Reads one stream's thresholds from `bytes` at bit `base`.
    pub fn read(bytes: &[u8], mask: u8, base: usize) -> (info: PpeThresholdsInfo)
        requires
            base + 6 * ru_rank(mask, 5) <= bytes@.len() * 8,
            base + 30 <= usize::MAX,
        ensures
            info == spec_ppe_info_at(bytes@, mask, base as int),
            info.fits_mask(mask),
    {
        let (a16, a8) = read_ru_pair(bytes, mask, base, 0, base);
        let m = [mask];
        proof {
            assert(m@ =~= seq![mask]);
        }
        let off1 = if read_bit(m.as_slice(), 0) { base + 6 } else { base };
        let (b16, b8) = read_ru_pair(bytes, mask, base, 1, off1);
        let off2 = if read_bit(m.as_slice(), 1) { off1 + 6 } else { off1 };
        let (c16, c8) = read_ru_pair(bytes, mask, base, 2, off2);
        let off3 = if read_bit(m.as_slice(), 2) { off2 + 6 } else { off2 };
        let (d16, d8) = read_ru_pair(bytes, mask, base, 3, off3);
        let off4 = if read_bit(m.as_slice(), 3) { off3 + 6 } else { off3 };
        let (e16, e8) = read_ru_pair(bytes, mask, base, 4, off4);
        PpeThresholdsInfo {
            ppet_max_nss_ru_0: a16,
            ppet_eight_nss_ru_0: a8,
            ppet_max_nss_ru_1: b16,
            ppet_eight_nss_ru_1: b8,
            ppet_max_nss_ru_2: c16,
            ppet_eight_nss_ru_2: c8,
            ppet_max_nss_ru_3: d16,
            ppet_eight_nss_ru_3: d8,
            ppet_max_nss_ru_4: e16,
            ppet_eight_nss_ru_4: e8,
        }
    }

    /// Whether `f` is the displayable field of this stream's thresholds under `title`: one
    /// subfield per present threshold over the thresholds' own packed bits.
    pub open spec fn field_shows(&self, f: Field, title: Seq<char>) -> bool {
        let e = self.entries();
        let b = pack_bits(self.bits());
        &&& f.title@ == title
        &&& f.value@ == ""@
        &&& f.bytes matches Some(x) && x@ == b
        &&& f.byte is None
        &&& f.bits is None
        &&& f.units is None
        &&& f.subfields@.len() == e.len()
        &&& forall|i: int|
            0 <= i < e.len() ==> bit_field_is(
                #[trigger] f.subfields@[i],
                e[i].0,
                e[i].1.spec_text(),
                Some(paren_decimal(e[i].1.spec_to_u8() as nat)),
                b,
                3 * i,
                3,
            )
    }

    /// The present thresholds with their titles, in order.
    pub fn entries_vec(&self) -> (entries: Vec<(&'static str, TransmissionConstellation)>)
        ensures
            entries@.len() == self.entries().len(),
            entries@.len() <= 10,
            forall|q: int|
                0 <= q < entries@.len() ==> (#[trigger] entries@[q]).0@ == self.entries()[q].0
                    && entries@[q].1 == self.entries()[q].1,
    {
        let mut slots: Vec<(&'static str, Option<TransmissionConstellation>)> = Vec::new();
        slots.push(("PPETmax NSS RU 0", self.ppet_max_nss_ru_0));
        slots.push(("PPET8 NSS RU 0", self.ppet_eight_nss_ru_0));
        slots.push(("PPETmax NSS RU 1", self.ppet_max_nss_ru_1));
        slots.push(("PPET8 NSS RU 1", self.ppet_eight_nss_ru_1));
        slots.push(("PPETmax NSS RU 2", self.ppet_max_nss_ru_2));
        slots.push(("PPET8 NSS RU 2", self.ppet_eight_nss_ru_2));
        slots.push(("PPETmax NSS RU 3", self.ppet_max_nss_ru_3));
        slots.push(("PPET8 NSS RU 3", self.ppet_eight_nss_ru_3));
        slots.push(("PPETmax NSS RU 4", self.ppet_max_nss_ru_4));
        slots.push(("PPET8 NSS RU 4", self.ppet_eight_nss_ru_4));
        let ghost sl = self.slots();
        assert(slots@.len() == 10);
        assert(forall|k: int| 0 <= k < 10 ==> (#[trigger] slots@[k]).0@ == sl[k].0 && slots@[k].1 == sl[k].1);
        let mut entries: Vec<(&'static str, TransmissionConstellation)> = Vec::new();
        let mut k: usize = 0;
        while k < 10
            invariant
                k <= 10,
                slots@.len() == 10,
                sl == self.slots(),
                forall|q: int| 0 <= q < 10 ==> (#[trigger] slots@[q]).0@ == sl[q].0 && slots@[q].1 == sl[q].1,
                entries@.len() == present_thresholds(sl.take(k as int)).len(),
                forall|q: int|
                    0 <= q < entries@.len() ==> (#[trigger] entries@[q]).0@ == present_thresholds(
                        sl.take(k as int),
                    )[q].0 && entries@[q].1 == present_thresholds(sl.take(k as int))[q].1,
                entries@.len() <= k,
            decreases 10 - k,
        {
            let ghost pe = present_thresholds(sl.take(k as int));
            proof {
                assert(sl.take(k + 1).drop_last() =~= sl.take(k as int));
                assert(sl.take(k + 1).last() == sl[k as int]);
            }
            let (t, o) = slots[k];
            if let Some(v) = o {
                entries.push((t, v));
            }
            k = k + 1;
        }
        proof {
            assert(sl.take(10) =~= sl);
        }
        entries
    }

    /// Appends the encoded bits of the thresholds: three per present threshold.
    pub fn push_bits(&self, bits: &mut Vec<bool>)
        ensures
            final(bits)@ == old(bits)@ + self.bits(),
    {
        let entries = self.entries_vec();
        let ghost e = self.entries();
        let mut i: usize = 0;
        while i < entries.len()
            invariant
                entries@.len() == e.len(),
                e == self.entries(),
                forall|q: int| 0 <= q < entries@.len() ==> (#[trigger] entries@[q]).0@ == e[q].0 && entries@[q].1 == e[q].1,
                i <= entries@.len(),
                bits@ == old(bits)@ + threshold_bits(e.take(i as int)),
            decreases entries@.len() - i,
        {
            let (_, v) = entries[i];
            let ghost before = bits@;
            push_code_bits(bits, v.to_u8(), 3);
            proof {
                assert(e.take(i + 1).drop_last() =~= e.take(i as int));
                assert(threshold_bits(e.take(i + 1)) == threshold_bits(e.take(i as int)) + code_bits(
                    v.spec_to_u8() as nat,
                    3,
                ));
                assert(bits@ =~= old(bits)@ + threshold_bits(e.take(i + 1)));
            }
            i = i + 1;
        }
        proof {
            assert(e.take(e.len() as int) =~= e);
        }
    }

    /// The stream's thresholds as a displayable field. The bitmask is the one they were parsed
    /// with; the thresholds present already reflect it.
    pub fn to_field(&self, title: &str, ru_index_bitmask: u8) -> (f: Field)
        ensures
            self.field_shows(f, title@),
    {
        let entries = self.entries_vec();
        let ghost e = self.entries();
        let mut bits: Vec<bool> = Vec::new();
        self.push_bits(&mut bits);
        assert(bits@ =~= self.bits());
        proof {
            lemma_threshold_bits_len(e);
        }
        let bytes = pack_bit_vec(&bits);
        let mut sub: Vec<Field> = Vec::new();
        let mut i: usize = 0;
        while i < entries.len()
            invariant
                entries@.len() == e.len(),
                e.len() <= 10,
                forall|q: int| 0 <= q < entries@.len() ==> (#[trigger] entries@[q]).0@ == e[q].0 && entries@[q].1 == e[q].1,
                bytes@ == pack_bits(self.bits()),
                i <= entries@.len(),
                sub@.len() == i,
                forall|q: int|
                    0 <= q < i ==> bit_field_is(
                        #[trigger] sub@[q],
                        e[q].0,
                        e[q].1.spec_text(),
                        Some(paren_decimal(e[q].1.spec_to_u8() as nat)),
                        bytes@,
                        3 * q,
                        3,
                    ),
            decreases entries@.len() - i,
        {
            let (t, v) = entries[i];
            sub.push(bit_field_with_units(t, v.to_string(), paren_text(v.to_u8() as u64), bytes.as_slice(), 3 * i, 3));
            i = i + 1;
        }
        Field::new(title, "").with_bytes(bytes).with_subfields(sub)
    }
}

/// Three bits per threshold.
pub proof fn lemma_threshold_bits_len(e: Seq<(Seq<char>, TransmissionConstellation)>)
    ensures
        threshold_bits(e).len() == 3 * e.len(),
    decreases e.len(),
{
    if e.len() > 0 {
        lemma_threshold_bits_len(e.drop_last());
        lemma_code_bits_len(e.last().1.spec_to_u8() as nat, 3);
    }
}

/// Reads the 3-bit constellation code at bit `off`.
fn read_constellation(bytes: &[u8], off: usize) -> (t: TransmissionConstellation)
    requires
        off + 3 <= bytes@.len() * 8,
        off + 3 <= usize::MAX,
    ensures
        t == constellation_at(bytes@, off as int),
{
    match TransmissionConstellation::from_u8(read_u8_bits(bytes, off, 3)) {
        Some(t) => t,
        None => TransmissionConstellation::Bpsk,
    }
}

/// The number of bits of EHT PPE thresholds before padding: the 4-bit NSS_PE, the 5-bit RU index
/// bitmask, and six bits for each selected RU of each of the `streams` streams.
pub open spec fn spec_ppe_bit_len(streams: nat, mask: u8) -> nat {
    9 + 6 * streams * ru_rank(mask, 5)
}

/// The number of padding bits that complete the last byte.
pub open spec fn spec_ppe_pad_len(bit_len: nat) -> nat {
    ((8 - bit_len % 8) % 8) as nat
}

/// The bits of a list of per-stream thresholds, in order.
pub open spec fn infos_bits(infos: Seq<PpeThresholdsInfo>) -> Seq<bool>
    decreases infos.len(),
{
    if infos.len() == 0 {
        seq![]
    } else {
        infos_bits(infos.drop_last()) + infos.last().bits()
    }
}

/// EHT PPE thresholds: the packet extension thresholds for each spatial stream and resource unit
/// size.
#[derive(Debug, Clone, PartialEq, Eq, Hash)]
pub struct EhtPpeThresholds {
    pub nss_pe: u8,
    pub ru_index_bitmask: u8,
    pub ppe_thresholds_info: Vec<PpeThresholdsInfo>,
    /// The padding bits that complete the last byte.
    pub ppe_pad: u8,
}

impl EhtPpeThresholds {
    /// The shape a parse produces: a 4-bit NSS_PE, a 5-bit bitmask, one entry per stream
    /// (NSS_PE + 1) holding exactly the selected RUs, and padding that fits its bits.
    pub open spec fn spec_wf(&self) -> bool {
        let n = self.ppe_thresholds_info@.len();
        &&& self.nss_pe < 16
        &&& self.ru_index_bitmask < 32
        &&& n == self.nss_pe + 1
        &&& forall|i: int| 0 <= i < n ==> #[trigger] self.ppe_thresholds_info@[i].fits_mask(self.ru_index_bitmask)
        &&& (self.ppe_pad as nat) < two_pow(spec_ppe_pad_len(spec_ppe_bit_len(n, self.ru_index_bitmask)))
    }

    /// The encoded bits: NSS_PE, bitmask, each stream's thresholds, padding.
    pub open spec fn bits(&self) -> Seq<bool> {
        let n = self.ppe_thresholds_info@.len();
        code_bits(self.nss_pe as nat, 4) + code_bits(self.ru_index_bitmask as nat, 5) + infos_bits(
            self.ppe_thresholds_info@,
        ) + code_bits(
            self.ppe_pad as nat,
            spec_ppe_pad_len(spec_ppe_bit_len(n, self.ru_index_bitmask)),
        )
    }

    /// The encoded bytes.
    pub open spec fn raw(&self) -> Seq<u8> {
        pack_bits(self.bits())
    }

    /// The number of bytes the thresholds take when they start with `b`.
    pub open spec fn spec_len_from(b: Seq<u8>) -> nat {
        let nss = bits_value(b, 0, 4);
        let mask = bits_value(b, 4, 5) as u8;
        ((spec_ppe_bit_len((nss + 1) as nat, mask) + 7) / 8) as nat
    }

    /// The thresholds are the ones encoded at the start of `b`, and have the shape a parse
    /// produces.
    pub open spec fn spec_parsed_from(&self, b: Seq<u8>) -> bool {
        let p = ru_rank(self.ru_index_bitmask, 5);
        let total = spec_ppe_bit_len((self.nss_pe + 1) as nat, self.ru_index_bitmask);
        &&& self.spec_wf()
        &&& self.nss_pe == bits_value(b, 0, 4)
        &&& self.ru_index_bitmask == bits_value(b, 4, 5)
        &&& forall|i: int|
            0 <= i <= self.nss_pe ==> #[trigger] self.ppe_thresholds_info@[i] == spec_ppe_info_at(
                b,
                self.ru_index_bitmask,
                9 + 6 * p * i,
            )
        &&& self.ppe_pad == bits_value(b, total as int, spec_ppe_pad_len(total))
    }

    /// Parses EHT PPE thresholds from the start of `bytes`. `None` when `bytes` has fewer than two
    /// bytes or is shorter
    /// than the thresholds its first two bytes announce.
    #[verifier::rlimit(100)]
    pub fn from_bytes(bytes: &[u8]) -> (r: Option<EhtPpeThresholds>)
        ensures
            r is Some <==> bytes@.len() >= 2 && bytes@.len() >= Self::spec_len_from(bytes@),
            r matches Some(t) ==> t.spec_parsed_from(bytes@),
    {
        if bytes.len() < 2 {
            return None;
        }
        let (nsts, mask) = read_ppe_header(bytes);
        let p = ru_count(mask);
        let streams: usize = nsts as usize + 1;
        let total = ppe_bit_len(streams, mask, p);
        let need = (total + 7) / 8;
        if bytes.len() < need {
            return None;
        }
        let infos = read_ppe_infos(bytes, mask, streams, p, total);
        let pad_len = (8 - total % 8) % 8;
        let pad = read_u8_bits(bytes, total, pad_len);
        proof {
            lemma_bits_value_bound(bytes@, total as int, pad_len as nat);
        }
        let t = EhtPpeThresholds { nss_pe: nsts, ru_index_bitmask: mask, ppe_thresholds_info: infos, ppe_pad: pad };
        assert(t.spec_wf());
        assert(t.spec_parsed_from(bytes@));
        Some(t)
    }

    /// Appends the encoded bits of the streams' thresholds.
    fn push_infos_bits(&self, bits: &mut Vec<bool>)
        ensures
            final(bits)@ == old(bits)@ + infos_bits(self.ppe_thresholds_info@),
    {
        let v = &self.ppe_thresholds_info;
        let mut i: usize = 0;
        while i < v.len()
            invariant
                i <= v@.len(),
                v@ == self.ppe_thresholds_info@,
                bits@ == old(bits)@ + infos_bits(v@.take(i as int)),
            decreases v@.len() - i,
        {
            let ghost before = bits@;
            v[i].push_bits(bits);
            proof {
                assert(v@.take(i + 1).drop_last() =~= v@.take(i as int));
                assert(bits@ =~= old(bits)@ + infos_bits(v@.take(i + 1)));
            }
            i = i + 1;
        }
        proof {
            assert(v@.take(v@.len() as int) =~= v@);
        }
    }

    /// The encoded bytes.
    pub fn to_bytes(&self) -> (v: Vec<u8>)
        requires
            self.spec_wf(),
        ensures
            v@ == self.raw(),
    {
        let mut bits: Vec<bool> = Vec::new();
        push_code_bits(&mut bits, self.nss_pe, 4);
        push_code_bits(&mut bits, self.ru_index_bitmask, 5);
        self.push_infos_bits(&mut bits);
        let p = ru_count(self.ru_index_bitmask);
        let streams = self.ppe_thresholds_info.len();
        let total = ppe_bit_len(streams, self.ru_index_bitmask, p);
        let pad_len = (8 - total % 8) % 8;
        proof {
            lemma_infos_bits_len(self.ppe_thresholds_info@, self.ru_index_bitmask);
            lemma_code_bits_len(self.nss_pe as nat, 4);
            lemma_code_bits_len(self.ru_index_bitmask as nat, 5);
        }
        push_code_bits(&mut bits, self.ppe_pad, pad_len);
        assert(bits@ =~= self.bits());
        proof {
            lemma_code_bits_len(self.ppe_pad as nat, pad_len as nat);
        }
        assert(bits@.len() <= 1024);
        pack_bit_vec(&bits)
    }

    /// Whether `f` is the displayable field of these thresholds.
    pub open spec fn field_shows(&self, f: Field) -> bool {
        let b = self.raw();
        let n = self.ppe_thresholds_info@.len();
        &&& f.title@ == "EHT PPE Thresholds"@
        &&& f.value@ == ""@
        &&& f.bytes matches Some(x) && x@ == b
        &&& f.byte is None
        &&& f.bits is None
        &&& f.units is None
        &&& f.subfields@.len() == 2 + n
        &&& bit_field_is(f.subfields@[0], "NSS_PE"@, decimal(self.nss_pe as nat), None, b, 0, 4)
        &&& bit_field_is(f.subfields@[1], "RU Index Bitmask"@, decimal(self.ru_index_bitmask as nat), None, b, 4, 5)
        &&& forall|i: int|
            0 <= i < n ==> #[trigger] self.ppe_thresholds_info@[i].field_shows(
                f.subfields@[2 + i],
                "NSS "@ + decimal(i as nat),
            )
    }

    /// The thresholds as a displayable field: NSS_PE, the bitmask, then one field per stream.
    pub fn to_field(&self) -> (f: Field)
        requires
            self.spec_wf(),
        ensures
            self.field_shows(f),
    {
        let bytes = self.to_bytes();
        proof {
            lemma_infos_bits_len(self.ppe_thresholds_info@, self.ru_index_bitmask);
            lemma_code_bits_len(self.nss_pe as nat, 4);
            lemma_code_bits_len(self.ru_index_bitmask as nat, 5);
        }

        let mut sub: Vec<Field> = Vec::new();
        sub.push(bit_field("NSS_PE", u64_text(self.nss_pe as u64), bytes.as_slice(), 0, 4));
        sub.push(bit_field("RU Index Bitmask", u64_text(self.ru_index_bitmask as u64), bytes.as_slice(), 4, 5));
        let v = &self.ppe_thresholds_info;
        let mut i: usize = 0;
        while i < v.len()
            invariant
                i <= v@.len(),
                v@ == self.ppe_thresholds_info@,
                v@.len() <= 16,
                bytes@ == self.raw(),
                sub@.len() == 2 + i,
                bit_field_is(sub@[0], "NSS_PE"@, decimal(self.nss_pe as nat), None, bytes@, 0, 4),
                bit_field_is(sub@[1], "RU Index Bitmask"@, decimal(self.ru_index_bitmask as nat), None, bytes@, 4, 5),
                forall|j: int|
                    0 <= j < i ==> #[trigger] v@[j].field_shows(sub@[2 + j], "NSS "@ + decimal(j as nat)),
            decreases v@.len() - i,
        {
            let mut title = String::from_str("NSS ");
            title.append(u64_text(i as u64).as_str());
            sub.push(v[i].to_field(title.as_str(), self.ru_index_bitmask));
            i = i + 1;
        }
        Field::new("EHT PPE Thresholds", "").with_bytes(bytes).with_subfields(sub)
    }
}

/// Each stream whose thresholds fit the bitmask contributes six bits per selected RU.
pub proof fn lemma_infos_bits_len(infos: Seq<PpeThresholdsInfo>, mask: u8)
    requires
        forall|i: int| 0 <= i < infos.len() ==> #[trigger] infos[i].fits_mask(mask),
    ensures
        infos_bits(infos).len() == 6 * infos.len() * ru_rank(mask, 5),
    decreases infos.len(),
{
    if infos.len() == 0 {
        assert(6 * infos.len() * ru_rank(mask, 5) == 0) by (nonlinear_arith)
            requires
                infos.len() == 0,
        ;
    } else {
        let d = infos.drop_last();
        assert forall|i: int| 0 <= i < d.len() implies #[trigger] d[i].fits_mask(mask) by {
            assert(d[i] == infos[i]);
        }
        lemma_infos_bits_len(d, mask);
        let last = infos.last();
        assert(last == infos[infos.len() - 1]);
        assert(infos_bits(infos) == infos_bits(d) + last.bits());
        lemma_info_bits_len(last, mask);
        assert(6 * d.len() * ru_rank(mask, 5) + 6 * ru_rank(mask, 5) == 6 * infos.len() * ru_rank(mask, 5)) by (nonlinear_arith)
            requires
                d.len() + 1 == infos.len(),
        ;
    }
}

/// A stream's thresholds that fit the bitmask take six bits per selected RU.
pub proof fn lemma_info_bits_len(info: PpeThresholdsInfo, mask: u8)
    requires
        info.fits_mask(mask),
    ensures
        info.bits().len() == 6 * ru_rank(mask, 5),
{
    reveal_with_fuel(ru_rank, 6);
    reveal_with_fuel(present_thresholds, 11);
    lemma_threshold_bits_len(info.entries());
    let s = info.slots();
    assert(s.drop_last().drop_last().drop_last().drop_last().drop_last().drop_last().drop_last().drop_last().drop_last().drop_last() =~= Seq::<(Seq<char>, Option<TransmissionConstellation>)>::empty());
}

/// Reads the NSS_PE and RU index bitmask from the first two bytes.
fn read_ppe_header(bytes: &[u8]) -> (r: (u8, u8))
    requires
        bytes@.len() >= 2,
    ensures
        r.0 == bits_value(bytes@, 0, 4),
        r.1 == bits_value(bytes@, 4, 5),
        r.0 < 16,
        r.1 < 32,
{
    proof {
        lemma_bits_value_bound(bytes@, 0, 4);
        lemma_bits_value_bound(bytes@, 4, 5);
        reveal_with_fuel(two_pow, 6);
    }
    (read_u8_bits(bytes, 0, 4), read_u8_bits(bytes, 4, 5))
}

/// The number of RUs a bitmask selects.
fn ru_count(mask: u8) -> (p: usize)
    ensures
        p == ru_rank(mask, 5),
        p <= 5,
{
    proof {
        reveal_with_fuel(ru_rank, 6);
    }
    let m = [mask];
    proof {
        assert(m@ =~= seq![mask]);
    }
    let mut p: usize = 0;
    if read_bit(m.as_slice(), 0) {
        p = p + 1;
    }
    if read_bit(m.as_slice(), 1) {
        p = p + 1;
    }
    if read_bit(m.as_slice(), 2) {
        p = p + 1;
    }
    if read_bit(m.as_slice(), 3) {
        p = p + 1;
    }
    if read_bit(m.as_slice(), 4) {
        p = p + 1;
    }
    p
}

/// Reads the thresholds of `streams` streams, stream `i` starting at bit `9 + 6 * p * i`.
fn read_ppe_infos(bytes: &[u8], mask: u8, streams: usize, p: usize, total: usize) -> (infos: Vec<PpeThresholdsInfo>)
    requires
        streams <= 16,
        p == ru_rank(mask, 5),
        p <= 5,
        total == 9 + 6 * streams * p,
        total <= 8 * bytes@.len(),
    ensures
        infos@.len() == streams,
        forall|j: int| 0 <= j < streams ==> #[trigger] infos@[j] == spec_ppe_info_at(bytes@, mask, 9 + 6 * p * j),
        forall|j: int| 0 <= j < streams ==> #[trigger] infos@[j].fits_mask(mask),
{
    let mut infos: Vec<PpeThresholdsInfo> = Vec::new();
    let mut i: usize = 0;
    while i < streams
        invariant
            streams <= 16,
            p == ru_rank(mask, 5),
            p <= 5,
            total == 9 + 6 * streams * p,
            total <= 8 * bytes@.len(),
            i <= streams,
            infos@.len() == i,
            forall|j: int|
                0 <= j < i ==> #[trigger] infos@[j] == spec_ppe_info_at(bytes@, mask, 9 + 6 * p * j),
            forall|j: int| 0 <= j < i ==> #[trigger] infos@[j].fits_mask(mask),
        decreases streams - i,
    {
        assert(6 * p * i + 6 * p <= 6 * streams * p) by (nonlinear_arith)
            requires
                i < streams,
        ;
        assert(6 * p * i <= 450) by (nonlinear_arith)
            requires
                i < 16,
                p <= 5,
        ;
        let info = PpeThresholdsInfo::read(bytes, mask, 9 + 6 * p * i);
        infos.push(info);
        i = i + 1;
    }
    infos
}

/// The bit length of thresholds for `streams` streams, before padding.
fn ppe_bit_len(streams: usize, mask: u8, p: usize) -> (total: usize)
    requires
        1 <= streams <= 16,
        p == ru_rank(mask, 5),
        p <= 5,
    ensures
        total == spec_ppe_bit_len(streams as nat, mask),
        total == 9 + 6 * streams * p,
        total <= 489,
{
    assert(streams * p <= 80) by (nonlinear_arith)
        requires
            streams <= 16,
            p <= 5,
    ;
    let sp: usize = streams * p;
    assert(6 * sp == 6 * streams * p) by (nonlinear_arith)
        requires
            sp == streams * p,
    ;
    9 + 6 * sp
}

/// An EHT Capabilities element (802.11be). Its MCS set and PPE thresholds can only be read
/// once the HE Capabilities element is known, so they start out absent and the bytes that
/// hold them are kept in `rest`.
#[derive(Debug, Clone, PartialEq, Eq, Hash)]
pub struct EhtCapabilities {
    pub eht_mac_capabilities_information: EhtMacCapabilitiesInformation,
    pub eht_phy_capabilities_information: EhtPhyCapabilitiesInformation,
    /// The bytes after the PHY capabilities.
    pub rest: Vec<u8>,
    pub supported_eht_mcs_and_nss_set: Option<SupportedEhtMcsAndNssSet>,
    pub eht_ppe_thresholds: Option<EhtPpeThresholds>,
}

impl EhtCapabilities {
    pub const NAME: &'static str = "EHT Capabilities";
    pub const ID: u8 = 255;

    /// The element ID extension.
    pub fn id_ext() -> (r: Option<u8>)
        ensures
            r == Some(108u8),
    {
        Some(108)
    }

    /// Parses the element body: MAC (2 bytes) and PHY (9 bytes) capabilities, keeping the
    /// remaining bytes for later. `None` when the body is shorter than 11 bytes.
    pub fn from_bytes(bytes: &[u8]) -> (r: Option<EhtCapabilities>)
        ensures
            r is Some <==> bytes@.len() >= 11,
            r matches Some(c) ==> {
                &&& c.eht_mac_capabilities_information.raw() == bytes@.subrange(0, 2)
                &&& c.eht_phy_capabilities_information.raw() == bytes@.subrange(2, 11)
                &&& c.rest@ == bytes@.subrange(11, bytes@.len() as int)
                &&& c.supported_eht_mcs_and_nss_set is None
                &&& c.eht_ppe_thresholds is None
            },
    {
        if bytes.len() < 11 {
            return None;
        }
        let ms = vstd::slice::slice_subrange(bytes, 0, 2);
        let ps = vstd::slice::slice_subrange(bytes, 2, 11);
        proof {
            assert(ms@.subrange(0, 2) =~= ms@);
            assert(ps@.subrange(0, 9) =~= ps@);
        }
        let mac = EhtMacCapabilitiesInformation::from_bytes(ms).unwrap();
        let phy = EhtPhyCapabilitiesInformation::from_bytes(ps).unwrap();
        let rest = vstd::slice::slice_subrange(bytes, 11, bytes.len());
        Some(
            EhtCapabilities {
                eht_mac_capabilities_information: mac,
                eht_phy_capabilities_information: phy,
                rest: vstd::slice::slice_to_vec(rest),
                supported_eht_mcs_and_nss_set: None,
                eht_ppe_thresholds: None,
            },
        )
    }

    /// Whether the 160 MHz map is present: bit 0 of the HE supported channel width set.
    pub open spec fn spec_has160(he: &HeCapabilities) -> bool {
        width_set_has(he.he_phy_capabilities_information.spec_supported_channel_width_set(), 0)
    }

    /// Whether reading the MCS set (and the PPE thresholds, when announced) from the kept
    /// bytes succeeds, given the HE capabilities.
    pub open spec fn spec_parse_ok(&self, he: &HeCapabilities) -> bool {
        let rest = self.rest@;
        let n = spec_eht_set_len(Self::spec_has160(he), self.eht_phy_capabilities_information.spec_support_for_320_mhz_in_6_ghz());
        let tail = rest.subrange(n as int, rest.len() as int);
        rest.len() >= n && (self.eht_phy_capabilities_information.spec_ppe_thresholds_present() ==> tail.len() >= 2
            && tail.len() >= EhtPpeThresholds::spec_len_from(tail))
    }

    /// How reading the kept bytes with the HE capabilities turns `before` into `after`: the
    /// capabilities and kept bytes stay; the MCS set is read when the bytes hold it; the PPE
    /// thresholds are read when announced and everything succeeds; the rest stays as it was.
    pub open spec fn spec_parse_outcome(before: EhtCapabilities, after: EhtCapabilities, he: &HeCapabilities) -> bool {
        let rest = before.rest@;
        let h160 = Self::spec_has160(he);
        let h320 = before.eht_phy_capabilities_information.spec_support_for_320_mhz_in_6_ghz();
        let n = spec_eht_set_len(h160, h320);
        let ppe = before.eht_phy_capabilities_information.spec_ppe_thresholds_present();
        let tail = rest.subrange(n as int, rest.len() as int);
        let ok = before.spec_parse_ok(he);
        &&& after.eht_mac_capabilities_information == before.eht_mac_capabilities_information
        &&& after.eht_phy_capabilities_information == before.eht_phy_capabilities_information
        &&& after.rest == before.rest
        &&& (rest.len() < n ==> after.supported_eht_mcs_and_nss_set == before.supported_eht_mcs_and_nss_set)
        &&& (rest.len() >= n ==> (after.supported_eht_mcs_and_nss_set matches Some(s) && s.spec_parsed_from(rest, h160, h320)))
        &&& (ok && ppe ==> (after.eht_ppe_thresholds matches Some(t) && t.spec_parsed_from(tail)))
        &&& (!(ok && ppe) ==> after.eht_ppe_thresholds == before.eht_ppe_thresholds)
    }

    /// Reads the MCS set (and the PPE thresholds, when the PHY capabilities announce them)
    /// from the kept bytes, using the HE capabilities to learn whether the 160 MHz map is
    /// present. On failure the parts read so far stay set.
    pub fn parse_with_he_capabilities(&mut self, he_capabilities: &HeCapabilities) -> (r: Result<(), ParseError>)
        ensures
            r is Ok <==> old(self).spec_parse_ok(he_capabilities),
            r matches Err(e) ==> e == ParseError::TooShort,
            Self::spec_parse_outcome(*old(self), *final(self), he_capabilities),
    {
        let ws = he_capabilities.he_phy_capabilities_information.supported_channel_width_set();
        let w = [ws];
        proof {
            assert(w@ =~= seq![ws]);
        }
        let h160 = read_bit(w.as_slice(), 0);
        let h320 = self.eht_phy_capabilities_information.support_for_320_mhz_in_6_ghz();
        let set = match SupportedEhtMcsAndNssSet::from_bytes(self.rest.as_slice(), h160, h320) {
            Some(s) => s,
            None => return Err(ParseError::TooShort),
        };
        self.supported_eht_mcs_and_nss_set = Some(set);
        if self.eht_phy_capabilities_information.ppe_thresholds_present() {
            let n: usize = 3 + (if h160 { 3 } else { 0 }) + (if h320 { 3 } else { 0 });
            let tail = vstd::slice::slice_subrange(self.rest.as_slice(), n, self.rest.len());
            match EhtPpeThresholds::from_bytes(tail) {
                Some(t) => {
                    self.eht_ppe_thresholds = Some(t);
                },
                None => return Err(ParseError::TooShort),
            }
        }
        Ok(())
    }

    /// The receive stream count of the 80 MHz map, or 1 before the set is parsed.
    pub open spec fn spec_max_spatial_streams(&self) -> u8 {
        match self.supported_eht_mcs_and_nss_set {
            Some(s) => s.eht_mcs_map_bw_lte_80_mhz_except_20_mhz_only_non_ap_sta.spec_max_spatial_streams(),
            None => 1,
        }
    }

    /// The receive stream count of the 80 MHz map, or 1 before the set is parsed.
    pub fn max_spatial_streams(&self) -> (n: u8)
        ensures
            n == self.spec_max_spatial_streams(),
    {
        match &self.supported_eht_mcs_and_nss_set {
            Some(s) => s.eht_mcs_map_bw_lte_80_mhz_except_20_mhz_only_non_ap_sta.max_spatial_streams(),
            None => 1,
        }
    }

    /// The highest MCS of a stream in the 80 MHz map, `None` before the set is parsed.
    pub open spec fn spec_max_mcs_for_stream(&self, stream: u8) -> Option<u8> {
        match self.supported_eht_mcs_and_nss_set {
            Some(s) => s.eht_mcs_map_bw_lte_80_mhz_except_20_mhz_only_non_ap_sta.spec_max_mcs_for_stream(stream),
            None => None,
        }
    }

    /// The highest MCS of a stream in the 80 MHz map, `None` before the set is parsed.
    pub fn max_mcs_for_stream(&self, stream: u8) -> (m: Option<u8>)
        ensures
            m == self.spec_max_mcs_for_stream(stream),
    {
        match &self.supported_eht_mcs_and_nss_set {
            Some(s) => s.eht_mcs_map_bw_lte_80_mhz_except_20_mhz_only_non_ap_sta.max_mcs_for_stream(stream),
            None => None,
        }
    }

    /// The highest MCS of the highest stream, 0 when unknown.
    pub open spec fn spec_max_mcs(&self) -> u8 {
        match self.spec_max_mcs_for_stream(self.spec_max_spatial_streams()) {
            Some(m) => m,
            None => 0,
        }
    }

    /// The highest MCS of the highest stream, 0 when unknown.
    pub fn max_mcs(&self) -> (m: u8)
        ensures
            m == self.spec_max_mcs(),
    {
        match self.max_mcs_for_stream(self.max_spatial_streams()) {
            Some(m) => m,
            None => 0,
        }
    }

    /// The one-line summary: the number of spatial streams.
    pub open spec fn spec_summary(&self) -> Seq<char> {
        spatial_streams_text(self.spec_max_spatial_streams())
    }

    /// A one-line summary, for example `2 Spatial Streams`.
    pub fn summary(&self) -> (s: String)
        ensures
            s@ == self.spec_summary(),
    {
        spatial_streams_string(self.max_spatial_streams())
    }

    /// The PPE thresholds, when present, have the shape a parse produces.
    pub open spec fn spec_wf(&self) -> bool {
        self.eht_ppe_thresholds matches Some(t) ==> t.spec_wf()
    }

    /// The element's fields: MAC and PHY capabilities, then the MCS set and PPE thresholds
    /// when they are known.
    pub fn fields(&self) -> (v: Vec<Field>)
        requires
            self.spec_wf(),
        ensures
            v@.len() == 2 + (if self.supported_eht_mcs_and_nss_set is Some { 1int } else { 0int })
                + (if self.eht_ppe_thresholds is Some { 1int } else { 0int }),
            self.eht_mac_capabilities_information.field_shows(v@[0]),
            self.eht_phy_capabilities_information.field_shows(v@[1]),
            self.supported_eht_mcs_and_nss_set matches Some(s) ==> s.field_shows(v@[2]),
            self.eht_ppe_thresholds matches Some(t) ==> t.field_shows(v@[v@.len() - 1]),
    {
        let mut v: Vec<Field> = Vec::new();
        v.push(self.eht_mac_capabilities_information.to_field());
        v.push(self.eht_phy_capabilities_information.to_field());
        if let Some(s) = &self.supported_eht_mcs_and_nss_set {
            v.push(s.to_field());
        }
        if let Some(t) = &self.eht_ppe_thresholds {
            v.push(t.to_field());
        }
        v
    }
}

} // verus!
