//! The HE Capabilities element (802.11ax).
use vstd::prelude::*;

use crate::bits::{
    code_bits, lemma_bits_prefix, lemma_code_bits_len, pack_bit_vec, pack_bits, push_code_bits, two_pow,
    bit_set, bits_value, lemma_bits_value_bound, lemma_two_pow_64, lemma_two_pow_monotone, read_bit,
    read_bits, read_u16_bits, read_u8_bits,
};
use crate::ies::field::{
    bit_field, bit_field_is, bit_field_with_units, reserved_bits, reserved_field_is, BitRange,
    Field,
};
use crate::ies::ht_capabilities::{spatial_streams_string, spatial_streams_text};
use crate::text::{bool_string, bool_text, decimal, owned, paren_decimal, paren_text, u64_text};

verus! {

/// The HE-MCS indices supported on a spatial stream.
#[derive(Debug, Clone, Copy, PartialEq, Eq, Structural, Hash)]
pub enum Support {
    HeMcsZeroThroughSeven,
    HeMcsZeroThroughNine,
    HeMcsZeroThroughEleven,
    NotSupported,
}

impl Support {
    /// The value encoded by a raw code, if the code is defined.
    pub open spec fn spec_from_u8(v: u8) -> Option<Support> {
        if v == 0 {
            Some(Support::HeMcsZeroThroughSeven)
        } else if v == 1 {
            Some(Support::HeMcsZeroThroughNine)
        } else if v == 2 {
            Some(Support::HeMcsZeroThroughEleven)
        } else if v == 3 {
            Some(Support::NotSupported)
        } else {
            None
        }
    }

    /// The raw code of the value.
    pub open spec fn spec_to_u8(self) -> u8 {
        match self {
            Support::HeMcsZeroThroughSeven => 0,
            Support::HeMcsZeroThroughNine => 1,
            Support::HeMcsZeroThroughEleven => 2,
            Support::NotSupported => 3,
        }
    }

    /// The human-readable text of the value.
    pub open spec fn spec_text(self) -> Seq<char> {
        match self {
            Support::HeMcsZeroThroughSeven => "HE-MCS 0-7"@,
            Support::HeMcsZeroThroughNine => "HE-MCS 0-9"@,
            Support::HeMcsZeroThroughEleven => "HE-MCS 0-11"@,
            Support::NotSupported => "Not Supported"@,
        }
    }

    /// Decodes a raw code; `None` for an undefined code.
    pub fn from_u8(v: u8) -> (r: Option<Support>)
        ensures
            r == Self::spec_from_u8(v),
    {
        match v {
            0 => Some(Support::HeMcsZeroThroughSeven),
            1 => Some(Support::HeMcsZeroThroughNine),
            2 => Some(Support::HeMcsZeroThroughEleven),
            3 => Some(Support::NotSupported),
            _ => None,
        }
    }

    /// The raw code of the value.
    pub fn to_u8(&self) -> (v: u8)
        ensures
            v == self.spec_to_u8(),
            Self::spec_from_u8(v) == Some(*self),
    {
        match self {
            Support::HeMcsZeroThroughSeven => 0,
            Support::HeMcsZeroThroughNine => 1,
            Support::HeMcsZeroThroughEleven => 2,
            Support::NotSupported => 3,
        }
    }

    /// The human-readable text of the value.
    pub fn to_string(&self) -> (s: String)
        ensures
            s@ == self.spec_text(),
    {
        match self {
            Support::HeMcsZeroThroughSeven => String::from_str("HE-MCS 0-7"),
            Support::HeMcsZeroThroughNine => String::from_str("HE-MCS 0-9"),
            Support::HeMcsZeroThroughEleven => String::from_str("HE-MCS 0-11"),
            Support::NotSupported => String::from_str("Not Supported"),
        }
    }
}

/// Decoding a value's own code gives the value back.
pub proof fn lemma_support_code_roundtrip(v: Support)
    ensures
        Support::spec_from_u8(v.spec_to_u8()) == Some(v),
{
}

/// A constellation used as a PPE threshold.
#[derive(Debug, Clone, Copy, PartialEq, Eq, Structural, Hash)]
pub enum TransmissionConstellation {
    Bpsk,
    Qpsk,
    SixteenQam,
    SixtyFourQam,
    TwoHundredFiftySixQam,
    OneThousandTwentyFourQam,
    Reserved,
    NoConstellation,
}

impl TransmissionConstellation {
    /// The value encoded by a raw code, if the code is defined.
    pub open spec fn spec_from_u8(v: u8) -> Option<TransmissionConstellation> {
        if v == 0 {
            Some(TransmissionConstellation::Bpsk)
        } else if v == 1 {
            Some(TransmissionConstellation::Qpsk)
        } else if v == 2 {
            Some(TransmissionConstellation::SixteenQam)
        } else if v == 3 {
            Some(TransmissionConstellation::SixtyFourQam)
        } else if v == 4 {
            Some(TransmissionConstellation::TwoHundredFiftySixQam)
        } else if v == 5 {
            Some(TransmissionConstellation::OneThousandTwentyFourQam)
        } else if v == 6 {
            Some(TransmissionConstellation::Reserved)
        } else if v == 7 {
            Some(TransmissionConstellation::NoConstellation)
        } else {
            None
        }
    }

    /// The raw code of the value.
    pub open spec fn spec_to_u8(self) -> u8 {
        match self {
            TransmissionConstellation::Bpsk => 0,
            TransmissionConstellation::Qpsk => 1,
            TransmissionConstellation::SixteenQam => 2,
            TransmissionConstellation::SixtyFourQam => 3,
            TransmissionConstellation::TwoHundredFiftySixQam => 4,
            TransmissionConstellation::OneThousandTwentyFourQam => 5,
            TransmissionConstellation::Reserved => 6,
            TransmissionConstellation::NoConstellation => 7,
        }
    }

    /// The human-readable text of the value.
    pub open spec fn spec_text(self) -> Seq<char> {
        match self {
            TransmissionConstellation::Bpsk => "BPSK"@,
            TransmissionConstellation::Qpsk => "QPSK"@,
            TransmissionConstellation::SixteenQam => "16-QAM"@,
            TransmissionConstellation::SixtyFourQam => "64-QAM"@,
            TransmissionConstellation::TwoHundredFiftySixQam => "256-QAM"@,
            TransmissionConstellation::OneThousandTwentyFourQam => "1024-QAM"@,
            TransmissionConstellation::Reserved => "Reserved"@,
            TransmissionConstellation::NoConstellation => "None"@,
        }
    }

    /// Decodes a raw code; `None` for an undefined code.
    pub fn from_u8(v: u8) -> (r: Option<TransmissionConstellation>)
        ensures
            r == Self::spec_from_u8(v),
    {
        match v {
            0 => Some(TransmissionConstellation::Bpsk),
            1 => Some(TransmissionConstellation::Qpsk),
            2 => Some(TransmissionConstellation::SixteenQam),
            3 => Some(TransmissionConstellation::SixtyFourQam),
            4 => Some(TransmissionConstellation::TwoHundredFiftySixQam),
            5 => Some(TransmissionConstellation::OneThousandTwentyFourQam),
            6 => Some(TransmissionConstellation::Reserved),
            7 => Some(TransmissionConstellation::NoConstellation),
            _ => None,
        }
    }

    /// The raw code of the value.
    pub fn to_u8(&self) -> (v: u8)
        ensures
            v == self.spec_to_u8(),
            Self::spec_from_u8(v) == Some(*self),
    {
        match self {
            TransmissionConstellation::Bpsk => 0,
            TransmissionConstellation::Qpsk => 1,
            TransmissionConstellation::SixteenQam => 2,
            TransmissionConstellation::SixtyFourQam => 3,
            TransmissionConstellation::TwoHundredFiftySixQam => 4,
            TransmissionConstellation::OneThousandTwentyFourQam => 5,
            TransmissionConstellation::Reserved => 6,
            TransmissionConstellation::NoConstellation => 7,
        }
    }

    /// The human-readable text of the value.
    pub fn to_string(&self) -> (s: String)
        ensures
            s@ == self.spec_text(),
    {
        match self {
            TransmissionConstellation::Bpsk => String::from_str("BPSK"),
            TransmissionConstellation::Qpsk => String::from_str("QPSK"),
            TransmissionConstellation::SixteenQam => String::from_str("16-QAM"),
            TransmissionConstellation::SixtyFourQam => String::from_str("64-QAM"),
            TransmissionConstellation::TwoHundredFiftySixQam => String::from_str("256-QAM"),
            TransmissionConstellation::OneThousandTwentyFourQam => String::from_str("1024-QAM"),
            TransmissionConstellation::Reserved => String::from_str("Reserved"),
            TransmissionConstellation::NoConstellation => String::from_str("None"),
        }
    }
}

/// Decoding a value's own code gives the value back.
pub proof fn lemma_transmission_constellation_code_roundtrip(v: TransmissionConstellation)
    ensures
        TransmissionConstellation::spec_from_u8(v.spec_to_u8()) == Some(v),
{
}

/// The HE MAC Capabilities Information field of an HE Capabilities element.
#[derive(Debug, Clone, Copy, PartialEq, Eq, Hash)]
pub struct HeMacCapabilitiesInformation {
    bytes: [u8; 6],
}

impl HeMacCapabilitiesInformation {
    /// The encoded length in bytes.
    pub const LENGTH: usize = 6;

    /// Whether `bytes` (exactly 6 of them) encode a valid value.
    pub open spec fn spec_valid(bytes: Seq<u8>) -> bool {
        bytes.len() == 6
    }

    /// The encoded bytes.
    pub closed spec fn raw(&self) -> Seq<u8> {
        self.bytes@
    }

    /// Every value is encoded in exactly 6 bytes.
    pub proof fn lemma_raw_len(&self)
        ensures
            self.raw().len() == 6,
    {
    }

    /// Decodes the value from the first 6 bytes of `bytes`. `None` when there are fewer
    /// bytes or they do not encode a valid value.
    pub fn from_bytes(bytes: &[u8]) -> (r: Option<HeMacCapabilitiesInformation>)
        ensures
            r is Some <==> bytes@.len() >= 6 && Self::spec_valid(bytes@.subrange(0, 6)),
            r matches Some(v) ==> v.raw() == bytes@.subrange(0, 6),
    {
        if bytes.len() < 6 {
            return None;
        }
        let a: [u8; 6] = [bytes[0], bytes[1], bytes[2], bytes[3], bytes[4], bytes[5]];
        proof {
            assert(a@ =~= bytes@.subrange(0, 6));
        }
        Some(HeMacCapabilitiesInformation { bytes: a })
    }

    /// The encoded bytes.
    pub fn to_bytes(&self) -> (v: Vec<u8>)
        ensures
            v@ == self.raw(),
    {
        vstd::slice::slice_to_vec(self.bytes.as_slice())
    }

    /// The "+HTC HE Support" subfield (bit 0).
    pub open spec fn spec_htc_he_support(&self) -> bool {
        bit_set(self.raw(), 0)
    }

    /// The "+HTC HE Support" subfield (bit 0).
    pub fn htc_he_support(&self) -> (b: bool)
        ensures
            b == self.spec_htc_he_support(),
    {
        read_bit(self.bytes.as_slice(), 0)
    }

    /// The "TWT Requester Support" subfield (bit 1).
    pub open spec fn spec_twt_requester_support(&self) -> bool {
        bit_set(self.raw(), 1)
    }

    /// The "TWT Requester Support" subfield (bit 1).
    pub fn twt_requester_support(&self) -> (b: bool)
        ensures
            b == self.spec_twt_requester_support(),
    {
        read_bit(self.bytes.as_slice(), 1)
    }

    /// The "TWT Responder Support" subfield (bit 2).
    pub open spec fn spec_twt_responder_support(&self) -> bool {
        bit_set(self.raw(), 2)
    }

    /// The "TWT Responder Support" subfield (bit 2).
    pub fn twt_responder_support(&self) -> (b: bool)
        ensures
            b == self.spec_twt_responder_support(),
    {
        read_bit(self.bytes.as_slice(), 2)
    }

    /// The "Dynamic Fragmentation Support" subfield (bits 3-4).
    pub open spec fn spec_dynamic_fragmentation_support(&self) -> u8 {
        bits_value(self.raw(), 3, 2) as u8
    }

    /// The "Dynamic Fragmentation Support" subfield (bits 3-4).
    pub fn dynamic_fragmentation_support(&self) -> (v: u8)
        ensures
            v == self.spec_dynamic_fragmentation_support(),
            v == bits_value(self.raw(), 3, 2),
    {
        read_u8_bits(self.bytes.as_slice(), 3, 2)
    }

    /// The "Maximum Number of Fragmented MSDUs/AMSDUs Exponent" subfield (bits 5-7).
    pub open spec fn spec_maximum_number_of_fragmented_msdus_amsdus_exponent(&self) -> u8 {
        bits_value(self.raw(), 5, 3) as u8
    }

    /// The "Maximum Number of Fragmented MSDUs/AMSDUs Exponent" subfield (bits 5-7).
    pub fn maximum_number_of_fragmented_msdus_amsdus_exponent(&self) -> (v: u8)
        ensures
            v == self.spec_maximum_number_of_fragmented_msdus_amsdus_exponent(),
            v == bits_value(self.raw(), 5, 3),
    {
        read_u8_bits(self.bytes.as_slice(), 5, 3)
    }

    /// The "Minimum Fragment Size" subfield (bits 8-9).
    pub open spec fn spec_minimum_fragment_size(&self) -> u8 {
        bits_value(self.raw(), 8, 2) as u8
    }

    /// The "Minimum Fragment Size" subfield (bits 8-9).
    pub fn minimum_fragment_size(&self) -> (v: u8)
        ensures
            v == self.spec_minimum_fragment_size(),
            v == bits_value(self.raw(), 8, 2),
    {
        read_u8_bits(self.bytes.as_slice(), 8, 2)
    }

    /// The "Trigger Frame MAC Padding Duration" subfield (bits 10-11).
    pub open spec fn spec_trigger_frame_mac_padding_duration(&self) -> u8 {
        bits_value(self.raw(), 10, 2) as u8
    }

    /// The "Trigger Frame MAC Padding Duration" subfield (bits 10-11).
    pub fn trigger_frame_mac_padding_duration(&self) -> (v: u8)
        ensures
            v == self.spec_trigger_frame_mac_padding_duration(),
            v == bits_value(self.raw(), 10, 2),
    {
        read_u8_bits(self.bytes.as_slice(), 10, 2)
    }

    /// The "Multi-TID Aggregation RX Support" subfield (bits 12-14).
    pub open spec fn spec_multi_tid_aggregation_rx_support(&self) -> u8 {
        bits_value(self.raw(), 12, 3) as u8
    }

    /// The "Multi-TID Aggregation RX Support" subfield (bits 12-14).
    pub fn multi_tid_aggregation_rx_support(&self) -> (v: u8)
        ensures
            v == self.spec_multi_tid_aggregation_rx_support(),
            v == bits_value(self.raw(), 12, 3),
    {
        read_u8_bits(self.bytes.as_slice(), 12, 3)
    }

    /// The "HE Link Adaptation Support" subfield (bits 15-16).
    pub open spec fn spec_he_link_adaptation_support(&self) -> u8 {
        bits_value(self.raw(), 15, 2) as u8
    }

    /// The "HE Link Adaptation Support" subfield (bits 15-16).
    pub fn he_link_adaptation_support(&self) -> (v: u8)
        ensures
            v == self.spec_he_link_adaptation_support(),
            v == bits_value(self.raw(), 15, 2),
    {
        read_u8_bits(self.bytes.as_slice(), 15, 2)
    }

    /// The "All Ack Support" subfield (bit 17).
    pub open spec fn spec_all_ack_support(&self) -> bool {
        bit_set(self.raw(), 17)
    }

    /// The "All Ack Support" subfield (bit 17).
    pub fn all_ack_support(&self) -> (b: bool)
        ensures
            b == self.spec_all_ack_support(),
    {
        read_bit(self.bytes.as_slice(), 17)
    }

    /// The "TRS Support" subfield (bit 18).
    pub open spec fn spec_trs_support(&self) -> bool {
        bit_set(self.raw(), 18)
    }

    /// The "TRS Support" subfield (bit 18).
    pub fn trs_support(&self) -> (b: bool)
        ensures
            b == self.spec_trs_support(),
    {
        read_bit(self.bytes.as_slice(), 18)
    }

    /// The "BSR Support" subfield (bit 19).
    pub open spec fn spec_bsr_support(&self) -> bool {
        bit_set(self.raw(), 19)
    }

    /// The "BSR Support" subfield (bit 19).
    pub fn bsr_support(&self) -> (b: bool)
        ensures
            b == self.spec_bsr_support(),
    {
        read_bit(self.bytes.as_slice(), 19)
    }

    /// The "Broadcast TWT Support" subfield (bit 20).
    pub open spec fn spec_broadcast_twt_support(&self) -> bool {
        bit_set(self.raw(), 20)
    }

    /// The "Broadcast TWT Support" subfield (bit 20).
    pub fn broadcast_twt_support(&self) -> (b: bool)
        ensures
            b == self.spec_broadcast_twt_support(),
    {
        read_bit(self.bytes.as_slice(), 20)
    }

    /// The "32-bit BA Bitmap Support" subfield (bit 21).
    pub open spec fn spec_thirty_two_bit_ba_bitmap_support(&self) -> bool {
        bit_set(self.raw(), 21)
    }

    /// The "32-bit BA Bitmap Support" subfield (bit 21).
    pub fn thirty_two_bit_ba_bitmap_support(&self) -> (b: bool)
        ensures
            b == self.spec_thirty_two_bit_ba_bitmap_support(),
    {
        read_bit(self.bytes.as_slice(), 21)
    }

    /// The "MU Cascading Support" subfield (bit 22).
    pub open spec fn spec_mu_cascading_support(&self) -> bool {
        bit_set(self.raw(), 22)
    }

    /// The "MU Cascading Support" subfield (bit 22).
    pub fn mu_cascading_support(&self) -> (b: bool)
        ensures
            b == self.spec_mu_cascading_support(),
    {
        read_bit(self.bytes.as_slice(), 22)
    }

    /// The "Ack-Enabled Aggregation Support" subfield (bit 23).
    pub open spec fn spec_ack_enabled_aggregation_support(&self) -> bool {
        bit_set(self.raw(), 23)
    }

    /// The "Ack-Enabled Aggregation Support" subfield (bit 23).
    pub fn ack_enabled_aggregation_support(&self) -> (b: bool)
        ensures
            b == self.spec_ack_enabled_aggregation_support(),
    {
        read_bit(self.bytes.as_slice(), 23)
    }

    /// The "OM Control Support" subfield (bit 25).
    pub open spec fn spec_om_control_support(&self) -> bool {
        bit_set(self.raw(), 25)
    }

    /// The "OM Control Support" subfield (bit 25).
    pub fn om_control_support(&self) -> (b: bool)
        ensures
            b == self.spec_om_control_support(),
    {
        read_bit(self.bytes.as_slice(), 25)
    }

    /// The "OFDMA RA Support" subfield (bit 26).
    pub open spec fn spec_ofdma_ra_support(&self) -> bool {
        bit_set(self.raw(), 26)
    }

    /// The "OFDMA RA Support" subfield (bit 26).
    pub fn ofdma_ra_support(&self) -> (b: bool)
        ensures
            b == self.spec_ofdma_ra_support(),
    {
        read_bit(self.bytes.as_slice(), 26)
    }

    /// The "Maximum A-MPDU Length Exponent Extension" subfield (bits 27-28).
    pub open spec fn spec_maximum_ampdu_length_exponent_extension(&self) -> u8 {
        bits_value(self.raw(), 27, 2) as u8
    }

    /// The "Maximum A-MPDU Length Exponent Extension" subfield (bits 27-28).
    pub fn maximum_ampdu_length_exponent_extension(&self) -> (v: u8)
        ensures
            v == self.spec_maximum_ampdu_length_exponent_extension(),
            v == bits_value(self.raw(), 27, 2),
    {
        read_u8_bits(self.bytes.as_slice(), 27, 2)
    }

    /// The "A-MSDU Fragmentation Support" subfield (bit 29).
    pub open spec fn spec_amsdu_fragmentation_support(&self) -> bool {
        bit_set(self.raw(), 29)
    }

    /// The "A-MSDU Fragmentation Support" subfield (bit 29).
    pub fn amsdu_fragmentation_support(&self) -> (b: bool)
        ensures
            b == self.spec_amsdu_fragmentation_support(),
    {
        read_bit(self.bytes.as_slice(), 29)
    }

    /// The "Flexible TWT Schedule Support" subfield (bit 30).
    pub open spec fn spec_flexible_twt_schedule_support(&self) -> bool {
        bit_set(self.raw(), 30)
    }

    /// The "Flexible TWT Schedule Support" subfield (bit 30).
    pub fn flexible_twt_schedule_support(&self) -> (b: bool)
        ensures
            b == self.spec_flexible_twt_schedule_support(),
    {
        read_bit(self.bytes.as_slice(), 30)
    }

    /// The "Rx Control Frame to MultiBSS" subfield (bit 31).
    pub open spec fn spec_rx_control_frame_to_multibss(&self) -> bool {
        bit_set(self.raw(), 31)
    }

    /// The "Rx Control Frame to MultiBSS" subfield (bit 31).
    pub fn rx_control_frame_to_multibss(&self) -> (b: bool)
        ensures
            b == self.spec_rx_control_frame_to_multibss(),
    {
        read_bit(self.bytes.as_slice(), 31)
    }

    /// The "BSRP BQRP A-MPDU Aggregation" subfield (bit 32).
    pub open spec fn spec_bsrp_bqrp_ampdu_aggregation(&self) -> bool {
        bit_set(self.raw(), 32)
    }

    /// The "BSRP BQRP A-MPDU Aggregation" subfield (bit 32).
    pub fn bsrp_bqrp_ampdu_aggregation(&self) -> (b: bool)
        ensures
            b == self.spec_bsrp_bqrp_ampdu_aggregation(),
    {
        read_bit(self.bytes.as_slice(), 32)
    }

    /// The "QTP Support" subfield (bit 33).
    pub open spec fn spec_qtp_support(&self) -> bool {
        bit_set(self.raw(), 33)
    }

    /// The "QTP Support" subfield (bit 33).
    pub fn qtp_support(&self) -> (b: bool)
        ensures
            b == self.spec_qtp_support(),
    {
        read_bit(self.bytes.as_slice(), 33)
    }

    /// The "BQR Support" subfield (bit 34).
    pub open spec fn spec_bqr_support(&self) -> bool {
        bit_set(self.raw(), 34)
    }

    /// The "BQR Support" subfield (bit 34).
    pub fn bqr_support(&self) -> (b: bool)
        ensures
            b == self.spec_bqr_support(),
    {
        read_bit(self.bytes.as_slice(), 34)
    }

    /// The "PSR Responder" subfield (bit 35).
    pub open spec fn spec_psr_responder(&self) -> bool {
        bit_set(self.raw(), 35)
    }

    /// The "PSR Responder" subfield (bit 35).
    pub fn psr_responder(&self) -> (b: bool)
        ensures
            b == self.spec_psr_responder(),
    {
        read_bit(self.bytes.as_slice(), 35)
    }

    /// The "NDP Feedback Report Support" subfield (bit 36).
    pub open spec fn spec_ndp_feedback_report_support(&self) -> bool {
        bit_set(self.raw(), 36)
    }

    /// The "NDP Feedback Report Support" subfield (bit 36).
    pub fn ndp_feedback_report_support(&self) -> (b: bool)
        ensures
            b == self.spec_ndp_feedback_report_support(),
    {
        read_bit(self.bytes.as_slice(), 36)
    }

    /// The "OPS Support" subfield (bit 37).
    pub open spec fn spec_ops_support(&self) -> bool {
        bit_set(self.raw(), 37)
    }

    /// The "OPS Support" subfield (bit 37).
    pub fn ops_support(&self) -> (b: bool)
        ensures
            b == self.spec_ops_support(),
    {
        read_bit(self.bytes.as_slice(), 37)
    }

    /// The "A-MSDU Not Under BA in Ack-Enabled A-MPDU Support" subfield (bit 38).
    pub open spec fn spec_amsdu_not_under_ba_in_ack_enabled_ampdu_support(&self) -> bool {
        bit_set(self.raw(), 38)
    }

    /// The "A-MSDU Not Under BA in Ack-Enabled A-MPDU Support" subfield (bit 38).
    pub fn amsdu_not_under_ba_in_ack_enabled_ampdu_support(&self) -> (b: bool)
        ensures
            b == self.spec_amsdu_not_under_ba_in_ack_enabled_ampdu_support(),
    {
        read_bit(self.bytes.as_slice(), 38)
    }

    /// The "Multi-TID Aggregation TX Support" subfield (bits 39-41).
    pub open spec fn spec_multi_tid_aggregation_tx_support(&self) -> u8 {
        bits_value(self.raw(), 39, 3) as u8
    }

    /// The "Multi-TID Aggregation TX Support" subfield (bits 39-41).
    pub fn multi_tid_aggregation_tx_support(&self) -> (v: u8)
        ensures
            v == self.spec_multi_tid_aggregation_tx_support(),
            v == bits_value(self.raw(), 39, 3),
    {
        read_u8_bits(self.bytes.as_slice(), 39, 3)
    }

    /// The "HE Subchannel Selective Transmission Support" subfield (bit 42).
    pub open spec fn spec_he_subchannel_selective_transmission_support(&self) -> bool {
        bit_set(self.raw(), 42)
    }

    /// The "HE Subchannel Selective Transmission Support" subfield (bit 42).
    pub fn he_subchannel_selective_transmission_support(&self) -> (b: bool)
        ensures
            b == self.spec_he_subchannel_selective_transmission_support(),
    {
        read_bit(self.bytes.as_slice(), 42)
    }

    /// The "UL 2×996-tone RU Support" subfield (bit 43).
    pub open spec fn spec_ul_2_by_996_tone_ru_support(&self) -> bool {
        bit_set(self.raw(), 43)
    }

    /// The "UL 2×996-tone RU Support" subfield (bit 43).
    pub fn ul_2_by_996_tone_ru_support(&self) -> (b: bool)
        ensures
            b == self.spec_ul_2_by_996_tone_ru_support(),
    {
        read_bit(self.bytes.as_slice(), 43)
    }

    /// The "OM Control UL MU Data Disable RX Support" subfield (bit 44).
    pub open spec fn spec_om_control_ul_mu_data_disable_rx_support(&self) -> bool {
        bit_set(self.raw(), 44)
    }

    /// The "OM Control UL MU Data Disable RX Support" subfield (bit 44).
    pub fn om_control_ul_mu_data_disable_rx_support(&self) -> (b: bool)
        ensures
            b == self.spec_om_control_ul_mu_data_disable_rx_support(),
    {
        read_bit(self.bytes.as_slice(), 44)
    }

    /// The "HE Dynamic SM Power Save" subfield (bit 45).
    pub open spec fn spec_he_dynamic_sm_power_save(&self) -> bool {
        bit_set(self.raw(), 45)
    }

    /// The "HE Dynamic SM Power Save" subfield (bit 45).
    pub fn he_dynamic_sm_power_save(&self) -> (b: bool)
        ensures
            b == self.spec_he_dynamic_sm_power_save(),
    {
        read_bit(self.bytes.as_slice(), 45)
    }

    /// The "Punctured Sounding Support" subfield (bit 46).
    pub open spec fn spec_punctured_sounding_support(&self) -> bool {
        bit_set(self.raw(), 46)
    }

    /// The "Punctured Sounding Support" subfield (bit 46).
    pub fn punctured_sounding_support(&self) -> (b: bool)
        ensures
            b == self.spec_punctured_sounding_support(),
    {
        read_bit(self.bytes.as_slice(), 46)
    }

    /// The "HT and VHT Trigger Frame RX Support" subfield (bit 47).
    pub open spec fn spec_ht_and_vht_trigger_frame_rx_support(&self) -> bool {
        bit_set(self.raw(), 47)
    }

    /// The "HT and VHT Trigger Frame RX Support" subfield (bit 47).
    pub fn ht_and_vht_trigger_frame_rx_support(&self) -> (b: bool)
        ensures
            b == self.spec_ht_and_vht_trigger_frame_rx_support(),
    {
        read_bit(self.bytes.as_slice(), 47)
    }

    /// Whether `f` is the displayable field of this value: one subfield per bit field.
    pub open spec fn field_shows(&self, f: Field) -> bool {
        &&& f.title@ == "HE MAC Capabilities Information"@
        &&& f.value@ == ""@
        &&& f.bytes matches Some(b) && b@ == self.raw()
        &&& f.byte is None
        &&& f.bits is None
        &&& f.units is None
        &&& f.subfields@.len() == 37
        &&& bit_field_is(f.subfields@[0], "+HTC HE Support"@, bool_text(self.spec_htc_he_support()), None, self.raw(), 0, 1)
        &&& bit_field_is(f.subfields@[1], "TWT Requester Support"@, bool_text(self.spec_twt_requester_support()), None, self.raw(), 1, 1)
        &&& bit_field_is(f.subfields@[2], "TWT Responder Support"@, bool_text(self.spec_twt_responder_support()), None, self.raw(), 2, 1)
        &&& bit_field_is(f.subfields@[3], "Dynamic Fragmentation Support"@, decimal(self.spec_dynamic_fragmentation_support() as nat), None, self.raw(), 3, 2)
        &&& bit_field_is(f.subfields@[4], "Maximum Number of Fragmented MSDUs/AMSDUs Exponent"@, decimal(self.spec_maximum_number_of_fragmented_msdus_amsdus_exponent() as nat), None, self.raw(), 5, 3)
        &&& bit_field_is(f.subfields@[5], "Minimum Fragment Size"@, decimal(self.spec_minimum_fragment_size() as nat), None, self.raw(), 8, 2)
        &&& bit_field_is(f.subfields@[6], "Trigger Frame MAC Padding Duration"@, decimal(self.spec_trigger_frame_mac_padding_duration() as nat), None, self.raw(), 10, 2)
        &&& bit_field_is(f.subfields@[7], "Multi-TID Aggregation RX Support"@, decimal(self.spec_multi_tid_aggregation_rx_support() as nat), None, self.raw(), 12, 3)
        &&& bit_field_is(f.subfields@[8], "HE Link Adaptation Support"@, decimal(self.spec_he_link_adaptation_support() as nat), None, self.raw(), 15, 2)
        &&& bit_field_is(f.subfields@[9], "All Ack Support"@, bool_text(self.spec_all_ack_support()), None, self.raw(), 17, 1)
        &&& bit_field_is(f.subfields@[10], "TRS Support"@, bool_text(self.spec_trs_support()), None, self.raw(), 18, 1)
        &&& bit_field_is(f.subfields@[11], "BSR Support"@, bool_text(self.spec_bsr_support()), None, self.raw(), 19, 1)
        &&& bit_field_is(f.subfields@[12], "Broadcast TWT Support"@, bool_text(self.spec_broadcast_twt_support()), None, self.raw(), 20, 1)
        &&& bit_field_is(f.subfields@[13], "32-bit BA Bitmap Support"@, bool_text(self.spec_thirty_two_bit_ba_bitmap_support()), None, self.raw(), 21, 1)
        &&& bit_field_is(f.subfields@[14], "MU Cascading Support"@, bool_text(self.spec_mu_cascading_support()), None, self.raw(), 22, 1)
        &&& bit_field_is(f.subfields@[15], "Ack-Enabled Aggregation Support"@, bool_text(self.spec_ack_enabled_aggregation_support()), None, self.raw(), 23, 1)
        &&& reserved_field_is(f.subfields@[16], self.raw(), 24, 1)
        &&& bit_field_is(f.subfields@[17], "OM Control Support"@, bool_text(self.spec_om_control_support()), None, self.raw(), 25, 1)
        &&& bit_field_is(f.subfields@[18], "OFDMA RA Support"@, bool_text(self.spec_ofdma_ra_support()), None, self.raw(), 26, 1)
        &&& bit_field_is(f.subfields@[19], "Maximum A-MPDU Length Exponent Extension"@, decimal(self.spec_maximum_ampdu_length_exponent_extension() as nat), None, self.raw(), 27, 2)
        &&& bit_field_is(f.subfields@[20], "A-MSDU Fragmentation Support"@, bool_text(self.spec_amsdu_fragmentation_support()), None, self.raw(), 29, 1)
        &&& bit_field_is(f.subfields@[21], "Flexible TWT Schedule Support"@, bool_text(self.spec_flexible_twt_schedule_support()), None, self.raw(), 30, 1)
        &&& bit_field_is(f.subfields@[22], "Rx Control Frame to MultiBSS"@, bool_text(self.spec_rx_control_frame_to_multibss()), None, self.raw(), 31, 1)
        &&& bit_field_is(f.subfields@[23], "BSRP BQRP A-MPDU Aggregation"@, bool_text(self.spec_bsrp_bqrp_ampdu_aggregation()), None, self.raw(), 32, 1)
        &&& bit_field_is(f.subfields@[24], "QTP Support"@, bool_text(self.spec_qtp_support()), None, self.raw(), 33, 1)
        &&& bit_field_is(f.subfields@[25], "BQR Support"@, bool_text(self.spec_bqr_support()), None, self.raw(), 34, 1)
        &&& bit_field_is(f.subfields@[26], "PSR Responder"@, bool_text(self.spec_psr_responder()), None, self.raw(), 35, 1)
        &&& bit_field_is(f.subfields@[27], "NDP Feedback Report Support"@, bool_text(self.spec_ndp_feedback_report_support()), None, self.raw(), 36, 1)
        &&& bit_field_is(f.subfields@[28], "OPS Support"@, bool_text(self.spec_ops_support()), None, self.raw(), 37, 1)
        &&& bit_field_is(f.subfields@[29], "A-MSDU Not Under BA in Ack-Enabled A-MPDU Support"@, bool_text(self.spec_amsdu_not_under_ba_in_ack_enabled_ampdu_support()), None, self.raw(), 38, 1)
        &&& bit_field_is(f.subfields@[30], "Multi-TID Aggregation TX Support"@, decimal(self.spec_multi_tid_aggregation_tx_support() as nat), None, self.raw(), 39, 3)
        &&& bit_field_is(f.subfields@[31], "HE Subchannel Selective Transmission Support"@, bool_text(self.spec_he_subchannel_selective_transmission_support()), None, self.raw(), 42, 1)
        &&& bit_field_is(f.subfields@[32], "UL 2×996-tone RU Support"@, bool_text(self.spec_ul_2_by_996_tone_ru_support()), None, self.raw(), 43, 1)
        &&& bit_field_is(f.subfields@[33], "OM Control UL MU Data Disable RX Support"@, bool_text(self.spec_om_control_ul_mu_data_disable_rx_support()), None, self.raw(), 44, 1)
        &&& bit_field_is(f.subfields@[34], "HE Dynamic SM Power Save"@, bool_text(self.spec_he_dynamic_sm_power_save()), None, self.raw(), 45, 1)
        &&& bit_field_is(f.subfields@[35], "Punctured Sounding Support"@, bool_text(self.spec_punctured_sounding_support()), None, self.raw(), 46, 1)
        &&& bit_field_is(f.subfields@[36], "HT and VHT Trigger Frame RX Support"@, bool_text(self.spec_ht_and_vht_trigger_frame_rx_support()), None, self.raw(), 47, 1)
    }

    /// The value as a displayable field with one subfield per bit field.
    #[verifier::rlimit(40)]
    pub fn to_field(&self) -> (f: Field)
        ensures
            self.field_shows(f),
    {
        let bytes = self.bytes.as_slice();
        let mut subfields: Vec<Field> = Vec::new();
        self.push_subfields_0(bytes, &mut subfields);
        self.push_subfields_1(bytes, &mut subfields);
        self.push_subfields_2(bytes, &mut subfields);
        self.push_subfields_3(bytes, &mut subfields);
        Field::new("HE MAC Capabilities Information", "").with_bytes(self.to_bytes()).with_subfields(subfields)
    }

    /// Appends the subfields 0 to 11 of the displayable field.
    fn push_subfields_0(&self, bytes: &[u8], subfields: &mut Vec<Field>)
        requires
            bytes@ == self.raw(),
            old(subfields)@.len() == 0,
        ensures
            final(subfields)@.len() == 12,
            forall|j: int| 0 <= j < 0 ==> final(subfields)@[j] == old(subfields)@[j],
            bit_field_is(final(subfields)@[0], "+HTC HE Support"@, bool_text(self.spec_htc_he_support()), None, self.raw(), 0, 1),
            bit_field_is(final(subfields)@[1], "TWT Requester Support"@, bool_text(self.spec_twt_requester_support()), None, self.raw(), 1, 1),
            bit_field_is(final(subfields)@[2], "TWT Responder Support"@, bool_text(self.spec_twt_responder_support()), None, self.raw(), 2, 1),
            bit_field_is(final(subfields)@[3], "Dynamic Fragmentation Support"@, decimal(self.spec_dynamic_fragmentation_support() as nat), None, self.raw(), 3, 2),
            bit_field_is(final(subfields)@[4], "Maximum Number of Fragmented MSDUs/AMSDUs Exponent"@, decimal(self.spec_maximum_number_of_fragmented_msdus_amsdus_exponent() as nat), None, self.raw(), 5, 3),
            bit_field_is(final(subfields)@[5], "Minimum Fragment Size"@, decimal(self.spec_minimum_fragment_size() as nat), None, self.raw(), 8, 2),
            bit_field_is(final(subfields)@[6], "Trigger Frame MAC Padding Duration"@, decimal(self.spec_trigger_frame_mac_padding_duration() as nat), None, self.raw(), 10, 2),
            bit_field_is(final(subfields)@[7], "Multi-TID Aggregation RX Support"@, decimal(self.spec_multi_tid_aggregation_rx_support() as nat), None, self.raw(), 12, 3),
            bit_field_is(final(subfields)@[8], "HE Link Adaptation Support"@, decimal(self.spec_he_link_adaptation_support() as nat), None, self.raw(), 15, 2),
            bit_field_is(final(subfields)@[9], "All Ack Support"@, bool_text(self.spec_all_ack_support()), None, self.raw(), 17, 1),
            bit_field_is(final(subfields)@[10], "TRS Support"@, bool_text(self.spec_trs_support()), None, self.raw(), 18, 1),
            bit_field_is(final(subfields)@[11], "BSR Support"@, bool_text(self.spec_bsr_support()), None, self.raw(), 19, 1),
    {
        subfields.push(bit_field("+HTC HE Support", bool_string(self.htc_he_support()), bytes, 0, 1));
        subfields.push(bit_field("TWT Requester Support", bool_string(self.twt_requester_support()), bytes, 1, 1));
        subfields.push(bit_field("TWT Responder Support", bool_string(self.twt_responder_support()), bytes, 2, 1));
        subfields.push(bit_field("Dynamic Fragmentation Support", u64_text(self.dynamic_fragmentation_support() as u64), bytes, 3, 2));
        subfields.push(bit_field("Maximum Number of Fragmented MSDUs/AMSDUs Exponent", u64_text(self.maximum_number_of_fragmented_msdus_amsdus_exponent() as u64), bytes, 5, 3));
        subfields.push(bit_field("Minimum Fragment Size", u64_text(self.minimum_fragment_size() as u64), bytes, 8, 2));
        subfields.push(bit_field("Trigger Frame MAC Padding Duration", u64_text(self.trigger_frame_mac_padding_duration() as u64), bytes, 10, 2));
        subfields.push(bit_field("Multi-TID Aggregation RX Support", u64_text(self.multi_tid_aggregation_rx_support() as u64), bytes, 12, 3));
        subfields.push(bit_field("HE Link Adaptation Support", u64_text(self.he_link_adaptation_support() as u64), bytes, 15, 2));
        subfields.push(bit_field("All Ack Support", bool_string(self.all_ack_support()), bytes, 17, 1));
        subfields.push(bit_field("TRS Support", bool_string(self.trs_support()), bytes, 18, 1));
        subfields.push(bit_field("BSR Support", bool_string(self.bsr_support()), bytes, 19, 1));
    }

    /// Appends the subfields 12 to 23 of the displayable field.
    fn push_subfields_1(&self, bytes: &[u8], subfields: &mut Vec<Field>)
        requires
            bytes@ == self.raw(),
            old(subfields)@.len() == 12,
        ensures
            final(subfields)@.len() == 24,
            forall|j: int| 0 <= j < 12 ==> final(subfields)@[j] == old(subfields)@[j],
            bit_field_is(final(subfields)@[12], "Broadcast TWT Support"@, bool_text(self.spec_broadcast_twt_support()), None, self.raw(), 20, 1),
            bit_field_is(final(subfields)@[13], "32-bit BA Bitmap Support"@, bool_text(self.spec_thirty_two_bit_ba_bitmap_support()), None, self.raw(), 21, 1),
            bit_field_is(final(subfields)@[14], "MU Cascading Support"@, bool_text(self.spec_mu_cascading_support()), None, self.raw(), 22, 1),
            bit_field_is(final(subfields)@[15], "Ack-Enabled Aggregation Support"@, bool_text(self.spec_ack_enabled_aggregation_support()), None, self.raw(), 23, 1),
            reserved_field_is(final(subfields)@[16], self.raw(), 24, 1),
            bit_field_is(final(subfields)@[17], "OM Control Support"@, bool_text(self.spec_om_control_support()), None, self.raw(), 25, 1),
            bit_field_is(final(subfields)@[18], "OFDMA RA Support"@, bool_text(self.spec_ofdma_ra_support()), None, self.raw(), 26, 1),
            bit_field_is(final(subfields)@[19], "Maximum A-MPDU Length Exponent Extension"@, decimal(self.spec_maximum_ampdu_length_exponent_extension() as nat), None, self.raw(), 27, 2),
            bit_field_is(final(subfields)@[20], "A-MSDU Fragmentation Support"@, bool_text(self.spec_amsdu_fragmentation_support()), None, self.raw(), 29, 1),
            bit_field_is(final(subfields)@[21], "Flexible TWT Schedule Support"@, bool_text(self.spec_flexible_twt_schedule_support()), None, self.raw(), 30, 1),
            bit_field_is(final(subfields)@[22], "Rx Control Frame to MultiBSS"@, bool_text(self.spec_rx_control_frame_to_multibss()), None, self.raw(), 31, 1),
            bit_field_is(final(subfields)@[23], "BSRP BQRP A-MPDU Aggregation"@, bool_text(self.spec_bsrp_bqrp_ampdu_aggregation()), None, self.raw(), 32, 1),
    {
        subfields.push(bit_field("Broadcast TWT Support", bool_string(self.broadcast_twt_support()), bytes, 20, 1));
        subfields.push(bit_field("32-bit BA Bitmap Support", bool_string(self.thirty_two_bit_ba_bitmap_support()), bytes, 21, 1));
        subfields.push(bit_field("MU Cascading Support", bool_string(self.mu_cascading_support()), bytes, 22, 1));
        subfields.push(bit_field("Ack-Enabled Aggregation Support", bool_string(self.ack_enabled_aggregation_support()), bytes, 23, 1));
        subfields.push(reserved_bits(bytes, 24, 1));
        subfields.push(bit_field("OM Control Support", bool_string(self.om_control_support()), bytes, 25, 1));
        subfields.push(bit_field("OFDMA RA Support", bool_string(self.ofdma_ra_support()), bytes, 26, 1));
        subfields.push(bit_field("Maximum A-MPDU Length Exponent Extension", u64_text(self.maximum_ampdu_length_exponent_extension() as u64), bytes, 27, 2));
        subfields.push(bit_field("A-MSDU Fragmentation Support", bool_string(self.amsdu_fragmentation_support()), bytes, 29, 1));
        subfields.push(bit_field("Flexible TWT Schedule Support", bool_string(self.flexible_twt_schedule_support()), bytes, 30, 1));
        subfields.push(bit_field("Rx Control Frame to MultiBSS", bool_string(self.rx_control_frame_to_multibss()), bytes, 31, 1));
        subfields.push(bit_field("BSRP BQRP A-MPDU Aggregation", bool_string(self.bsrp_bqrp_ampdu_aggregation()), bytes, 32, 1));
    }

    /// Appends the subfields 24 to 35 of the displayable field.
    fn push_subfields_2(&self, bytes: &[u8], subfields: &mut Vec<Field>)
        requires
            bytes@ == self.raw(),
            old(subfields)@.len() == 24,
        ensures
            final(subfields)@.len() == 36,
            forall|j: int| 0 <= j < 24 ==> final(subfields)@[j] == old(subfields)@[j],
            bit_field_is(final(subfields)@[24], "QTP Support"@, bool_text(self.spec_qtp_support()), None, self.raw(), 33, 1),
            bit_field_is(final(subfields)@[25], "BQR Support"@, bool_text(self.spec_bqr_support()), None, self.raw(), 34, 1),
            bit_field_is(final(subfields)@[26], "PSR Responder"@, bool_text(self.spec_psr_responder()), None, self.raw(), 35, 1),
            bit_field_is(final(subfields)@[27], "NDP Feedback Report Support"@, bool_text(self.spec_ndp_feedback_report_support()), None, self.raw(), 36, 1),
            bit_field_is(final(subfields)@[28], "OPS Support"@, bool_text(self.spec_ops_support()), None, self.raw(), 37, 1),
            bit_field_is(final(subfields)@[29], "A-MSDU Not Under BA in Ack-Enabled A-MPDU Support"@, bool_text(self.spec_amsdu_not_under_ba_in_ack_enabled_ampdu_support()), None, self.raw(), 38, 1),
            bit_field_is(final(subfields)@[30], "Multi-TID Aggregation TX Support"@, decimal(self.spec_multi_tid_aggregation_tx_support() as nat), None, self.raw(), 39, 3),
            bit_field_is(final(subfields)@[31], "HE Subchannel Selective Transmission Support"@, bool_text(self.spec_he_subchannel_selective_transmission_support()), None, self.raw(), 42, 1),
            bit_field_is(final(subfields)@[32], "UL 2×996-tone RU Support"@, bool_text(self.spec_ul_2_by_996_tone_ru_support()), None, self.raw(), 43, 1),
            bit_field_is(final(subfields)@[33], "OM Control UL MU Data Disable RX Support"@, bool_text(self.spec_om_control_ul_mu_data_disable_rx_support()), None, self.raw(), 44, 1),
            bit_field_is(final(subfields)@[34], "HE Dynamic SM Power Save"@, bool_text(self.spec_he_dynamic_sm_power_save()), None, self.raw(), 45, 1),
            bit_field_is(final(subfields)@[35], "Punctured Sounding Support"@, bool_text(self.spec_punctured_sounding_support()), None, self.raw(), 46, 1),
    {
        subfields.push(bit_field("QTP Support", bool_string(self.qtp_support()), bytes, 33, 1));
        subfields.push(bit_field("BQR Support", bool_string(self.bqr_support()), bytes, 34, 1));
        subfields.push(bit_field("PSR Responder", bool_string(self.psr_responder()), bytes, 35, 1));
        subfields.push(bit_field("NDP Feedback Report Support", bool_string(self.ndp_feedback_report_support()), bytes, 36, 1));
        subfields.push(bit_field("OPS Support", bool_string(self.ops_support()), bytes, 37, 1));
        subfields.push(bit_field("A-MSDU Not Under BA in Ack-Enabled A-MPDU Support", bool_string(self.amsdu_not_under_ba_in_ack_enabled_ampdu_support()), bytes, 38, 1));
        subfields.push(bit_field("Multi-TID Aggregation TX Support", u64_text(self.multi_tid_aggregation_tx_support() as u64), bytes, 39, 3));
        subfields.push(bit_field("HE Subchannel Selective Transmission Support", bool_string(self.he_subchannel_selective_transmission_support()), bytes, 42, 1));
        subfields.push(bit_field("UL 2×996-tone RU Support", bool_string(self.ul_2_by_996_tone_ru_support()), bytes, 43, 1));
        subfields.push(bit_field("OM Control UL MU Data Disable RX Support", bool_string(self.om_control_ul_mu_data_disable_rx_support()), bytes, 44, 1));
        subfields.push(bit_field("HE Dynamic SM Power Save", bool_string(self.he_dynamic_sm_power_save()), bytes, 45, 1));
        subfields.push(bit_field("Punctured Sounding Support", bool_string(self.punctured_sounding_support()), bytes, 46, 1));
    }

    /// Appends the subfields 36 to 36 of the displayable field.
    fn push_subfields_3(&self, bytes: &[u8], subfields: &mut Vec<Field>)
        requires
            bytes@ == self.raw(),
            old(subfields)@.len() == 36,
        ensures
            final(subfields)@.len() == 37,
            forall|j: int| 0 <= j < 36 ==> final(subfields)@[j] == old(subfields)@[j],
            bit_field_is(final(subfields)@[36], "HT and VHT Trigger Frame RX Support"@, bool_text(self.spec_ht_and_vht_trigger_frame_rx_support()), None, self.raw(), 47, 1),
    {
        subfields.push(bit_field("HT and VHT Trigger Frame RX Support", bool_string(self.ht_and_vht_trigger_frame_rx_support()), bytes, 47, 1));
    }

}

/// The HE PHY Capabilities Information field of an HE Capabilities element.
#[derive(Debug, Clone, Copy, PartialEq, Eq, Hash)]
pub struct HePhyCapabilitiesInformation {
    bytes: [u8; 11],
}

impl HePhyCapabilitiesInformation {
    /// The encoded length in bytes.
    pub const LENGTH: usize = 11;

    /// Whether `bytes` (exactly 11 of them) encode a valid value.
    pub open spec fn spec_valid(bytes: Seq<u8>) -> bool {
        bytes.len() == 11
    }

    /// The encoded bytes.
    pub closed spec fn raw(&self) -> Seq<u8> {
        self.bytes@
    }

    /// Every value is encoded in exactly 11 bytes.
    pub proof fn lemma_raw_len(&self)
        ensures
            self.raw().len() == 11,
    {
    }

    /// Decodes the value from the first 11 bytes of `bytes`. `None` when there are fewer
    /// bytes or they do not encode a valid value.
    pub fn from_bytes(bytes: &[u8]) -> (r: Option<HePhyCapabilitiesInformation>)
        ensures
            r is Some <==> bytes@.len() >= 11 && Self::spec_valid(bytes@.subrange(0, 11)),
            r matches Some(v) ==> v.raw() == bytes@.subrange(0, 11),
    {
        if bytes.len() < 11 {
            return None;
        }
        let a: [u8; 11] = [bytes[0], bytes[1], bytes[2], bytes[3], bytes[4], bytes[5], bytes[6], bytes[7], bytes[8], bytes[9], bytes[10]];
        proof {
            assert(a@ =~= bytes@.subrange(0, 11));
        }
        Some(HePhyCapabilitiesInformation { bytes: a })
    }

    /// The encoded bytes.
    pub fn to_bytes(&self) -> (v: Vec<u8>)
        ensures
            v@ == self.raw(),
    {
        vstd::slice::slice_to_vec(self.bytes.as_slice())
    }

    /// The "Supported Channel Width Set" subfield (bits 1-7).
    pub open spec fn spec_supported_channel_width_set(&self) -> u8 {
        bits_value(self.raw(), 1, 7) as u8
    }

    /// The "Supported Channel Width Set" subfield (bits 1-7).
    pub fn supported_channel_width_set(&self) -> (v: u8)
        ensures
            v == self.spec_supported_channel_width_set(),
            v == bits_value(self.raw(), 1, 7),
    {
        read_u8_bits(self.bytes.as_slice(), 1, 7)
    }

    /// The "Punctured Preamble RX" subfield (bits 8-11).
    pub open spec fn spec_punctured_preamble_rx(&self) -> u8 {
        bits_value(self.raw(), 8, 4) as u8
    }

    /// The "Punctured Preamble RX" subfield (bits 8-11).
    pub fn punctured_preamble_rx(&self) -> (v: u8)
        ensures
            v == self.spec_punctured_preamble_rx(),
            v == bits_value(self.raw(), 8, 4),
    {
        read_u8_bits(self.bytes.as_slice(), 8, 4)
    }

    /// The "Device Class" subfield (bit 12).
    pub open spec fn spec_device_class(&self) -> bool {
        bit_set(self.raw(), 12)
    }

    /// The "Device Class" subfield (bit 12).
    pub fn device_class(&self) -> (b: bool)
        ensures
            b == self.spec_device_class(),
    {
        read_bit(self.bytes.as_slice(), 12)
    }

    /// The "LDPC Coding in Payload" subfield (bit 13).
    pub open spec fn spec_ldpc_coding_in_payload(&self) -> bool {
        bit_set(self.raw(), 13)
    }

    /// The "LDPC Coding in Payload" subfield (bit 13).
    pub fn ldpc_coding_in_payload(&self) -> (b: bool)
        ensures
            b == self.spec_ldpc_coding_in_payload(),
    {
        read_bit(self.bytes.as_slice(), 13)
    }

    /// The "HE SU PPDU with 1x HE-LTF and 0.8 µs GI" subfield (bit 14).
    pub open spec fn spec_he_ssu_ppdu_with_1x_he_ltf_and_zero_point_eight_microseconds_gi(&self) -> bool {
        bit_set(self.raw(), 14)
    }

    /// The "HE SU PPDU with 1x HE-LTF and 0.8 µs GI" subfield (bit 14).
    pub fn he_ssu_ppdu_with_1x_he_ltf_and_zero_point_eight_microseconds_gi(&self) -> (b: bool)
        ensures
            b == self.spec_he_ssu_ppdu_with_1x_he_ltf_and_zero_point_eight_microseconds_gi(),
    {
        read_bit(self.bytes.as_slice(), 14)
    }

    /// The "Midamble Tx/Rx Max NSTS" subfield (bits 15-16).
    pub open spec fn spec_midamble_tx_rx_max_nsts(&self) -> u8 {
        bits_value(self.raw(), 15, 2) as u8
    }

    /// The "Midamble Tx/Rx Max NSTS" subfield (bits 15-16).
    pub fn midamble_tx_rx_max_nsts(&self) -> (v: u8)
        ensures
            v == self.spec_midamble_tx_rx_max_nsts(),
            v == bits_value(self.raw(), 15, 2),
    {
        read_u8_bits(self.bytes.as_slice(), 15, 2)
    }

    /// The "NDP with 4x HE-LTF and 3.2µs GI" subfield (bit 17).
    pub open spec fn spec_ndp_with_4x_he_ltf_and_three_point_two_microseconds_gi(&self) -> bool {
        bit_set(self.raw(), 17)
    }

    /// The "NDP with 4x HE-LTF and 3.2µs GI" subfield (bit 17).
    pub fn ndp_with_4x_he_ltf_and_three_point_two_microseconds_gi(&self) -> (b: bool)
        ensures
            b == self.spec_ndp_with_4x_he_ltf_and_three_point_two_microseconds_gi(),
    {
        read_bit(self.bytes.as_slice(), 17)
    }

    /// The "STBC Tx ≤ 80 MHz" subfield (bit 18).
    pub open spec fn spec_stbc_tx_less_than_or_equal_to_eighty_mhz(&self) -> bool {
        bit_set(self.raw(), 18)
    }

    /// The "STBC Tx ≤ 80 MHz" subfield (bit 18).
    pub fn stbc_tx_less_than_or_equal_to_eighty_mhz(&self) -> (b: bool)
        ensures
            b == self.spec_stbc_tx_less_than_or_equal_to_eighty_mhz(),
    {
        read_bit(self.bytes.as_slice(), 18)
    }

    /// The "STBC Rx ≤ 80 MHz" subfield (bit 19).
    pub open spec fn spec_stbc_rx_less_than_or_equal_to_eighty_mhz(&self) -> bool {
        bit_set(self.raw(), 19)
    }

    /// The "STBC Rx ≤ 80 MHz" subfield (bit 19).
    pub fn stbc_rx_less_than_or_equal_to_eighty_mhz(&self) -> (b: bool)
        ensures
            b == self.spec_stbc_rx_less_than_or_equal_to_eighty_mhz(),
    {
        read_bit(self.bytes.as_slice(), 19)
    }

    /// The "Doppler Tx" subfield (bit 20).
    pub open spec fn spec_doppler_tx(&self) -> bool {
        bit_set(self.raw(), 20)
    }

    /// The "Doppler Tx" subfield (bit 20).
    pub fn doppler_tx(&self) -> (b: bool)
        ensures
            b == self.spec_doppler_tx(),
    {
        read_bit(self.bytes.as_slice(), 20)
    }

    /// The "Doppler Rx" subfield (bit 21).
    pub open spec fn spec_doppler_rx(&self) -> bool {
        bit_set(self.raw(), 21)
    }

    /// The "Doppler Rx" subfield (bit 21).
    pub fn doppler_rx(&self) -> (b: bool)
        ensures
            b == self.spec_doppler_rx(),
    {
        read_bit(self.bytes.as_slice(), 21)
    }

    /// The "Full Bandwidth UL MU-MIMO" subfield (bit 22).
    pub open spec fn spec_full_bandwidth_ul_mu_mimo(&self) -> bool {
        bit_set(self.raw(), 22)
    }

    /// The "Full Bandwidth UL MU-MIMO" subfield (bit 22).
    pub fn full_bandwidth_ul_mu_mimo(&self) -> (b: bool)
        ensures
            b == self.spec_full_bandwidth_ul_mu_mimo(),
    {
        read_bit(self.bytes.as_slice(), 22)
    }

    /// The "Partial Bandwidth UL MU-MIMO" subfield (bit 23).
    pub open spec fn spec_partial_bandwidth_ul_mu_mimo(&self) -> bool {
        bit_set(self.raw(), 23)
    }

    /// The "Partial Bandwidth UL MU-MIMO" subfield (bit 23).
    pub fn partial_bandwidth_ul_mu_mimo(&self) -> (b: bool)
        ensures
            b == self.spec_partial_bandwidth_ul_mu_mimo(),
    {
        read_bit(self.bytes.as_slice(), 23)
    }

    /// The "DCM Max Constellation Tx" subfield (bits 24-25).
    pub open spec fn spec_dcm_max_constellation_tx(&self) -> u8 {
        bits_value(self.raw(), 24, 2) as u8
    }

    /// The "DCM Max Constellation Tx" subfield (bits 24-25).
    pub fn dcm_max_constellation_tx(&self) -> (v: u8)
        ensures
            v == self.spec_dcm_max_constellation_tx(),
            v == bits_value(self.raw(), 24, 2),
    {
        read_u8_bits(self.bytes.as_slice(), 24, 2)
    }

    /// The "DCM Max NSS Tx" subfield (bit 26).
    pub open spec fn spec_dcm_max_nss_tx(&self) -> bool {
        bit_set(self.raw(), 26)
    }

    /// The "DCM Max NSS Tx" subfield (bit 26).
    pub fn dcm_max_nss_tx(&self) -> (b: bool)
        ensures
            b == self.spec_dcm_max_nss_tx(),
    {
        read_bit(self.bytes.as_slice(), 26)
    }

    /// The "DCM Max Constellation Rx" subfield (bits 27-28).
    pub open spec fn spec_dcm_max_constellation_rx(&self) -> u8 {
        bits_value(self.raw(), 27, 2) as u8
    }

    /// The "DCM Max Constellation Rx" subfield (bits 27-28).
    pub fn dcm_max_constellation_rx(&self) -> (v: u8)
        ensures
            v == self.spec_dcm_max_constellation_rx(),
            v == bits_value(self.raw(), 27, 2),
    {
        read_u8_bits(self.bytes.as_slice(), 27, 2)
    }

    /// The "DCM Max NSS Rx" subfield (bit 29).
    pub open spec fn spec_dcm_max_nss_rx(&self) -> bool {
        bit_set(self.raw(), 29)
    }

    /// The "DCM Max NSS Rx" subfield (bit 29).
    pub fn dcm_max_nss_rx(&self) -> (b: bool)
        ensures
            b == self.spec_dcm_max_nss_rx(),
    {
        read_bit(self.bytes.as_slice(), 29)
    }

    /// The "Rx Partial BW SU in 20 MHz HE MU PPDU" subfield (bit 30).
    pub open spec fn spec_rx_partial_bw_su_in_twenty_mhz_he_mu_ppdu(&self) -> bool {
        bit_set(self.raw(), 30)
    }

    /// The "Rx Partial BW SU in 20 MHz HE MU PPDU" subfield (bit 30).
    pub fn rx_partial_bw_su_in_twenty_mhz_he_mu_ppdu(&self) -> (b: bool)
        ensures
            b == self.spec_rx_partial_bw_su_in_twenty_mhz_he_mu_ppdu(),
    {
        read_bit(self.bytes.as_slice(), 30)
    }

    /// The "SU Beamformer" subfield (bit 31).
    pub open spec fn spec_su_beamformer(&self) -> bool {
        bit_set(self.raw(), 31)
    }

    /// The "SU Beamformer" subfield (bit 31).
    pub fn su_beamformer(&self) -> (b: bool)
        ensures
            b == self.spec_su_beamformer(),
    {
        read_bit(self.bytes.as_slice(), 31)
    }

    /// The "SU Beamformee" subfield (bit 32).
    pub open spec fn spec_su_beamformee(&self) -> bool {
        bit_set(self.raw(), 32)
    }

    /// The "SU Beamformee" subfield (bit 32).
    pub fn su_beamformee(&self) -> (b: bool)
        ensures
            b == self.spec_su_beamformee(),
    {
        read_bit(self.bytes.as_slice(), 32)
    }

    /// The "MU Beamformer" subfield (bit 33).
    pub open spec fn spec_mu_beamformer(&self) -> bool {
        bit_set(self.raw(), 33)
    }

    /// The "MU Beamformer" subfield (bit 33).
    pub fn mu_beamformer(&self) -> (b: bool)
        ensures
            b == self.spec_mu_beamformer(),
    {
        read_bit(self.bytes.as_slice(), 33)
    }

    /// The "Beamformee STS ≤ 80 MHz" subfield (bits 34-36).
    pub open spec fn spec_beamformee_sts_less_than_or_equal_to_eighty_mhz(&self) -> u8 {
        bits_value(self.raw(), 34, 3) as u8
    }

    /// The "Beamformee STS ≤ 80 MHz" subfield (bits 34-36).
    pub fn beamformee_sts_less_than_or_equal_to_eighty_mhz(&self) -> (v: u8)
        ensures
            v == self.spec_beamformee_sts_less_than_or_equal_to_eighty_mhz(),
            v == bits_value(self.raw(), 34, 3),
    {
        read_u8_bits(self.bytes.as_slice(), 34, 3)
    }

    /// The "Beamformee STS > 80 MHz" subfield (bits 37-39).
    pub open spec fn spec_beamformee_sts_greater_than_eighty_mhz(&self) -> u8 {
        bits_value(self.raw(), 37, 3) as u8
    }

    /// The "Beamformee STS > 80 MHz" subfield (bits 37-39).
    pub fn beamformee_sts_greater_than_eighty_mhz(&self) -> (v: u8)
        ensures
            v == self.spec_beamformee_sts_greater_than_eighty_mhz(),
            v == bits_value(self.raw(), 37, 3),
    {
        read_u8_bits(self.bytes.as_slice(), 37, 3)
    }

    /// The "Number of Sounding Dimensions ≤ 80 MHz" subfield (bits 40-42).
    pub open spec fn spec_number_of_sounding_dimensions_less_than_or_equal_to_eighty_mhz(&self) -> u8 {
        bits_value(self.raw(), 40, 3) as u8
    }

    /// The "Number of Sounding Dimensions ≤ 80 MHz" subfield (bits 40-42).
    pub fn number_of_sounding_dimensions_less_than_or_equal_to_eighty_mhz(&self) -> (v: u8)
        ensures
            v == self.spec_number_of_sounding_dimensions_less_than_or_equal_to_eighty_mhz(),
            v == bits_value(self.raw(), 40, 3),
    {
        read_u8_bits(self.bytes.as_slice(), 40, 3)
    }

    /// The "Number of Sounding Dimensions > 80 MHz" subfield (bits 43-45).
    pub open spec fn spec_number_of_sounding_dimensions_greater_than_eighty_mhz(&self) -> u8 {
        bits_value(self.raw(), 43, 3) as u8
    }

    /// The "Number of Sounding Dimensions > 80 MHz" subfield (bits 43-45).
    pub fn number_of_sounding_dimensions_greater_than_eighty_mhz(&self) -> (v: u8)
        ensures
            v == self.spec_number_of_sounding_dimensions_greater_than_eighty_mhz(),
            v == bits_value(self.raw(), 43, 3),
    {
        read_u8_bits(self.bytes.as_slice(), 43, 3)
    }

    /// The "Ng = 16 SU Feedback" subfield (bit 46).
    pub open spec fn spec_ng_equals_sixteen_su_feedback(&self) -> bool {
        bit_set(self.raw(), 46)
    }

    /// The "Ng = 16 SU Feedback" subfield (bit 46).
    pub fn ng_equals_sixteen_su_feedback(&self) -> (b: bool)
        ensures
            b == self.spec_ng_equals_sixteen_su_feedback(),
    {
        read_bit(self.bytes.as_slice(), 46)
    }

    /// The "Ng = 16 MU Feedback" subfield (bit 47).
    pub open spec fn spec_ng_equals_sixteen_mu_feedback(&self) -> bool {
        bit_set(self.raw(), 47)
    }

    /// The "Ng = 16 MU Feedback" subfield (bit 47).
    pub fn ng_equals_sixteen_mu_feedback(&self) -> (b: bool)
        ensures
            b == self.spec_ng_equals_sixteen_mu_feedback(),
    {
        read_bit(self.bytes.as_slice(), 47)
    }

    /// The "Codebook Size (ϕ, ψ) = {4, 2} SU Feedback" subfield (bit 48).
    pub open spec fn spec_codebook_size_su_feedback(&self) -> bool {
        bit_set(self.raw(), 48)
    }

    /// The "Codebook Size (ϕ, ψ) = {4, 2} SU Feedback" subfield (bit 48).
    pub fn codebook_size_su_feedback(&self) -> (b: bool)
        ensures
            b == self.spec_codebook_size_su_feedback(),
    {
        read_bit(self.bytes.as_slice(), 48)
    }

    /// The "Codebook Size (ϕ, ψ) = {7, 5} MU Feedback" subfield (bit 49).
    pub open spec fn spec_codebook_size_mu_feedback(&self) -> bool {
        bit_set(self.raw(), 49)
    }

    /// The "Codebook Size (ϕ, ψ) = {7, 5} MU Feedback" subfield (bit 49).
    pub fn codebook_size_mu_feedback(&self) -> (b: bool)
        ensures
            b == self.spec_codebook_size_mu_feedback(),
    {
        read_bit(self.bytes.as_slice(), 49)
    }

    /// The "Triggered SU Beamforming Feedback" subfield (bit 50).
    pub open spec fn spec_triggered_su_beamforming_feedback(&self) -> bool {
        bit_set(self.raw(), 50)
    }

    /// The "Triggered SU Beamforming Feedback" subfield (bit 50).
    pub fn triggered_su_beamforming_feedback(&self) -> (b: bool)
        ensures
            b == self.spec_triggered_su_beamforming_feedback(),
    {
        read_bit(self.bytes.as_slice(), 50)
    }

    /// The "Triggered MU Beamforming Partial BW Feedback" subfield (bit 51).
    pub open spec fn spec_triggered_mu_beamforming_partial_bw_feedback(&self) -> bool {
        bit_set(self.raw(), 51)
    }

    /// The "Triggered MU Beamforming Partial BW Feedback" subfield (bit 51).
    pub fn triggered_mu_beamforming_partial_bw_feedback(&self) -> (b: bool)
        ensures
            b == self.spec_triggered_mu_beamforming_partial_bw_feedback(),
    {
        read_bit(self.bytes.as_slice(), 51)
    }

    /// The "Triggered CQI Feedback" subfield (bit 52).
    pub open spec fn spec_triggered_cqi_feedback(&self) -> bool {
        bit_set(self.raw(), 52)
    }

    /// The "Triggered CQI Feedback" subfield (bit 52).
    pub fn triggered_cqi_feedback(&self) -> (b: bool)
        ensures
            b == self.spec_triggered_cqi_feedback(),
    {
        read_bit(self.bytes.as_slice(), 52)
    }

    /// The "Partial Bandwidth Extended Range" subfield (bit 53).
    pub open spec fn spec_partial_bandwidth_extended_range(&self) -> bool {
        bit_set(self.raw(), 53)
    }

    /// The "Partial Bandwidth Extended Range" subfield (bit 53).
    pub fn partial_bandwidth_extended_range(&self) -> (b: bool)
        ensures
            b == self.spec_partial_bandwidth_extended_range(),
    {
        read_bit(self.bytes.as_slice(), 53)
    }

    /// The "Partial Bandwidth DL MU-MIMO" subfield (bit 54).
    pub open spec fn spec_partial_bandwidth_dl_mu_mimo(&self) -> bool {
        bit_set(self.raw(), 54)
    }

    /// The "Partial Bandwidth DL MU-MIMO" subfield (bit 54).
    pub fn partial_bandwidth_dl_mu_mimo(&self) -> (b: bool)
        ensures
            b == self.spec_partial_bandwidth_dl_mu_mimo(),
    {
        read_bit(self.bytes.as_slice(), 54)
    }

    /// The "PPE Thresholds Present" subfield (bit 55).
    pub open spec fn spec_ppe_thresholds_present(&self) -> bool {
        bit_set(self.raw(), 55)
    }

    /// The "PPE Thresholds Present" subfield (bit 55).
    pub fn ppe_thresholds_present(&self) -> (b: bool)
        ensures
            b == self.spec_ppe_thresholds_present(),
    {
        read_bit(self.bytes.as_slice(), 55)
    }

    /// The "PSR-based SR Support" subfield (bit 56).
    pub open spec fn spec_psr_based_sr_support(&self) -> bool {
        bit_set(self.raw(), 56)
    }

    /// The "PSR-based SR Support" subfield (bit 56).
    pub fn psr_based_sr_support(&self) -> (b: bool)
        ensures
            b == self.spec_psr_based_sr_support(),
    {
        read_bit(self.bytes.as_slice(), 56)
    }

    /// The "Power Boost Factor Support" subfield (bit 57).
    pub open spec fn spec_power_boost_factor_support(&self) -> bool {
        bit_set(self.raw(), 57)
    }

    /// The "Power Boost Factor Support" subfield (bit 57).
    pub fn power_boost_factor_support(&self) -> (b: bool)
        ensures
            b == self.spec_power_boost_factor_support(),
    {
        read_bit(self.bytes.as_slice(), 57)
    }

    /// The "HE SU/MU PPDU with 4x HE-LTF and 0.8 µs GI" subfield (bit 58).
    pub open spec fn spec_he_su_ppdu_and_he_mu_ppdu_with_4x_he_ltf_and_zero_point_eighty_microseconds_gi(&self) -> bool {
        bit_set(self.raw(), 58)
    }

    /// The "HE SU/MU PPDU with 4x HE-LTF and 0.8 µs GI" subfield (bit 58).
    pub fn he_su_ppdu_and_he_mu_ppdu_with_4x_he_ltf_and_zero_point_eighty_microseconds_gi(&self) -> (b: bool)
        ensures
            b == self.spec_he_su_ppdu_and_he_mu_ppdu_with_4x_he_ltf_and_zero_point_eighty_microseconds_gi(),
    {
        read_bit(self.bytes.as_slice(), 58)
    }

    /// The "Max Nc" subfield (bits 59-61).
    pub open spec fn spec_max_nc(&self) -> u8 {
        bits_value(self.raw(), 59, 3) as u8
    }

    /// The "Max Nc" subfield (bits 59-61).
    pub fn max_nc(&self) -> (v: u8)
        ensures
            v == self.spec_max_nc(),
            v == bits_value(self.raw(), 59, 3),
    {
        read_u8_bits(self.bytes.as_slice(), 59, 3)
    }

    /// The "STBC Tx > 80 MHz" subfield (bit 62).
    pub open spec fn spec_stbc_tx_greater_than_eighty_mhz(&self) -> bool {
        bit_set(self.raw(), 62)
    }

    /// The "STBC Tx > 80 MHz" subfield (bit 62).
    pub fn stbc_tx_greater_than_eighty_mhz(&self) -> (b: bool)
        ensures
            b == self.spec_stbc_tx_greater_than_eighty_mhz(),
    {
        read_bit(self.bytes.as_slice(), 62)
    }

    /// The "STBC Rx > 80 MHz" subfield (bit 63).
    pub open spec fn spec_stbc_rx_greater_than_eighty_mhz(&self) -> bool {
        bit_set(self.raw(), 63)
    }

    /// The "STBC Rx > 80 MHz" subfield (bit 63).
    pub fn stbc_rx_greater_than_eighty_mhz(&self) -> (b: bool)
        ensures
            b == self.spec_stbc_rx_greater_than_eighty_mhz(),
    {
        read_bit(self.bytes.as_slice(), 63)
    }

    /// The "HE ER SU PPDU with 4x HE-LTF and 0.8 µs GI" subfield (bit 64).
    pub open spec fn spec_he_er_su_ppdu_with_4x_he_ltf_and_zero_point_eight_microseconds_gi(&self) -> bool {
        bit_set(self.raw(), 64)
    }

    /// The "HE ER SU PPDU with 4x HE-LTF and 0.8 µs GI" subfield (bit 64).
    pub fn he_er_su_ppdu_with_4x_he_ltf_and_zero_point_eight_microseconds_gi(&self) -> (b: bool)
        ensures
            b == self.spec_he_er_su_ppdu_with_4x_he_ltf_and_zero_point_eight_microseconds_gi(),
    {
        read_bit(self.bytes.as_slice(), 64)
    }

    /// The "20 MHz in 40 MHz HE PPDU in 2.4 GHz Band" subfield (bit 65).
    pub open spec fn spec_twenty_mhz_in_forty_mhz_he_ppdu_in_two_point_four_ghz_band(&self) -> bool {
        bit_set(self.raw(), 65)
    }

    /// The "20 MHz in 40 MHz HE PPDU in 2.4 GHz Band" subfield (bit 65).
    pub fn twenty_mhz_in_forty_mhz_he_ppdu_in_two_point_four_ghz_band(&self) -> (b: bool)
        ensures
            b == self.spec_twenty_mhz_in_forty_mhz_he_ppdu_in_two_point_four_ghz_band(),
    {
        read_bit(self.bytes.as_slice(), 65)
    }

    /// The "20 MHz in 160 MHz HE PPDU" subfield (bit 66).
    pub open spec fn spec_twenty_mhz_in_one_hundred_sixty_mhz_he_ppdu(&self) -> bool {
        bit_set(self.raw(), 66)
    }

    /// The "20 MHz in 160 MHz HE PPDU" subfield (bit 66).
    pub fn twenty_mhz_in_one_hundred_sixty_mhz_he_ppdu(&self) -> (b: bool)
        ensures
            b == self.spec_twenty_mhz_in_one_hundred_sixty_mhz_he_ppdu(),
    {
        read_bit(self.bytes.as_slice(), 66)
    }

    /// The "80 MHz in 160 MHz HE PPDU" subfield (bit 67).
    pub open spec fn spec_eighty_mhz_in_one_hundred_sixty_mhz_he_ppdu(&self) -> bool {
        bit_set(self.raw(), 67)
    }

    /// The "80 MHz in 160 MHz HE PPDU" subfield (bit 67).
    pub fn eighty_mhz_in_one_hundred_sixty_mhz_he_ppdu(&self) -> (b: bool)
        ensures
            b == self.spec_eighty_mhz_in_one_hundred_sixty_mhz_he_ppdu(),
    {
        read_bit(self.bytes.as_slice(), 67)
    }

    /// The "HE ER SU PPDU with 1x HE-LTF and 0.8 µs GI" subfield (bit 68).
    pub open spec fn spec_he_er_su_ppdu_with_1x_he_ltf_and_zero_point_eighty_microseconds_gi(&self) -> bool {
        bit_set(self.raw(), 68)
    }

    /// The "HE ER SU PPDU with 1x HE-LTF and 0.8 µs GI" subfield (bit 68).
    pub fn he_er_su_ppdu_with_1x_he_ltf_and_zero_point_eighty_microseconds_gi(&self) -> (b: bool)
        ensures
            b == self.spec_he_er_su_ppdu_with_1x_he_ltf_and_zero_point_eighty_microseconds_gi(),
    {
        read_bit(self.bytes.as_slice(), 68)
    }

    /// The "Midamble Tx/Rx 2x and 1x HE-LTF" subfield (bit 69).
    pub open spec fn spec_midamble_tx_rx_2x_and_1x_he_ltf(&self) -> bool {
        bit_set(self.raw(), 69)
    }

    /// The "Midamble Tx/Rx 2x and 1x HE-LTF" subfield (bit 69).
    pub fn midamble_tx_rx_2x_and_1x_he_ltf(&self) -> (b: bool)
        ensures
            b == self.spec_midamble_tx_rx_2x_and_1x_he_ltf(),
    {
        read_bit(self.bytes.as_slice(), 69)
    }

    /// The "DCM Max RU" subfield (bits 70-71).
    pub open spec fn spec_dcm_max_ru(&self) -> u8 {
        bits_value(self.raw(), 70, 2) as u8
    }

    /// The "DCM Max RU" subfield (bits 70-71).
    pub fn dcm_max_ru(&self) -> (v: u8)
        ensures
            v == self.spec_dcm_max_ru(),
            v == bits_value(self.raw(), 70, 2),
    {
        read_u8_bits(self.bytes.as_slice(), 70, 2)
    }

    /// The "Longer Than 16 HE-SIG-B OFDM Symbols Support" subfield (bit 72).
    pub open spec fn spec_longer_than_sixteen_he_sig_b_ofdm_symbols_present(&self) -> bool {
        bit_set(self.raw(), 72)
    }

    /// The "Longer Than 16 HE-SIG-B OFDM Symbols Support" subfield (bit 72).
    pub fn longer_than_sixteen_he_sig_b_ofdm_symbols_present(&self) -> (b: bool)
        ensures
            b == self.spec_longer_than_sixteen_he_sig_b_ofdm_symbols_present(),
    {
        read_bit(self.bytes.as_slice(), 72)
    }

    /// The "Non-Triggered CQI Feedback" subfield (bit 73).
    pub open spec fn spec_non_triggered_cqi_feedback(&self) -> bool {
        bit_set(self.raw(), 73)
    }

    /// The "Non-Triggered CQI Feedback" subfield (bit 73).
    pub fn non_triggered_cqi_feedback(&self) -> (b: bool)
        ensures
            b == self.spec_non_triggered_cqi_feedback(),
    {
        read_bit(self.bytes.as_slice(), 73)
    }

    /// The "Tx 1024-QAM < 242-tone RU Support" subfield (bit 74).
    pub open spec fn spec_tx_one_thousand_twenty_four_qam_less_than_two_hundred_forty_two_tone_ru_support(&self) -> bool {
        bit_set(self.raw(), 74)
    }

    /// The "Tx 1024-QAM < 242-tone RU Support" subfield (bit 74).
    pub fn tx_one_thousand_twenty_four_qam_less_than_two_hundred_forty_two_tone_ru_support(&self) -> (b: bool)
        ensures
            b == self.spec_tx_one_thousand_twenty_four_qam_less_than_two_hundred_forty_two_tone_ru_support(),
    {
        read_bit(self.bytes.as_slice(), 74)
    }

    /// The "Rx 1024-QAM < 242-tone RU Support" subfield (bit 75).
    pub open spec fn spec_rx_one_thousand_twenty_four_qam_less_than_two_hundred_forty_two_tone_ru_support(&self) -> bool {
        bit_set(self.raw(), 75)
    }

    /// The "Rx 1024-QAM < 242-tone RU Support" subfield (bit 75).
    pub fn rx_one_thousand_twenty_four_qam_less_than_two_hundred_forty_two_tone_ru_support(&self) -> (b: bool)
        ensures
            b == self.spec_rx_one_thousand_twenty_four_qam_less_than_two_hundred_forty_two_tone_ru_support(),
    {
        read_bit(self.bytes.as_slice(), 75)
    }

    /// The "Rx Full BW SU Using HE MU PPDU with Compressed HE-SIG-B" subfield (bit 76).
    pub open spec fn spec_rx_full_bw_su_using_he_mu_ppdu_with_compressed_he_sig_b(&self) -> bool {
        bit_set(self.raw(), 76)
    }

    /// The "Rx Full BW SU Using HE MU PPDU with Compressed HE-SIG-B" subfield (bit 76).
    pub fn rx_full_bw_su_using_he_mu_ppdu_with_compressed_he_sig_b(&self) -> (b: bool)
        ensures
            b == self.spec_rx_full_bw_su_using_he_mu_ppdu_with_compressed_he_sig_b(),
    {
        read_bit(self.bytes.as_slice(), 76)
    }

    /// The "Rx Full BW SU Using HE MU PPDU with Non-Compressed HE-SIG-B" subfield (bit 77).
    pub open spec fn spec_rx_full_bw_su_using_he_mu_ppdu_with_non_compressed_he_sig_b(&self) -> bool {
        bit_set(self.raw(), 77)
    }

    /// The "Rx Full BW SU Using HE MU PPDU with Non-Compressed HE-SIG-B" subfield (bit 77).
    pub fn rx_full_bw_su_using_he_mu_ppdu_with_non_compressed_he_sig_b(&self) -> (b: bool)
        ensures
            b == self.spec_rx_full_bw_su_using_he_mu_ppdu_with_non_compressed_he_sig_b(),
    {
        read_bit(self.bytes.as_slice(), 77)
    }

    /// The "Nominal Packet Padding" subfield (bits 78-79).
    pub open spec fn spec_nominal_packet_padding(&self) -> u8 {
        bits_value(self.raw(), 78, 2) as u8
    }

    /// The "Nominal Packet Padding" subfield (bits 78-79).
    pub fn nominal_packet_padding(&self) -> (v: u8)
        ensures
            v == self.spec_nominal_packet_padding(),
            v == bits_value(self.raw(), 78, 2),
    {
        read_u8_bits(self.bytes.as_slice(), 78, 2)
    }

    /// The "HE MU PPDU With More Than One RU Rx Max N_HE-LTF" subfield (bit 80).
    pub open spec fn spec_he_mu_ppdu_with_more_than_one_ru_rx_max_n_he_ltf(&self) -> bool {
        bit_set(self.raw(), 80)
    }

    /// The "HE MU PPDU With More Than One RU Rx Max N_HE-LTF" subfield (bit 80).
    pub fn he_mu_ppdu_with_more_than_one_ru_rx_max_n_he_ltf(&self) -> (b: bool)
        ensures
            b == self.spec_he_mu_ppdu_with_more_than_one_ru_rx_max_n_he_ltf(),
    {
        read_bit(self.bytes.as_slice(), 80)
    }

    /// Whether `f` is the displayable field of this value: one subfield per bit field.
    pub open spec fn field_shows(&self, f: Field) -> bool {
        &&& f.title@ == "HE PHY Capabilities Information"@
        &&& f.value@ == ""@
        &&& f.bytes matches Some(b) && b@ == self.raw()
        &&& f.byte is None
        &&& f.bits is None
        &&& f.units is None
        &&& f.subfields@.len() == 58
        &&& reserved_field_is(f.subfields@[0], self.raw(), 0, 1)
        &&& bit_field_is(f.subfields@[1], "Supported Channel Width Set"@, decimal(self.spec_supported_channel_width_set() as nat), None, self.raw(), 1, 7)
        &&& bit_field_is(f.subfields@[2], "Punctured Preamble RX"@, decimal(self.spec_punctured_preamble_rx() as nat), None, self.raw(), 8, 4)
        &&& bit_field_is(f.subfields@[3], "Device Class"@, bool_text(self.spec_device_class()), None, self.raw(), 12, 1)
        &&& bit_field_is(f.subfields@[4], "LDPC Coding in Payload"@, bool_text(self.spec_ldpc_coding_in_payload()), None, self.raw(), 13, 1)
        &&& bit_field_is(f.subfields@[5], "HE SU PPDU with 1x HE-LTF and 0.8 µs GI"@, bool_text(self.spec_he_ssu_ppdu_with_1x_he_ltf_and_zero_point_eight_microseconds_gi()), None, self.raw(), 14, 1)
        &&& bit_field_is(f.subfields@[6], "Midamble Tx/Rx Max NSTS"@, decimal(self.spec_midamble_tx_rx_max_nsts() as nat), None, self.raw(), 15, 2)
        &&& bit_field_is(f.subfields@[7], "NDP with 4x HE-LTF and 3.2µs GI"@, bool_text(self.spec_ndp_with_4x_he_ltf_and_three_point_two_microseconds_gi()), None, self.raw(), 17, 1)
        &&& bit_field_is(f.subfields@[8], "STBC Tx ≤ 80 MHz"@, bool_text(self.spec_stbc_tx_less_than_or_equal_to_eighty_mhz()), None, self.raw(), 18, 1)
        &&& bit_field_is(f.subfields@[9], "STBC Rx ≤ 80 MHz"@, bool_text(self.spec_stbc_rx_less_than_or_equal_to_eighty_mhz()), None, self.raw(), 19, 1)
        &&& bit_field_is(f.subfields@[10], "Doppler Tx"@, bool_text(self.spec_doppler_tx()), None, self.raw(), 20, 1)
        &&& bit_field_is(f.subfields@[11], "Doppler Rx"@, bool_text(self.spec_doppler_rx()), None, self.raw(), 21, 1)
        &&& bit_field_is(f.subfields@[12], "Full Bandwidth UL MU-MIMO"@, bool_text(self.spec_full_bandwidth_ul_mu_mimo()), None, self.raw(), 22, 1)
        &&& bit_field_is(f.subfields@[13], "Partial Bandwidth UL MU-MIMO"@, bool_text(self.spec_partial_bandwidth_ul_mu_mimo()), None, self.raw(), 23, 1)
        &&& bit_field_is(f.subfields@[14], "DCM Max Constellation Tx"@, decimal(self.spec_dcm_max_constellation_tx() as nat), None, self.raw(), 24, 2)
        &&& bit_field_is(f.subfields@[15], "DCM Max NSS Tx"@, bool_text(self.spec_dcm_max_nss_tx()), None, self.raw(), 26, 1)
        &&& bit_field_is(f.subfields@[16], "DCM Max Constellation Rx"@, decimal(self.spec_dcm_max_constellation_rx() as nat), None, self.raw(), 27, 2)
        &&& bit_field_is(f.subfields@[17], "DCM Max NSS Rx"@, bool_text(self.spec_dcm_max_nss_rx()), None, self.raw(), 29, 1)
        &&& bit_field_is(f.subfields@[18], "Rx Partial BW SU in 20 MHz HE MU PPDU"@, bool_text(self.spec_rx_partial_bw_su_in_twenty_mhz_he_mu_ppdu()), None, self.raw(), 30, 1)
        &&& bit_field_is(f.subfields@[19], "SU Beamformer"@, bool_text(self.spec_su_beamformer()), None, self.raw(), 31, 1)
        &&& bit_field_is(f.subfields@[20], "SU Beamformee"@, bool_text(self.spec_su_beamformee()), None, self.raw(), 32, 1)
        &&& bit_field_is(f.subfields@[21], "MU Beamformer"@, bool_text(self.spec_mu_beamformer()), None, self.raw(), 33, 1)
        &&& bit_field_is(f.subfields@[22], "Beamformee STS ≤ 80 MHz"@, decimal(self.spec_beamformee_sts_less_than_or_equal_to_eighty_mhz() as nat), None, self.raw(), 34, 3)
        &&& bit_field_is(f.subfields@[23], "Beamformee STS > 80 MHz"@, decimal(self.spec_beamformee_sts_greater_than_eighty_mhz() as nat), None, self.raw(), 37, 3)
        &&& bit_field_is(f.subfields@[24], "Number of Sounding Dimensions ≤ 80 MHz"@, decimal(self.spec_number_of_sounding_dimensions_less_than_or_equal_to_eighty_mhz() as nat), None, self.raw(), 40, 3)
        &&& bit_field_is(f.subfields@[25], "Number of Sounding Dimensions > 80 MHz"@, decimal(self.spec_number_of_sounding_dimensions_greater_than_eighty_mhz() as nat), None, self.raw(), 43, 3)
        &&& bit_field_is(f.subfields@[26], "Ng = 16 SU Feedback"@, bool_text(self.spec_ng_equals_sixteen_su_feedback()), None, self.raw(), 46, 1)
        &&& bit_field_is(f.subfields@[27], "Ng = 16 MU Feedback"@, bool_text(self.spec_ng_equals_sixteen_mu_feedback()), None, self.raw(), 47, 1)
        &&& bit_field_is(f.subfields@[28], "Codebook Size (ϕ, ψ) = {4, 2} SU Feedback"@, bool_text(self.spec_codebook_size_su_feedback()), None, self.raw(), 48, 1)
        &&& bit_field_is(f.subfields@[29], "Codebook Size (ϕ, ψ) = {7, 5} MU Feedback"@, bool_text(self.spec_codebook_size_mu_feedback()), None, self.raw(), 49, 1)
        &&& bit_field_is(f.subfields@[30], "Triggered SU Beamforming Feedback"@, bool_text(self.spec_triggered_su_beamforming_feedback()), None, self.raw(), 50, 1)
        &&& bit_field_is(f.subfields@[31], "Triggered MU Beamforming Partial BW Feedback"@, bool_text(self.spec_triggered_mu_beamforming_partial_bw_feedback()), None, self.raw(), 51, 1)
        &&& bit_field_is(f.subfields@[32], "Triggered CQI Feedback"@, bool_text(self.spec_triggered_cqi_feedback()), None, self.raw(), 52, 1)
        &&& bit_field_is(f.subfields@[33], "Partial Bandwidth Extended Range"@, bool_text(self.spec_partial_bandwidth_extended_range()), None, self.raw(), 53, 1)
        &&& bit_field_is(f.subfields@[34], "Partial Bandwidth DL MU-MIMO"@, bool_text(self.spec_partial_bandwidth_dl_mu_mimo()), None, self.raw(), 54, 1)
        &&& bit_field_is(f.subfields@[35], "PPE Thresholds Present"@, bool_text(self.spec_ppe_thresholds_present()), None, self.raw(), 55, 1)
        &&& bit_field_is(f.subfields@[36], "PSR-based SR Support"@, bool_text(self.spec_psr_based_sr_support()), None, self.raw(), 56, 1)
        &&& bit_field_is(f.subfields@[37], "Power Boost Factor Support"@, bool_text(self.spec_power_boost_factor_support()), None, self.raw(), 57, 1)
        &&& bit_field_is(f.subfields@[38], "HE SU/MU PPDU with 4x HE-LTF and 0.8 µs GI"@, bool_text(self.spec_he_su_ppdu_and_he_mu_ppdu_with_4x_he_ltf_and_zero_point_eighty_microseconds_gi()), None, self.raw(), 58, 1)
        &&& bit_field_is(f.subfields@[39], "Max Nc"@, decimal(self.spec_max_nc() as nat), None, self.raw(), 59, 3)
        &&& bit_field_is(f.subfields@[40], "STBC Tx > 80 MHz"@, bool_text(self.spec_stbc_tx_greater_than_eighty_mhz()), None, self.raw(), 62, 1)
        &&& bit_field_is(f.subfields@[41], "STBC Rx > 80 MHz"@, bool_text(self.spec_stbc_rx_greater_than_eighty_mhz()), None, self.raw(), 63, 1)
        &&& bit_field_is(f.subfields@[42], "HE ER SU PPDU with 4x HE-LTF and 0.8 µs GI"@, bool_text(self.spec_he_er_su_ppdu_with_4x_he_ltf_and_zero_point_eight_microseconds_gi()), None, self.raw(), 64, 1)
        &&& bit_field_is(f.subfields@[43], "20 MHz in 40 MHz HE PPDU in 2.4 GHz Band"@, bool_text(self.spec_twenty_mhz_in_forty_mhz_he_ppdu_in_two_point_four_ghz_band()), None, self.raw(), 65, 1)
        &&& bit_field_is(f.subfields@[44], "20 MHz in 160 MHz HE PPDU"@, bool_text(self.spec_twenty_mhz_in_one_hundred_sixty_mhz_he_ppdu()), None, self.raw(), 66, 1)
        &&& bit_field_is(f.subfields@[45], "80 MHz in 160 MHz HE PPDU"@, bool_text(self.spec_eighty_mhz_in_one_hundred_sixty_mhz_he_ppdu()), None, self.raw(), 67, 1)
        &&& bit_field_is(f.subfields@[46], "HE ER SU PPDU with 1x HE-LTF and 0.8 µs GI"@, bool_text(self.spec_he_er_su_ppdu_with_1x_he_ltf_and_zero_point_eighty_microseconds_gi()), None, self.raw(), 68, 1)
        &&& bit_field_is(f.subfields@[47], "Midamble Tx/Rx 2x and 1x HE-LTF"@, bool_text(self.spec_midamble_tx_rx_2x_and_1x_he_ltf()), None, self.raw(), 69, 1)
        &&& bit_field_is(f.subfields@[48], "DCM Max RU"@, decimal(self.spec_dcm_max_ru() as nat), None, self.raw(), 70, 2)
        &&& bit_field_is(f.subfields@[49], "Longer Than 16 HE-SIG-B OFDM Symbols Support"@, bool_text(self.spec_longer_than_sixteen_he_sig_b_ofdm_symbols_present()), None, self.raw(), 72, 1)
        &&& bit_field_is(f.subfields@[50], "Non-Triggered CQI Feedback"@, bool_text(self.spec_non_triggered_cqi_feedback()), None, self.raw(), 73, 1)
        &&& bit_field_is(f.subfields@[51], "Tx 1024-QAM < 242-tone RU Support"@, bool_text(self.spec_tx_one_thousand_twenty_four_qam_less_than_two_hundred_forty_two_tone_ru_support()), None, self.raw(), 74, 1)
        &&& bit_field_is(f.subfields@[52], "Rx 1024-QAM < 242-tone RU Support"@, bool_text(self.spec_rx_one_thousand_twenty_four_qam_less_than_two_hundred_forty_two_tone_ru_support()), None, self.raw(), 75, 1)
        &&& bit_field_is(f.subfields@[53], "Rx Full BW SU Using HE MU PPDU with Compressed HE-SIG-B"@, bool_text(self.spec_rx_full_bw_su_using_he_mu_ppdu_with_compressed_he_sig_b()), None, self.raw(), 76, 1)
        &&& bit_field_is(f.subfields@[54], "Rx Full BW SU Using HE MU PPDU with Non-Compressed HE-SIG-B"@, bool_text(self.spec_rx_full_bw_su_using_he_mu_ppdu_with_non_compressed_he_sig_b()), None, self.raw(), 77, 1)
        &&& bit_field_is(f.subfields@[55], "Nominal Packet Padding"@, decimal(self.spec_nominal_packet_padding() as nat), None, self.raw(), 78, 2)
        &&& bit_field_is(f.subfields@[56], "HE MU PPDU With More Than One RU Rx Max N_HE-LTF"@, bool_text(self.spec_he_mu_ppdu_with_more_than_one_ru_rx_max_n_he_ltf()), None, self.raw(), 80, 1)
        &&& reserved_field_is(f.subfields@[57], self.raw(), 81, 7)
    }

    /// The value as a displayable field with one subfield per bit field.
    #[verifier::rlimit(40)]
    pub fn to_field(&self) -> (f: Field)
        ensures
            self.field_shows(f),
    {
        let bytes = self.bytes.as_slice();
        let mut subfields: Vec<Field> = Vec::new();
        self.push_subfields_0(bytes, &mut subfields);
        self.push_subfields_1(bytes, &mut subfields);
        self.push_subfields_2(bytes, &mut subfields);
        self.push_subfields_3(bytes, &mut subfields);
        self.push_subfields_4(bytes, &mut subfields);
        Field::new("HE PHY Capabilities Information", "").with_bytes(self.to_bytes()).with_subfields(subfields)
    }

    /// Appends the subfields 0 to 11 of the displayable field.
    fn push_subfields_0(&self, bytes: &[u8], subfields: &mut Vec<Field>)
        requires
            bytes@ == self.raw(),
            old(subfields)@.len() == 0,
        ensures
            final(subfields)@.len() == 12,
            forall|j: int| 0 <= j < 0 ==> final(subfields)@[j] == old(subfields)@[j],
            reserved_field_is(final(subfields)@[0], self.raw(), 0, 1),
            bit_field_is(final(subfields)@[1], "Supported Channel Width Set"@, decimal(self.spec_supported_channel_width_set() as nat), None, self.raw(), 1, 7),
            bit_field_is(final(subfields)@[2], "Punctured Preamble RX"@, decimal(self.spec_punctured_preamble_rx() as nat), None, self.raw(), 8, 4),
            bit_field_is(final(subfields)@[3], "Device Class"@, bool_text(self.spec_device_class()), None, self.raw(), 12, 1),
            bit_field_is(final(subfields)@[4], "LDPC Coding in Payload"@, bool_text(self.spec_ldpc_coding_in_payload()), None, self.raw(), 13, 1),
            bit_field_is(final(subfields)@[5], "HE SU PPDU with 1x HE-LTF and 0.8 µs GI"@, bool_text(self.spec_he_ssu_ppdu_with_1x_he_ltf_and_zero_point_eight_microseconds_gi()), None, self.raw(), 14, 1),
            bit_field_is(final(subfields)@[6], "Midamble Tx/Rx Max NSTS"@, decimal(self.spec_midamble_tx_rx_max_nsts() as nat), None, self.raw(), 15, 2),
            bit_field_is(final(subfields)@[7], "NDP with 4x HE-LTF and 3.2µs GI"@, bool_text(self.spec_ndp_with_4x_he_ltf_and_three_point_two_microseconds_gi()), None, self.raw(), 17, 1),
            bit_field_is(final(subfields)@[8], "STBC Tx ≤ 80 MHz"@, bool_text(self.spec_stbc_tx_less_than_or_equal_to_eighty_mhz()), None, self.raw(), 18, 1),
            bit_field_is(final(subfields)@[9], "STBC Rx ≤ 80 MHz"@, bool_text(self.spec_stbc_rx_less_than_or_equal_to_eighty_mhz()), None, self.raw(), 19, 1),
            bit_field_is(final(subfields)@[10], "Doppler Tx"@, bool_text(self.spec_doppler_tx()), None, self.raw(), 20, 1),
            bit_field_is(final(subfields)@[11], "Doppler Rx"@, bool_text(self.spec_doppler_rx()), None, self.raw(), 21, 1),
    {
        subfields.push(reserved_bits(bytes, 0, 1));
        subfields.push(bit_field("Supported Channel Width Set", u64_text(self.supported_channel_width_set() as u64), bytes, 1, 7));
        subfields.push(bit_field("Punctured Preamble RX", u64_text(self.punctured_preamble_rx() as u64), bytes, 8, 4));
        subfields.push(bit_field("Device Class", bool_string(self.device_class()), bytes, 12, 1));
        subfields.push(bit_field("LDPC Coding in Payload", bool_string(self.ldpc_coding_in_payload()), bytes, 13, 1));
        subfields.push(bit_field("HE SU PPDU with 1x HE-LTF and 0.8 µs GI", bool_string(self.he_ssu_ppdu_with_1x_he_ltf_and_zero_point_eight_microseconds_gi()), bytes, 14, 1));
        subfields.push(bit_field("Midamble Tx/Rx Max NSTS", u64_text(self.midamble_tx_rx_max_nsts() as u64), bytes, 15, 2));
        subfields.push(bit_field("NDP with 4x HE-LTF and 3.2µs GI", bool_string(self.ndp_with_4x_he_ltf_and_three_point_two_microseconds_gi()), bytes, 17, 1));
        subfields.push(bit_field("STBC Tx ≤ 80 MHz", bool_string(self.stbc_tx_less_than_or_equal_to_eighty_mhz()), bytes, 18, 1));
        subfields.push(bit_field("STBC Rx ≤ 80 MHz", bool_string(self.stbc_rx_less_than_or_equal_to_eighty_mhz()), bytes, 19, 1));
        subfields.push(bit_field("Doppler Tx", bool_string(self.doppler_tx()), bytes, 20, 1));
        subfields.push(bit_field("Doppler Rx", bool_string(self.doppler_rx()), bytes, 21, 1));
    }

    /// Appends the subfields 12 to 23 of the displayable field.
    fn push_subfields_1(&self, bytes: &[u8], subfields: &mut Vec<Field>)
        requires
            bytes@ == self.raw(),
            old(subfields)@.len() == 12,
        ensures
            final(subfields)@.len() == 24,
            forall|j: int| 0 <= j < 12 ==> final(subfields)@[j] == old(subfields)@[j],
            bit_field_is(final(subfields)@[12], "Full Bandwidth UL MU-MIMO"@, bool_text(self.spec_full_bandwidth_ul_mu_mimo()), None, self.raw(), 22, 1),
            bit_field_is(final(subfields)@[13], "Partial Bandwidth UL MU-MIMO"@, bool_text(self.spec_partial_bandwidth_ul_mu_mimo()), None, self.raw(), 23, 1),
            bit_field_is(final(subfields)@[14], "DCM Max Constellation Tx"@, decimal(self.spec_dcm_max_constellation_tx() as nat), None, self.raw(), 24, 2),
            bit_field_is(final(subfields)@[15], "DCM Max NSS Tx"@, bool_text(self.spec_dcm_max_nss_tx()), None, self.raw(), 26, 1),
            bit_field_is(final(subfields)@[16], "DCM Max Constellation Rx"@, decimal(self.spec_dcm_max_constellation_rx() as nat), None, self.raw(), 27, 2),
            bit_field_is(final(subfields)@[17], "DCM Max NSS Rx"@, bool_text(self.spec_dcm_max_nss_rx()), None, self.raw(), 29, 1),
            bit_field_is(final(subfields)@[18], "Rx Partial BW SU in 20 MHz HE MU PPDU"@, bool_text(self.spec_rx_partial_bw_su_in_twenty_mhz_he_mu_ppdu()), None, self.raw(), 30, 1),
            bit_field_is(final(subfields)@[19], "SU Beamformer"@, bool_text(self.spec_su_beamformer()), None, self.raw(), 31, 1),
            bit_field_is(final(subfields)@[20], "SU Beamformee"@, bool_text(self.spec_su_beamformee()), None, self.raw(), 32, 1),
            bit_field_is(final(subfields)@[21], "MU Beamformer"@, bool_text(self.spec_mu_beamformer()), None, self.raw(), 33, 1),
            bit_field_is(final(subfields)@[22], "Beamformee STS ≤ 80 MHz"@, decimal(self.spec_beamformee_sts_less_than_or_equal_to_eighty_mhz() as nat), None, self.raw(), 34, 3),
            bit_field_is(final(subfields)@[23], "Beamformee STS > 80 MHz"@, decimal(self.spec_beamformee_sts_greater_than_eighty_mhz() as nat), None, self.raw(), 37, 3),
    {
        subfields.push(bit_field("Full Bandwidth UL MU-MIMO", bool_string(self.full_bandwidth_ul_mu_mimo()), bytes, 22, 1));
        subfields.push(bit_field("Partial Bandwidth UL MU-MIMO", bool_string(self.partial_bandwidth_ul_mu_mimo()), bytes, 23, 1));
        subfields.push(bit_field("DCM Max Constellation Tx", u64_text(self.dcm_max_constellation_tx() as u64), bytes, 24, 2));
        subfields.push(bit_field("DCM Max NSS Tx", bool_string(self.dcm_max_nss_tx()), bytes, 26, 1));
        subfields.push(bit_field("DCM Max Constellation Rx", u64_text(self.dcm_max_constellation_rx() as u64), bytes, 27, 2));
        subfields.push(bit_field("DCM Max NSS Rx", bool_string(self.dcm_max_nss_rx()), bytes, 29, 1));
        subfields.push(bit_field("Rx Partial BW SU in 20 MHz HE MU PPDU", bool_string(self.rx_partial_bw_su_in_twenty_mhz_he_mu_ppdu()), bytes, 30, 1));
        subfields.push(bit_field("SU Beamformer", bool_string(self.su_beamformer()), bytes, 31, 1));
        subfields.push(bit_field("SU Beamformee", bool_string(self.su_beamformee()), bytes, 32, 1));
        subfields.push(bit_field("MU Beamformer", bool_string(self.mu_beamformer()), bytes, 33, 1));
        subfields.push(bit_field("Beamformee STS ≤ 80 MHz", u64_text(self.beamformee_sts_less_than_or_equal_to_eighty_mhz() as u64), bytes, 34, 3));
        subfields.push(bit_field("Beamformee STS > 80 MHz", u64_text(self.beamformee_sts_greater_than_eighty_mhz() as u64), bytes, 37, 3));
    }

    /// Appends the subfields 24 to 35 of the displayable field.
    fn push_subfields_2(&self, bytes: &[u8], subfields: &mut Vec<Field>)
        requires
            bytes@ == self.raw(),
            old(subfields)@.len() == 24,
        ensures
            final(subfields)@.len() == 36,
            forall|j: int| 0 <= j < 24 ==> final(subfields)@[j] == old(subfields)@[j],
            bit_field_is(final(subfields)@[24], "Number of Sounding Dimensions ≤ 80 MHz"@, decimal(self.spec_number_of_sounding_dimensions_less_than_or_equal_to_eighty_mhz() as nat), None, self.raw(), 40, 3),
            bit_field_is(final(subfields)@[25], "Number of Sounding Dimensions > 80 MHz"@, decimal(self.spec_number_of_sounding_dimensions_greater_than_eighty_mhz() as nat), None, self.raw(), 43, 3),
            bit_field_is(final(subfields)@[26], "Ng = 16 SU Feedback"@, bool_text(self.spec_ng_equals_sixteen_su_feedback()), None, self.raw(), 46, 1),
            bit_field_is(final(subfields)@[27], "Ng = 16 MU Feedback"@, bool_text(self.spec_ng_equals_sixteen_mu_feedback()), None, self.raw(), 47, 1),
            bit_field_is(final(subfields)@[28], "Codebook Size (ϕ, ψ) = {4, 2} SU Feedback"@, bool_text(self.spec_codebook_size_su_feedback()), None, self.raw(), 48, 1),
            bit_field_is(final(subfields)@[29], "Codebook Size (ϕ, ψ) = {7, 5} MU Feedback"@, bool_text(self.spec_codebook_size_mu_feedback()), None, self.raw(), 49, 1),
            bit_field_is(final(subfields)@[30], "Triggered SU Beamforming Feedback"@, bool_text(self.spec_triggered_su_beamforming_feedback()), None, self.raw(), 50, 1),
            bit_field_is(final(subfields)@[31], "Triggered MU Beamforming Partial BW Feedback"@, bool_text(self.spec_triggered_mu_beamforming_partial_bw_feedback()), None, self.raw(), 51, 1),
            bit_field_is(final(subfields)@[32], "Triggered CQI Feedback"@, bool_text(self.spec_triggered_cqi_feedback()), None, self.raw(), 52, 1),
            bit_field_is(final(subfields)@[33], "Partial Bandwidth Extended Range"@, bool_text(self.spec_partial_bandwidth_extended_range()), None, self.raw(), 53, 1),
            bit_field_is(final(subfields)@[34], "Partial Bandwidth DL MU-MIMO"@, bool_text(self.spec_partial_bandwidth_dl_mu_mimo()), None, self.raw(), 54, 1),
            bit_field_is(final(subfields)@[35], "PPE Thresholds Present"@, bool_text(self.spec_ppe_thresholds_present()), None, self.raw(), 55, 1),
    {
        subfields.push(bit_field("Number of Sounding Dimensions ≤ 80 MHz", u64_text(self.number_of_sounding_dimensions_less_than_or_equal_to_eighty_mhz() as u64), bytes, 40, 3));
        subfields.push(bit_field("Number of Sounding Dimensions > 80 MHz", u64_text(self.number_of_sounding_dimensions_greater_than_eighty_mhz() as u64), bytes, 43, 3));
        subfields.push(bit_field("Ng = 16 SU Feedback", bool_string(self.ng_equals_sixteen_su_feedback()), bytes, 46, 1));
        subfields.push(bit_field("Ng = 16 MU Feedback", bool_string(self.ng_equals_sixteen_mu_feedback()), bytes, 47, 1));
        subfields.push(bit_field("Codebook Size (ϕ, ψ) = {4, 2} SU Feedback", bool_string(self.codebook_size_su_feedback()), bytes, 48, 1));
        subfields.push(bit_field("Codebook Size (ϕ, ψ) = {7, 5} MU Feedback", bool_string(self.codebook_size_mu_feedback()), bytes, 49, 1));
        subfields.push(bit_field("Triggered SU Beamforming Feedback", bool_string(self.triggered_su_beamforming_feedback()), bytes, 50, 1));
        subfields.push(bit_field("Triggered MU Beamforming Partial BW Feedback", bool_string(self.triggered_mu_beamforming_partial_bw_feedback()), bytes, 51, 1));
        subfields.push(bit_field("Triggered CQI Feedback", bool_string(self.triggered_cqi_feedback()), bytes, 52, 1));
        subfields.push(bit_field("Partial Bandwidth Extended Range", bool_string(self.partial_bandwidth_extended_range()), bytes, 53, 1));
        subfields.push(bit_field("Partial Bandwidth DL MU-MIMO", bool_string(self.partial_bandwidth_dl_mu_mimo()), bytes, 54, 1));
        subfields.push(bit_field("PPE Thresholds Present", bool_string(self.ppe_thresholds_present()), bytes, 55, 1));
    }

    /// Appends the subfields 36 to 47 of the displayable field.
    fn push_subfields_3(&self, bytes: &[u8], subfields: &mut Vec<Field>)
        requires
            bytes@ == self.raw(),
            old(subfields)@.len() == 36,
        ensures
            final(subfields)@.len() == 48,
            forall|j: int| 0 <= j < 36 ==> final(subfields)@[j] == old(subfields)@[j],
            bit_field_is(final(subfields)@[36], "PSR-based SR Support"@, bool_text(self.spec_psr_based_sr_support()), None, self.raw(), 56, 1),
            bit_field_is(final(subfields)@[37], "Power Boost Factor Support"@, bool_text(self.spec_power_boost_factor_support()), None, self.raw(), 57, 1),
            bit_field_is(final(subfields)@[38], "HE SU/MU PPDU with 4x HE-LTF and 0.8 µs GI"@, bool_text(self.spec_he_su_ppdu_and_he_mu_ppdu_with_4x_he_ltf_and_zero_point_eighty_microseconds_gi()), None, self.raw(), 58, 1),
            bit_field_is(final(subfields)@[39], "Max Nc"@, decimal(self.spec_max_nc() as nat), None, self.raw(), 59, 3),
            bit_field_is(final(subfields)@[40], "STBC Tx > 80 MHz"@, bool_text(self.spec_stbc_tx_greater_than_eighty_mhz()), None, self.raw(), 62, 1),
            bit_field_is(final(subfields)@[41], "STBC Rx > 80 MHz"@, bool_text(self.spec_stbc_rx_greater_than_eighty_mhz()), None, self.raw(), 63, 1),
            bit_field_is(final(subfields)@[42], "HE ER SU PPDU with 4x HE-LTF and 0.8 µs GI"@, bool_text(self.spec_he_er_su_ppdu_with_4x_he_ltf_and_zero_point_eight_microseconds_gi()), None, self.raw(), 64, 1),
            bit_field_is(final(subfields)@[43], "20 MHz in 40 MHz HE PPDU in 2.4 GHz Band"@, bool_text(self.spec_twenty_mhz_in_forty_mhz_he_ppdu_in_two_point_four_ghz_band()), None, self.raw(), 65, 1),
            bit_field_is(final(subfields)@[44], "20 MHz in 160 MHz HE PPDU"@, bool_text(self.spec_twenty_mhz_in_one_hundred_sixty_mhz_he_ppdu()), None, self.raw(), 66, 1),
            bit_field_is(final(subfields)@[45], "80 MHz in 160 MHz HE PPDU"@, bool_text(self.spec_eighty_mhz_in_one_hundred_sixty_mhz_he_ppdu()), None, self.raw(), 67, 1),
            bit_field_is(final(subfields)@[46], "HE ER SU PPDU with 1x HE-LTF and 0.8 µs GI"@, bool_text(self.spec_he_er_su_ppdu_with_1x_he_ltf_and_zero_point_eighty_microseconds_gi()), None, self.raw(), 68, 1),
            bit_field_is(final(subfields)@[47], "Midamble Tx/Rx 2x and 1x HE-LTF"@, bool_text(self.spec_midamble_tx_rx_2x_and_1x_he_ltf()), None, self.raw(), 69, 1),
    {
        subfields.push(bit_field("PSR-based SR Support", bool_string(self.psr_based_sr_support()), bytes, 56, 1));
        subfields.push(bit_field("Power Boost Factor Support", bool_string(self.power_boost_factor_support()), bytes, 57, 1));
        subfields.push(bit_field("HE SU/MU PPDU with 4x HE-LTF and 0.8 µs GI", bool_string(self.he_su_ppdu_and_he_mu_ppdu_with_4x_he_ltf_and_zero_point_eighty_microseconds_gi()), bytes, 58, 1));
        subfields.push(bit_field("Max Nc", u64_text(self.max_nc() as u64), bytes, 59, 3));
        subfields.push(bit_field("STBC Tx > 80 MHz", bool_string(self.stbc_tx_greater_than_eighty_mhz()), bytes, 62, 1));
        subfields.push(bit_field("STBC Rx > 80 MHz", bool_string(self.stbc_rx_greater_than_eighty_mhz()), bytes, 63, 1));
        subfields.push(bit_field("HE ER SU PPDU with 4x HE-LTF and 0.8 µs GI", bool_string(self.he_er_su_ppdu_with_4x_he_ltf_and_zero_point_eight_microseconds_gi()), bytes, 64, 1));
        subfields.push(bit_field("20 MHz in 40 MHz HE PPDU in 2.4 GHz Band", bool_string(self.twenty_mhz_in_forty_mhz_he_ppdu_in_two_point_four_ghz_band()), bytes, 65, 1));
        subfields.push(bit_field("20 MHz in 160 MHz HE PPDU", bool_string(self.twenty_mhz_in_one_hundred_sixty_mhz_he_ppdu()), bytes, 66, 1));
        subfields.push(bit_field("80 MHz in 160 MHz HE PPDU", bool_string(self.eighty_mhz_in_one_hundred_sixty_mhz_he_ppdu()), bytes, 67, 1));
        subfields.push(bit_field("HE ER SU PPDU with 1x HE-LTF and 0.8 µs GI", bool_string(self.he_er_su_ppdu_with_1x_he_ltf_and_zero_point_eighty_microseconds_gi()), bytes, 68, 1));
        subfields.push(bit_field("Midamble Tx/Rx 2x and 1x HE-LTF", bool_string(self.midamble_tx_rx_2x_and_1x_he_ltf()), bytes, 69, 1));
    }

    /// Appends the subfields 48 to 57 of the displayable field.
    fn push_subfields_4(&self, bytes: &[u8], subfields: &mut Vec<Field>)
        requires
            bytes@ == self.raw(),
            old(subfields)@.len() == 48,
        ensures
            final(subfields)@.len() == 58,
            forall|j: int| 0 <= j < 48 ==> final(subfields)@[j] == old(subfields)@[j],
            bit_field_is(final(subfields)@[48], "DCM Max RU"@, decimal(self.spec_dcm_max_ru() as nat), None, self.raw(), 70, 2),
            bit_field_is(final(subfields)@[49], "Longer Than 16 HE-SIG-B OFDM Symbols Support"@, bool_text(self.spec_longer_than_sixteen_he_sig_b_ofdm_symbols_present()), None, self.raw(), 72, 1),
            bit_field_is(final(subfields)@[50], "Non-Triggered CQI Feedback"@, bool_text(self.spec_non_triggered_cqi_feedback()), None, self.raw(), 73, 1),
            bit_field_is(final(subfields)@[51], "Tx 1024-QAM < 242-tone RU Support"@, bool_text(self.spec_tx_one_thousand_twenty_four_qam_less_than_two_hundred_forty_two_tone_ru_support()), None, self.raw(), 74, 1),
            bit_field_is(final(subfields)@[52], "Rx 1024-QAM < 242-tone RU Support"@, bool_text(self.spec_rx_one_thousand_twenty_four_qam_less_than_two_hundred_forty_two_tone_ru_support()), None, self.raw(), 75, 1),
            bit_field_is(final(subfields)@[53], "Rx Full BW SU Using HE MU PPDU with Compressed HE-SIG-B"@, bool_text(self.spec_rx_full_bw_su_using_he_mu_ppdu_with_compressed_he_sig_b()), None, self.raw(), 76, 1),
            bit_field_is(final(subfields)@[54], "Rx Full BW SU Using HE MU PPDU with Non-Compressed HE-SIG-B"@, bool_text(self.spec_rx_full_bw_su_using_he_mu_ppdu_with_non_compressed_he_sig_b()), None, self.raw(), 77, 1),
            bit_field_is(final(subfields)@[55], "Nominal Packet Padding"@, decimal(self.spec_nominal_packet_padding() as nat), None, self.raw(), 78, 2),
            bit_field_is(final(subfields)@[56], "HE MU PPDU With More Than One RU Rx Max N_HE-LTF"@, bool_text(self.spec_he_mu_ppdu_with_more_than_one_ru_rx_max_n_he_ltf()), None, self.raw(), 80, 1),
            reserved_field_is(final(subfields)@[57], self.raw(), 81, 7),
    {
        subfields.push(bit_field("DCM Max RU", u64_text(self.dcm_max_ru() as u64), bytes, 70, 2));
        subfields.push(bit_field("Longer Than 16 HE-SIG-B OFDM Symbols Support", bool_string(self.longer_than_sixteen_he_sig_b_ofdm_symbols_present()), bytes, 72, 1));
        subfields.push(bit_field("Non-Triggered CQI Feedback", bool_string(self.non_triggered_cqi_feedback()), bytes, 73, 1));
        subfields.push(bit_field("Tx 1024-QAM < 242-tone RU Support", bool_string(self.tx_one_thousand_twenty_four_qam_less_than_two_hundred_forty_two_tone_ru_support()), bytes, 74, 1));
        subfields.push(bit_field("Rx 1024-QAM < 242-tone RU Support", bool_string(self.rx_one_thousand_twenty_four_qam_less_than_two_hundred_forty_two_tone_ru_support()), bytes, 75, 1));
        subfields.push(bit_field("Rx Full BW SU Using HE MU PPDU with Compressed HE-SIG-B", bool_string(self.rx_full_bw_su_using_he_mu_ppdu_with_compressed_he_sig_b()), bytes, 76, 1));
        subfields.push(bit_field("Rx Full BW SU Using HE MU PPDU with Non-Compressed HE-SIG-B", bool_string(self.rx_full_bw_su_using_he_mu_ppdu_with_non_compressed_he_sig_b()), bytes, 77, 1));
        subfields.push(bit_field("Nominal Packet Padding", u64_text(self.nominal_packet_padding() as u64), bytes, 78, 2));
        subfields.push(bit_field("HE MU PPDU With More Than One RU Rx Max N_HE-LTF", bool_string(self.he_mu_ppdu_with_more_than_one_ru_rx_max_n_he_ltf()), bytes, 80, 1));
        subfields.push(reserved_bits(bytes, 81, 7));
    }

}

/// An HE-MCS map: the highest HE-MCS supported on each of eight spatial streams.
#[derive(Debug, Clone, Copy, PartialEq, Eq, Hash)]
pub struct HeMcsMap {
    bytes: [u8; 2],
}

impl HeMcsMap {
    /// The encoded length in bytes.
    pub const LENGTH: usize = 2;

    /// Whether `bytes` (exactly 2 of them) encode a valid value.
    pub open spec fn spec_valid(bytes: Seq<u8>) -> bool {
        &&& bytes.len() == 2
        &&& Support::spec_from_u8(bits_value(bytes, 0, 2) as u8) is Some
        &&& Support::spec_from_u8(bits_value(bytes, 2, 2) as u8) is Some
        &&& Support::spec_from_u8(bits_value(bytes, 4, 2) as u8) is Some
        &&& Support::spec_from_u8(bits_value(bytes, 6, 2) as u8) is Some
        &&& Support::spec_from_u8(bits_value(bytes, 8, 2) as u8) is Some
        &&& Support::spec_from_u8(bits_value(bytes, 10, 2) as u8) is Some
        &&& Support::spec_from_u8(bits_value(bytes, 12, 2) as u8) is Some
        &&& Support::spec_from_u8(bits_value(bytes, 14, 2) as u8) is Some
    }

    /// The encoded bytes.
    pub closed spec fn raw(&self) -> Seq<u8> {
        self.bytes@
    }

    /// Every value is encoded in exactly 2 bytes.
    pub proof fn lemma_raw_len(&self)
        ensures
            self.raw().len() == 2,
    {
    }

    /// Decodes the value from the first 2 bytes of `bytes`. `None` when there are fewer
    /// bytes or they do not encode a valid value.
    pub fn from_bytes(bytes: &[u8]) -> (r: Option<HeMcsMap>)
        ensures
            r is Some <==> bytes@.len() >= 2 && Self::spec_valid(bytes@.subrange(0, 2)),
            r matches Some(v) ==> v.raw() == bytes@.subrange(0, 2),
    {
        if bytes.len() < 2 {
            return None;
        }
        let a: [u8; 2] = [bytes[0], bytes[1]];
        proof {
            assert(a@ =~= bytes@.subrange(0, 2));
        }
        if Support::from_u8(read_u8_bits(a.as_slice(), 0, 2)).is_none() {
            return None;
        }
        if Support::from_u8(read_u8_bits(a.as_slice(), 2, 2)).is_none() {
            return None;
        }
        if Support::from_u8(read_u8_bits(a.as_slice(), 4, 2)).is_none() {
            return None;
        }
        if Support::from_u8(read_u8_bits(a.as_slice(), 6, 2)).is_none() {
            return None;
        }
        if Support::from_u8(read_u8_bits(a.as_slice(), 8, 2)).is_none() {
            return None;
        }
        if Support::from_u8(read_u8_bits(a.as_slice(), 10, 2)).is_none() {
            return None;
        }
        if Support::from_u8(read_u8_bits(a.as_slice(), 12, 2)).is_none() {
            return None;
        }
        if Support::from_u8(read_u8_bits(a.as_slice(), 14, 2)).is_none() {
            return None;
        }
        Some(HeMcsMap { bytes: a })
    }

    /// The encoded bytes.
    pub fn to_bytes(&self) -> (v: Vec<u8>)
        ensures
            v@ == self.raw(),
    {
        vstd::slice::slice_to_vec(self.bytes.as_slice())
    }

    /// The "Max HE-MCS for 1 SS" subfield (bits 0-1).
    pub open spec fn spec_max_he_mcs_for_one_ss(&self) -> Support {
        match Support::spec_from_u8(bits_value(self.raw(), 0, 2) as u8) {
            Some(v) => v,
            None => Support::HeMcsZeroThroughSeven,
        }
    }

    /// The "Max HE-MCS for 1 SS" subfield (bits 0-1).
    pub fn max_he_mcs_for_one_ss(&self) -> (v: Support)
        ensures
            v == self.spec_max_he_mcs_for_one_ss(),
    {
        match Support::from_u8(read_u8_bits(self.bytes.as_slice(), 0, 2)) {
            Some(v) => v,
            None => Support::HeMcsZeroThroughSeven,
        }
    }

    /// The "Max HE-MCS for 2 SS" subfield (bits 2-3).
    pub open spec fn spec_max_he_mcs_for_two_ss(&self) -> Support {
        match Support::spec_from_u8(bits_value(self.raw(), 2, 2) as u8) {
            Some(v) => v,
            None => Support::HeMcsZeroThroughSeven,
        }
    }

    /// The "Max HE-MCS for 2 SS" subfield (bits 2-3).
    pub fn max_he_mcs_for_two_ss(&self) -> (v: Support)
        ensures
            v == self.spec_max_he_mcs_for_two_ss(),
    {
        match Support::from_u8(read_u8_bits(self.bytes.as_slice(), 2, 2)) {
            Some(v) => v,
            None => Support::HeMcsZeroThroughSeven,
        }
    }

    /// The "Max HE-MCS for 3 SS" subfield (bits 4-5).
    pub open spec fn spec_max_he_mcs_for_three_ss(&self) -> Support {
        match Support::spec_from_u8(bits_value(self.raw(), 4, 2) as u8) {
            Some(v) => v,
            None => Support::HeMcsZeroThroughSeven,
        }
    }

    /// The "Max HE-MCS for 3 SS" subfield (bits 4-5).
    pub fn max_he_mcs_for_three_ss(&self) -> (v: Support)
        ensures
            v == self.spec_max_he_mcs_for_three_ss(),
    {
        match Support::from_u8(read_u8_bits(self.bytes.as_slice(), 4, 2)) {
            Some(v) => v,
            None => Support::HeMcsZeroThroughSeven,
        }
    }

    /// The "Max HE-MCS for 4 SS" subfield (bits 6-7).
    pub open spec fn spec_max_he_mcs_for_four_ss(&self) -> Support {
        match Support::spec_from_u8(bits_value(self.raw(), 6, 2) as u8) {
            Some(v) => v,
            None => Support::HeMcsZeroThroughSeven,
        }
    }

    /// The "Max HE-MCS for 4 SS" subfield (bits 6-7).
    pub fn max_he_mcs_for_four_ss(&self) -> (v: Support)
        ensures
            v == self.spec_max_he_mcs_for_four_ss(),
    {
        match Support::from_u8(read_u8_bits(self.bytes.as_slice(), 6, 2)) {
            Some(v) => v,
            None => Support::HeMcsZeroThroughSeven,
        }
    }

    /// The "Max HE-MCS for 5 SS" subfield (bits 8-9).
    pub open spec fn spec_max_he_mcs_for_five_ss(&self) -> Support {
        match Support::spec_from_u8(bits_value(self.raw(), 8, 2) as u8) {
            Some(v) => v,
            None => Support::HeMcsZeroThroughSeven,
        }
    }

    /// The "Max HE-MCS for 5 SS" subfield (bits 8-9).
    pub fn max_he_mcs_for_five_ss(&self) -> (v: Support)
        ensures
            v == self.spec_max_he_mcs_for_five_ss(),
    {
        match Support::from_u8(read_u8_bits(self.bytes.as_slice(), 8, 2)) {
            Some(v) => v,
            None => Support::HeMcsZeroThroughSeven,
        }
    }

    /// The "Max HE-MCS for 6 SS" subfield (bits 10-11).
    pub open spec fn spec_max_he_mcs_for_six_ss(&self) -> Support {
        match Support::spec_from_u8(bits_value(self.raw(), 10, 2) as u8) {
            Some(v) => v,
            None => Support::HeMcsZeroThroughSeven,
        }
    }

    /// The "Max HE-MCS for 6 SS" subfield (bits 10-11).
    pub fn max_he_mcs_for_six_ss(&self) -> (v: Support)
        ensures
            v == self.spec_max_he_mcs_for_six_ss(),
    {
        match Support::from_u8(read_u8_bits(self.bytes.as_slice(), 10, 2)) {
            Some(v) => v,
            None => Support::HeMcsZeroThroughSeven,
        }
    }

    /// The "Max HE-MCS for 7 SS" subfield (bits 12-13).
    pub open spec fn spec_max_he_mcs_for_seven_ss(&self) -> Support {
        match Support::spec_from_u8(bits_value(self.raw(), 12, 2) as u8) {
            Some(v) => v,
            None => Support::HeMcsZeroThroughSeven,
        }
    }

    /// The "Max HE-MCS for 7 SS" subfield (bits 12-13).
    pub fn max_he_mcs_for_seven_ss(&self) -> (v: Support)
        ensures
            v == self.spec_max_he_mcs_for_seven_ss(),
    {
        match Support::from_u8(read_u8_bits(self.bytes.as_slice(), 12, 2)) {
            Some(v) => v,
            None => Support::HeMcsZeroThroughSeven,
        }
    }

    /// The "Max HE-MCS for 8 SS" subfield (bits 14-15).
    pub open spec fn spec_max_he_mcs_for_eight_ss(&self) -> Support {
        match Support::spec_from_u8(bits_value(self.raw(), 14, 2) as u8) {
            Some(v) => v,
            None => Support::HeMcsZeroThroughSeven,
        }
    }

    /// The "Max HE-MCS for 8 SS" subfield (bits 14-15).
    pub fn max_he_mcs_for_eight_ss(&self) -> (v: Support)
        ensures
            v == self.spec_max_he_mcs_for_eight_ss(),
    {
        match Support::from_u8(read_u8_bits(self.bytes.as_slice(), 14, 2)) {
            Some(v) => v,
            None => Support::HeMcsZeroThroughSeven,
        }
    }

    /// Whether `f` is the displayable field of this value under `title`: one subfield per bit field.
    pub open spec fn field_shows(&self, f: Field, title: Seq<char>) -> bool {
        &&& f.title@ == title
        &&& f.value@ == ""@
        &&& f.bytes matches Some(b) && b@ == self.raw()
        &&& f.byte is None
        &&& f.bits is None
        &&& f.units is None
        &&& f.subfields@.len() == 8
        &&& bit_field_is(f.subfields@[0], "Max HE-MCS for 1 SS"@, self.spec_max_he_mcs_for_one_ss().spec_text(), Some(paren_decimal(self.spec_max_he_mcs_for_one_ss().spec_to_u8() as nat)), self.raw(), 0, 2)
        &&& bit_field_is(f.subfields@[1], "Max HE-MCS for 2 SS"@, self.spec_max_he_mcs_for_two_ss().spec_text(), Some(paren_decimal(self.spec_max_he_mcs_for_two_ss().spec_to_u8() as nat)), self.raw(), 2, 2)
        &&& bit_field_is(f.subfields@[2], "Max HE-MCS for 3 SS"@, self.spec_max_he_mcs_for_three_ss().spec_text(), Some(paren_decimal(self.spec_max_he_mcs_for_three_ss().spec_to_u8() as nat)), self.raw(), 4, 2)
        &&& bit_field_is(f.subfields@[3], "Max HE-MCS for 4 SS"@, self.spec_max_he_mcs_for_four_ss().spec_text(), Some(paren_decimal(self.spec_max_he_mcs_for_four_ss().spec_to_u8() as nat)), self.raw(), 6, 2)
        &&& bit_field_is(f.subfields@[4], "Max HE-MCS for 5 SS"@, self.spec_max_he_mcs_for_five_ss().spec_text(), Some(paren_decimal(self.spec_max_he_mcs_for_five_ss().spec_to_u8() as nat)), self.raw(), 8, 2)
        &&& bit_field_is(f.subfields@[5], "Max HE-MCS for 6 SS"@, self.spec_max_he_mcs_for_six_ss().spec_text(), Some(paren_decimal(self.spec_max_he_mcs_for_six_ss().spec_to_u8() as nat)), self.raw(), 10, 2)
        &&& bit_field_is(f.subfields@[6], "Max HE-MCS for 7 SS"@, self.spec_max_he_mcs_for_seven_ss().spec_text(), Some(paren_decimal(self.spec_max_he_mcs_for_seven_ss().spec_to_u8() as nat)), self.raw(), 12, 2)
        &&& bit_field_is(f.subfields@[7], "Max HE-MCS for 8 SS"@, self.spec_max_he_mcs_for_eight_ss().spec_text(), Some(paren_decimal(self.spec_max_he_mcs_for_eight_ss().spec_to_u8() as nat)), self.raw(), 14, 2)
    }

    /// The value as a displayable field with one subfield per bit field.
    pub fn to_field(&self, title: &str) -> (f: Field)
        ensures
            self.field_shows(f, title@),
    {
        let bytes = self.bytes.as_slice();
        let mut subfields: Vec<Field> = Vec::new();
        subfields.push(bit_field_with_units("Max HE-MCS for 1 SS", self.max_he_mcs_for_one_ss().to_string(), paren_text(self.max_he_mcs_for_one_ss().to_u8() as u64), bytes, 0, 2));
        subfields.push(bit_field_with_units("Max HE-MCS for 2 SS", self.max_he_mcs_for_two_ss().to_string(), paren_text(self.max_he_mcs_for_two_ss().to_u8() as u64), bytes, 2, 2));
        subfields.push(bit_field_with_units("Max HE-MCS for 3 SS", self.max_he_mcs_for_three_ss().to_string(), paren_text(self.max_he_mcs_for_three_ss().to_u8() as u64), bytes, 4, 2));
        subfields.push(bit_field_with_units("Max HE-MCS for 4 SS", self.max_he_mcs_for_four_ss().to_string(), paren_text(self.max_he_mcs_for_four_ss().to_u8() as u64), bytes, 6, 2));
        subfields.push(bit_field_with_units("Max HE-MCS for 5 SS", self.max_he_mcs_for_five_ss().to_string(), paren_text(self.max_he_mcs_for_five_ss().to_u8() as u64), bytes, 8, 2));
        subfields.push(bit_field_with_units("Max HE-MCS for 6 SS", self.max_he_mcs_for_six_ss().to_string(), paren_text(self.max_he_mcs_for_six_ss().to_u8() as u64), bytes, 10, 2));
        subfields.push(bit_field_with_units("Max HE-MCS for 7 SS", self.max_he_mcs_for_seven_ss().to_string(), paren_text(self.max_he_mcs_for_seven_ss().to_u8() as u64), bytes, 12, 2));
        subfields.push(bit_field_with_units("Max HE-MCS for 8 SS", self.max_he_mcs_for_eight_ss().to_string(), paren_text(self.max_he_mcs_for_eight_ss().to_u8() as u64), bytes, 14, 2));
        Field::new(title, "").with_bytes(self.to_bytes()).with_subfields(subfields)
    }

    /// The support announced for spatial stream `stream` (1 to 8); other streams are not
    /// supported.
    pub open spec fn spec_stream_support(&self, stream: u8) -> Support {
        if stream == 1 {
            self.spec_max_he_mcs_for_one_ss()
        } else if stream == 2 {
            self.spec_max_he_mcs_for_two_ss()
        } else if stream == 3 {
            self.spec_max_he_mcs_for_three_ss()
        } else if stream == 4 {
            self.spec_max_he_mcs_for_four_ss()
        } else if stream == 5 {
            self.spec_max_he_mcs_for_five_ss()
        } else if stream == 6 {
            self.spec_max_he_mcs_for_six_ss()
        } else if stream == 7 {
            self.spec_max_he_mcs_for_seven_ss()
        } else if stream == 8 {
            self.spec_max_he_mcs_for_eight_ss()
        } else {
            Support::NotSupported
        }
    }

    /// The highest stream whose support is announced, or 1 when none is.
    pub open spec fn spec_max_spatial_streams(&self) -> u8 {
        if self.spec_stream_support(8) != Support::NotSupported {
            8
        } else if self.spec_stream_support(7) != Support::NotSupported {
            7
        } else if self.spec_stream_support(6) != Support::NotSupported {
            6
        } else if self.spec_stream_support(5) != Support::NotSupported {
            5
        } else if self.spec_stream_support(4) != Support::NotSupported {
            4
        } else if self.spec_stream_support(3) != Support::NotSupported {
            3
        } else if self.spec_stream_support(2) != Support::NotSupported {
            2
        } else if self.spec_stream_support(1) != Support::NotSupported {
            1
        } else {
            1
        }
    }

    /// The maximum number of spatial streams supported: the highest stream whose support is
    /// announced, and at least 1.
    pub fn max_spatial_streams(&self) -> (n: u8)
        ensures
            n == self.spec_max_spatial_streams(),
    {
        if self.max_he_mcs_for_eight_ss() != Support::NotSupported {
            return 8;
        }
        if self.max_he_mcs_for_seven_ss() != Support::NotSupported {
            return 7;
        }
        if self.max_he_mcs_for_six_ss() != Support::NotSupported {
            return 6;
        }
        if self.max_he_mcs_for_five_ss() != Support::NotSupported {
            return 5;
        }
        if self.max_he_mcs_for_four_ss() != Support::NotSupported {
            return 4;
        }
        if self.max_he_mcs_for_three_ss() != Support::NotSupported {
            return 3;
        }
        if self.max_he_mcs_for_two_ss() != Support::NotSupported {
            return 2;
        }
        if self.max_he_mcs_for_one_ss() != Support::NotSupported {
            return 1;
        }
        1
    }

    /// The highest MCS index a support value allows, `None` when not supported.
    pub open spec fn spec_support_max_mcs(support: Support) -> Option<u8> {
        match support {
            Support::HeMcsZeroThroughSeven => Some(7u8),
            Support::HeMcsZeroThroughNine => Some(9u8),
            Support::HeMcsZeroThroughEleven => Some(11u8),
            Support::NotSupported => None,
        }
    }

    /// The highest MCS index supported on a spatial stream.
    pub open spec fn spec_max_mcs_for_stream(&self, stream: u8) -> Option<u8> {
        Self::spec_support_max_mcs(self.spec_stream_support(stream))
    }

    /// The highest MCS index supported on spatial stream `stream` (1 to 8); `None` when the
    /// stream is not supported or out of range.
    pub fn max_mcs_for_stream(&self, stream: u8) -> (m: Option<u8>)
        ensures
            m == self.spec_max_mcs_for_stream(stream),
    {
        let support = match stream {
            1 => self.max_he_mcs_for_one_ss(),
            2 => self.max_he_mcs_for_two_ss(),
            3 => self.max_he_mcs_for_three_ss(),
            4 => self.max_he_mcs_for_four_ss(),
            5 => self.max_he_mcs_for_five_ss(),
            6 => self.max_he_mcs_for_six_ss(),
            7 => self.max_he_mcs_for_seven_ss(),
            8 => self.max_he_mcs_for_eight_ss(),
            _ => Support::NotSupported,
        };
        match support {
            Support::HeMcsZeroThroughSeven => Some(7),
            Support::HeMcsZeroThroughNine => Some(9),
            Support::HeMcsZeroThroughEleven => Some(11),
            Support::NotSupported => None,
        }
    }

    /// The highest MCS of spatial stream `s` (1 to 8) follows from its two-bit support code
    /// (bits 2s-2 and 2s-1 of the map): a code `c` below 3 allows HE-MCS 0 to 7 + 2`c` (7, 9
    /// or 11), and code 3 means the stream is not supported. Streams outside 1 to 8 are not
    /// supported.
    pub proof fn lemma_max_mcs_from_support_code(&self, s: u8)
        ensures
            1 <= s <= 8 ==> {
                let c = bits_value(self.raw(), 2 * (s - 1), 2);
                &&& c < 3 ==> self.spec_max_mcs_for_stream(s) == Some((7 + 2 * c) as u8)
                &&& c == 3 ==> self.spec_max_mcs_for_stream(s) is None
            },
            !(1 <= s <= 8) ==> self.spec_max_mcs_for_stream(s) is None,
    {
        if 1 <= s <= 8 {
            lemma_bits_value_bound(self.raw(), 2 * (s - 1), 2);
            assert(two_pow(2) == 4) by {
                reveal_with_fuel(two_pow, 3);
            }
        }
    }

    /// The stream count is the highest announced stream: no stream above it is supported,
    /// and it has an MCS unless no stream at all is announced.
    pub proof fn lemma_max_spatial_streams(&self)
        ensures
            1 <= self.spec_max_spatial_streams() <= 8,
            forall|s: u8|
                self.spec_max_spatial_streams() < s <= 8 ==> #[trigger] self.spec_max_mcs_for_stream(s)
                    is None,
            self.spec_max_spatial_streams() > 1 ==> self.spec_max_mcs_for_stream(
                self.spec_max_spatial_streams(),
            ) is Some,
    {
    }
}

/// Whether bit `k` of the HE PHY supported channel width set is set.
pub open spec fn width_set_has(width_set: u8, k: int) -> bool {
    bit_set(seq![width_set], k)
}

/// The length of a Supported HE-MCS And NSS Set: the two maps for 80 MHz and below, two more
/// when the width set includes 160 MHz (bit 2) and two more for 80+80 MHz (bit 3).
pub open spec fn spec_he_set_len(width_set: u8) -> nat {
    4 + (if width_set_has(width_set, 2) { 4nat } else { 0nat }) + (if width_set_has(width_set, 3) {
        4nat
    } else {
        0nat
    })
}

/// The encoding of an optional map: its two bytes, or nothing.
pub open spec fn optional_map_raw(m: Option<HeMcsMap>) -> Seq<u8> {
    match m {
        Some(v) => v.raw(),
        None => seq![],
    }
}

/// The titled maps of an optional pair, or nothing.
pub open spec fn optional_map_entries(
    rx: Option<HeMcsMap>,
    rx_title: Seq<char>,
    tx: Option<HeMcsMap>,
    tx_title: Seq<char>,
) -> Seq<(Seq<char>, HeMcsMap)> {
    (match rx {
        Some(v) => seq![(rx_title, v)],
        None => seq![],
    }) + (match tx {
        Some(v) => seq![(tx_title, v)],
        None => seq![],
    })
}

/// The Supported HE-MCS And NSS Set field: receive and transmit HE-MCS maps for each channel
/// width group the station supports.
#[derive(Debug, Clone, Copy, PartialEq, Eq, Hash)]
pub struct SupportedHeMcsAndNssSet {
    pub rx_he_mcs_map_less_than_or_equal_to_eighty_mhz: HeMcsMap,
    pub tx_he_mcs_map_less_than_or_equal_to_eighty_mhz: HeMcsMap,
    pub rx_he_mcs_map_one_hundred_sixty_mhz: Option<HeMcsMap>,
    pub tx_he_mcs_map_one_hundred_sixty_mhz: Option<HeMcsMap>,
    pub rx_he_mcs_map_eighty_plus_eighty_mhz: Option<HeMcsMap>,
    pub tx_he_mcs_map_eighty_plus_eighty_mhz: Option<HeMcsMap>,
}

impl SupportedHeMcsAndNssSet {
    /// The encoded bytes: the maps that are present, in order.
    pub open spec fn raw(&self) -> Seq<u8> {
        self.rx_he_mcs_map_less_than_or_equal_to_eighty_mhz.raw()
            + self.tx_he_mcs_map_less_than_or_equal_to_eighty_mhz.raw()
            + optional_map_raw(self.rx_he_mcs_map_one_hundred_sixty_mhz)
            + optional_map_raw(self.tx_he_mcs_map_one_hundred_sixty_mhz)
            + optional_map_raw(self.rx_he_mcs_map_eighty_plus_eighty_mhz)
            + optional_map_raw(self.tx_he_mcs_map_eighty_plus_eighty_mhz)
    }

    /// The maps with their display titles, in order.
    pub open spec fn map_entries(&self) -> Seq<(Seq<char>, HeMcsMap)> {
        seq![
            ("Rx HE-MCS Map ≤ 80 MHz"@, self.rx_he_mcs_map_less_than_or_equal_to_eighty_mhz),
            ("Tx HE-MCS Map ≤ 80 MHz"@, self.tx_he_mcs_map_less_than_or_equal_to_eighty_mhz),
        ] + optional_map_entries(
            self.rx_he_mcs_map_one_hundred_sixty_mhz,
            "Rx HE-MCS Map 160 MHz"@,
            self.tx_he_mcs_map_one_hundred_sixty_mhz,
            "Tx HE-MCS Map 160 MHz"@,
        ) + optional_map_entries(
            self.rx_he_mcs_map_eighty_plus_eighty_mhz,
            "Rx HE-MCS Map 80+80 MHz"@,
            self.tx_he_mcs_map_eighty_plus_eighty_mhz,
            "Tx HE-MCS Map 80+80 MHz"@,
        )
    }

    /// Parses the set from the start of `bytes`; which optional maps are present follows the
    /// supported channel width set. `None` when `bytes` is too short.
    pub fn from_bytes(bytes: &[u8], width_set: u8) -> (r: Option<SupportedHeMcsAndNssSet>)
        ensures
            r is Some <==> bytes@.len() >= spec_he_set_len(width_set),
            r matches Some(s) ==> s.raw() == bytes@.subrange(0, spec_he_set_len(width_set) as int)
                && (s.rx_he_mcs_map_one_hundred_sixty_mhz is Some <==> width_set_has(width_set, 2))
                && (s.tx_he_mcs_map_one_hundred_sixty_mhz is Some <==> width_set_has(width_set, 2))
                && (s.rx_he_mcs_map_eighty_plus_eighty_mhz is Some <==> width_set_has(width_set, 3))
                && (s.tx_he_mcs_map_eighty_plus_eighty_mhz is Some <==> width_set_has(width_set, 3)),
    {
        let w = [width_set];
        proof {
            assert(w@ =~= seq![width_set]);
        }
        let has160 = read_bit(w.as_slice(), 2);
        let has8080 = read_bit(w.as_slice(), 3);
        let need: usize = 4 + (if has160 { 4 } else { 0 }) + (if has8080 { 4 } else { 0 });
        if bytes.len() < need {
            return None;
        }
        let b = vstd::slice::slice_subrange(bytes, 0, need);
        let ghost g = b@;
        let rx = read_map(b, 0);
        let tx = read_map(b, 2);
        let mut pos: usize = 4;
        let (rx160, tx160) = if has160 {
            let a = read_map(b, pos);
            let c = read_map(b, pos + 2);
            pos = pos + 4;
            (Some(a), Some(c))
        } else {
            (None, None)
        };
        let ghost pos160 = pos;
        let (rx8080, tx8080) = if has8080 {
            let a = read_map(b, pos);
            let c = read_map(b, pos + 2);
            (Some(a), Some(c))
        } else {
            (None, None)
        };
        let s = SupportedHeMcsAndNssSet {
            rx_he_mcs_map_less_than_or_equal_to_eighty_mhz: rx,
            tx_he_mcs_map_less_than_or_equal_to_eighty_mhz: tx,
            rx_he_mcs_map_one_hundred_sixty_mhz: rx160,
            tx_he_mcs_map_one_hundred_sixty_mhz: tx160,
            rx_he_mcs_map_eighty_plus_eighty_mhz: rx8080,
            tx_he_mcs_map_eighty_plus_eighty_mhz: tx8080,
        };
        proof {
            let a = optional_map_raw(rx160) + optional_map_raw(tx160);
            let c = optional_map_raw(rx8080) + optional_map_raw(tx8080);
            assert(a =~= g.subrange(4, pos160 as int));
            assert(c =~= g.subrange(pos160 as int, need as int));
            assert(s.raw() =~= g.subrange(0, 2) + g.subrange(2, 4) + a + c);
            assert(s.raw() =~= g);
        }
        Some(s)
    }

    /// The encoded bytes.
    pub fn to_bytes(&self) -> (v: Vec<u8>)
        ensures
            v@ == self.raw(),
    {
        let mut v = self.rx_he_mcs_map_less_than_or_equal_to_eighty_mhz.to_bytes();
        let mut t = self.tx_he_mcs_map_less_than_or_equal_to_eighty_mhz.to_bytes();
        v.append(&mut t);
        let ghost v0 = v@;
        if let Some(m) = self.rx_he_mcs_map_one_hundred_sixty_mhz {
            let mut t = m.to_bytes();
            v.append(&mut t);
        }
        assert(v@ =~= v0 + optional_map_raw(self.rx_he_mcs_map_one_hundred_sixty_mhz));
        let ghost v1 = v@;
        if let Some(m) = self.tx_he_mcs_map_one_hundred_sixty_mhz {
            let mut t = m.to_bytes();
            v.append(&mut t);
        }
        assert(v@ =~= v1 + optional_map_raw(self.tx_he_mcs_map_one_hundred_sixty_mhz));
        let ghost v2 = v@;
        if let Some(m) = self.rx_he_mcs_map_eighty_plus_eighty_mhz {
            let mut t = m.to_bytes();
            v.append(&mut t);
        }
        assert(v@ =~= v2 + optional_map_raw(self.rx_he_mcs_map_eighty_plus_eighty_mhz));
        let ghost v3 = v@;
        if let Some(m) = self.tx_he_mcs_map_eighty_plus_eighty_mhz {
            let mut t = m.to_bytes();
            v.append(&mut t);
        }
        assert(v@ =~= v3 + optional_map_raw(self.tx_he_mcs_map_eighty_plus_eighty_mhz));
        v
    }

    /// Whether `f` is the displayable field of this set: one subfield per map present.
    pub open spec fn field_shows(&self, f: Field) -> bool {
        let e = self.map_entries();
        &&& f.title@ == "Supported HE-MCS And NSS Set"@
        &&& f.value@ == ""@
        &&& f.bytes matches Some(b) && b@ == self.raw()
        &&& f.byte is None
        &&& f.bits is None
        &&& f.units is None
        &&& f.subfields@.len() == e.len()
        &&& forall|i: int| 0 <= i < e.len() ==> #[trigger] e[i].1.field_shows(f.subfields@[i], e[i].0)
    }

    /// The set as a displayable field. The width set is the one the set was parsed with.
    pub fn to_field(&self, supported_width_set: u8) -> (f: Field)
        ensures
            self.field_shows(f),
    {
        let mut sub: Vec<Field> = Vec::new();
        sub.push(self.rx_he_mcs_map_less_than_or_equal_to_eighty_mhz.to_field("Rx HE-MCS Map ≤ 80 MHz"));
        sub.push(self.tx_he_mcs_map_less_than_or_equal_to_eighty_mhz.to_field("Tx HE-MCS Map ≤ 80 MHz"));
        let ghost e = self.map_entries();
        let ghost e1 = optional_map_entries(
            self.rx_he_mcs_map_one_hundred_sixty_mhz,
            "Rx HE-MCS Map 160 MHz"@,
            self.tx_he_mcs_map_one_hundred_sixty_mhz,
            "Tx HE-MCS Map 160 MHz"@,
        );
        let ghost e2 = optional_map_entries(
            self.rx_he_mcs_map_eighty_plus_eighty_mhz,
            "Rx HE-MCS Map 80+80 MHz"@,
            self.tx_he_mcs_map_eighty_plus_eighty_mhz,
            "Tx HE-MCS Map 80+80 MHz"@,
        );
        if let Some(m) = self.rx_he_mcs_map_one_hundred_sixty_mhz {
            sub.push(m.to_field("Rx HE-MCS Map 160 MHz"));
        }
        if let Some(m) = self.tx_he_mcs_map_one_hundred_sixty_mhz {
            sub.push(m.to_field("Tx HE-MCS Map 160 MHz"));
        }
        assert(sub@.len() == 2 + e1.len());
        assert forall|i: int| 0 <= i < 2 + e1.len() implies #[trigger] e[i].1.field_shows(sub@[i], e[i].0) by {
            assert(e[i] == (seq![
                ("Rx HE-MCS Map ≤ 80 MHz"@, self.rx_he_mcs_map_less_than_or_equal_to_eighty_mhz),
                ("Tx HE-MCS Map ≤ 80 MHz"@, self.tx_he_mcs_map_less_than_or_equal_to_eighty_mhz),
            ] + e1)[i]);
        }
        let ghost n1 = sub@.len();
        if let Some(m) = self.rx_he_mcs_map_eighty_plus_eighty_mhz {
            sub.push(m.to_field("Rx HE-MCS Map 80+80 MHz"));
        }
        if let Some(m) = self.tx_he_mcs_map_eighty_plus_eighty_mhz {
            sub.push(m.to_field("Tx HE-MCS Map 80+80 MHz"));
        }
        assert(sub@.len() == e.len());
        assert forall|i: int| n1 <= i < e.len() implies #[trigger] e[i].1.field_shows(sub@[i], e[i].0) by {
            assert(e[i] == e2[i - n1]);
        }
        Field::new("Supported HE-MCS And NSS Set", "").with_bytes(self.to_bytes()).with_subfields(sub)
    }
}

/// Reads the HE-MCS map at byte `pos`.
fn read_map(b: &[u8], pos: usize) -> (m: HeMcsMap)
    requires
        pos + 2 <= b@.len(),
        pos <= 16,
    ensures
        m.raw() == b@.subrange(pos as int, pos + 2),
{
    let s = vstd::slice::slice_subrange(b, pos, pos + 2);
    proof {
        assert(s@.subrange(0, 2) =~= s@);
        reveal_with_fuel(two_pow, 3);
        lemma_bits_value_bound(s@, 0, 2);
        lemma_bits_value_bound(s@, 2, 2);
        lemma_bits_value_bound(s@, 4, 2);
        lemma_bits_value_bound(s@, 6, 2);
        lemma_bits_value_bound(s@, 8, 2);
        lemma_bits_value_bound(s@, 10, 2);
        lemma_bits_value_bound(s@, 12, 2);
        lemma_bits_value_bound(s@, 14, 2);
    }
    HeMcsMap::from_bytes(s).unwrap()
}

/// Whether an RU index bitmask selects RU `r` (0 to 3).
pub open spec fn ru_selected(mask: u8, r: int) -> bool {
    bit_set(seq![mask], r)
}

/// How many of RUs `0..r` an RU index bitmask selects.
pub open spec fn ru_rank(mask: u8, r: int) -> nat
    decreases r,
{
    if r <= 0 {
        0
    } else {
        ru_rank(mask, r - 1) + if ru_selected(mask, r - 1) {
            1nat
        } else {
            0nat
        }
    }
}

/// The constellation coded by the three bits of `bytes` at bit `off`.
pub open spec fn constellation_at(bytes: Seq<u8>, off: int) -> TransmissionConstellation {
    match TransmissionConstellation::spec_from_u8(bits_value(bytes, off, 3) as u8) {
        Some(t) => t,
        None => TransmissionConstellation::Bpsk,
    }
}

/// The threshold of RU `r` at offset `k` (0 for PPET16, 3 for PPET8) within the RU's six
/// bits, when the bitmask selects the RU.
pub open spec fn ru_threshold(bytes: Seq<u8>, mask: u8, base: int, r: int, k: int) -> Option<TransmissionConstellation> {
    if ru_selected(mask, r) {
        Some(constellation_at(bytes, base + 6 * ru_rank(mask, r) + k))
    } else {
        None
    }
}

/// The thresholds of one stream read from `bytes` at bit `base`: for each RU the bitmask
/// selects, in RU order, a PPET16 code then a PPET8 code, three bits each.
pub open spec fn spec_ppe_info_at(bytes: Seq<u8>, mask: u8, base: int) -> PpeThresholdsInfo {
    PpeThresholdsInfo {
        ppet_sixteen_nsts_ru_0: ru_threshold(bytes, mask, base, 0, 0),
        ppet_eight_nsts_ru_0: ru_threshold(bytes, mask, base, 0, 3),
        ppet_sixteen_nsts_ru_1: ru_threshold(bytes, mask, base, 1, 0),
        ppet_eight_nsts_ru_1: ru_threshold(bytes, mask, base, 1, 3),
        ppet_sixteen_nsts_ru_2: ru_threshold(bytes, mask, base, 2, 0),
        ppet_eight_nsts_ru_2: ru_threshold(bytes, mask, base, 2, 3),
        ppet_sixteen_nsts_ru_3: ru_threshold(bytes, mask, base, 3, 0),
        ppet_eight_nsts_ru_3: ru_threshold(bytes, mask, base, 3, 3),
    }
}

/// Reads the two thresholds of RU `r`, if selected, from the six bits at `off`, the RU's
/// position within the stream that starts at `base`.
fn read_ru_pair(bytes: &[u8], mask: u8, base: usize, r: usize, off: usize) -> (p: (Option<TransmissionConstellation>, Option<TransmissionConstellation>))
    requires
        r < 4,
        off == base + 6 * ru_rank(mask, r as int),
        base + 6 * ru_rank(mask, 4) <= bytes@.len() * 8,
        base + 24 <= usize::MAX,
    ensures
        p.0 == ru_threshold(bytes@, mask, base as int, r as int, 0),
        p.1 == ru_threshold(bytes@, mask, base as int, r as int, 3),
{
    let m = [mask];
    proof {
        assert(m@ =~= seq![mask]);
        lemma_ru_rank_monotone(mask, r as int + 1, 4);
    }
    if read_bit(m.as_slice(), r) {
        assert(ru_rank(mask, r as int + 1) == ru_rank(mask, r as int) + 1);
        (Some(read_constellation(bytes, off)), Some(read_constellation(bytes, off + 3)))
    } else {
        (None, None)
    }
}

/// The rank only grows with the RU index.
pub proof fn lemma_ru_rank_monotone(mask: u8, a: int, b: int)
    requires
        0 <= a <= b,
    ensures
        ru_rank(mask, a) <= ru_rank(mask, b),
        ru_rank(mask, b) <= b,
    decreases b,
{
    if b > 0 {
        lemma_ru_rank_monotone(mask, 0, b - 1);
        if a < b {
            lemma_ru_rank_monotone(mask, a, b - 1);
        }
    }
}

/// The present entries of a list of titled optional thresholds, in order.
pub open spec fn present_thresholds(
    s: Seq<(Seq<char>, Option<TransmissionConstellation>)>,
) -> Seq<(Seq<char>, TransmissionConstellation)>
    decreases s.len(),
{
    if s.len() == 0 {
        seq![]
    } else {
        let rest = present_thresholds(s.drop_last());
        match s.last().1 {
            Some(v) => rest.push((s.last().0, v)),
            None => rest,
        }
    }
}

/// The bits of a list of thresholds: three per threshold, in order.
pub open spec fn threshold_bits(e: Seq<(Seq<char>, TransmissionConstellation)>) -> Seq<bool>
    decreases e.len(),
{
    if e.len() == 0 {
        seq![]
    } else {
        threshold_bits(e.drop_last()) + code_bits(e.last().1.spec_to_u8() as nat, 3)
    }
}

/// The PPE thresholds of one spatial stream: a PPET16 and a PPET8 constellation for each
/// selected resource unit size.
#[derive(Debug, Clone, Copy, PartialEq, Eq, Structural, Hash)]
pub struct PpeThresholdsInfo {
    pub ppet_sixteen_nsts_ru_0: Option<TransmissionConstellation>,
    pub ppet_eight_nsts_ru_0: Option<TransmissionConstellation>,
    pub ppet_sixteen_nsts_ru_1: Option<TransmissionConstellation>,
    pub ppet_eight_nsts_ru_1: Option<TransmissionConstellation>,
    pub ppet_sixteen_nsts_ru_2: Option<TransmissionConstellation>,
    pub ppet_eight_nsts_ru_2: Option<TransmissionConstellation>,
    pub ppet_sixteen_nsts_ru_3: Option<TransmissionConstellation>,
    pub ppet_eight_nsts_ru_3: Option<TransmissionConstellation>,
}

impl PpeThresholdsInfo {
    /// The eight thresholds with their display titles, in encoding order.
    pub open spec fn slots(&self) -> Seq<(Seq<char>, Option<TransmissionConstellation>)> {
        seq![
            ("RU 242 PPET16"@, self.ppet_sixteen_nsts_ru_0),
            ("RU 242 PPET8"@, self.ppet_eight_nsts_ru_0),
            ("RU 484 PPET16"@, self.ppet_sixteen_nsts_ru_1),
            ("RU 484 PPET8"@, self.ppet_eight_nsts_ru_1),
            ("RU 996 PPET16"@, self.ppet_sixteen_nsts_ru_2),
            ("RU 996 PPET8"@, self.ppet_eight_nsts_ru_2),
            ("RU 2x996 PPET16"@, self.ppet_sixteen_nsts_ru_3),
            ("RU 2x996 PPET8"@, self.ppet_eight_nsts_ru_3),
        ]
    }

    /// The thresholds that are present, with their titles.
    pub open spec fn entries(&self) -> Seq<(Seq<char>, TransmissionConstellation)> {
        present_thresholds(self.slots())
    }

    /// The encoded bits: three per present threshold.
    pub open spec fn bits(&self) -> Seq<bool> {
        threshold_bits(self.entries())
    }

    /// Whether exactly the thresholds of the RUs `mask` selects are present.
    pub open spec fn fits_mask(&self, mask: u8) -> bool {
        &&& (self.ppet_sixteen_nsts_ru_0 is Some <==> ru_selected(mask, 0))
        &&& (self.ppet_eight_nsts_ru_0 is Some <==> ru_selected(mask, 0))
        &&& (self.ppet_sixteen_nsts_ru_1 is Some <==> ru_selected(mask, 1))
        &&& (self.ppet_eight_nsts_ru_1 is Some <==> ru_selected(mask, 1))
        &&& (self.ppet_sixteen_nsts_ru_2 is Some <==> ru_selected(mask, 2))
        &&& (self.ppet_eight_nsts_ru_2 is Some <==> ru_selected(mask, 2))
        &&& (self.ppet_sixteen_nsts_ru_3 is Some <==> ru_selected(mask, 3))
        &&& (self.ppet_eight_nsts_ru_3 is Some <==> ru_selected(mask, 3))
    }

    /// Reads one stream's thresholds from `bytes` at bit `base`.
    pub fn read(bytes: &[u8], mask: u8, base: usize) -> (info: PpeThresholdsInfo)
        requires
            base + 6 * ru_rank(mask, 4) <= bytes@.len() * 8,
            base + 24 <= usize::MAX,
        ensures
            info == spec_ppe_info_at(bytes@, mask, base as int),
            info.fits_mask(mask),
    {
        let (a16, a8) = read_ru_pair(bytes, mask, base, 0, base);
        let m = [mask];
        proof {
            assert(m@ =~= seq![mask]);
        }
        let off1 = if read_bit(m.as_slice(), 0) { base + 6 } else { base };
        let (b16, b8) = read_ru_pair(bytes, mask, base, 1, off1);
        let off2 = if read_bit(m.as_slice(), 1) { off1 + 6 } else { off1 };
        let (c16, c8) = read_ru_pair(bytes, mask, base, 2, off2);
        let off3 = if read_bit(m.as_slice(), 2) { off2 + 6 } else { off2 };
        let (d16, d8) = read_ru_pair(bytes, mask, base, 3, off3);
        PpeThresholdsInfo {
            ppet_sixteen_nsts_ru_0: a16,
            ppet_eight_nsts_ru_0: a8,
            ppet_sixteen_nsts_ru_1: b16,
            ppet_eight_nsts_ru_1: b8,
            ppet_sixteen_nsts_ru_2: c16,
            ppet_eight_nsts_ru_2: c8,
            ppet_sixteen_nsts_ru_3: d16,
            ppet_eight_nsts_ru_3: d8,
        }
    }

    /// Whether `f` is the displayable field of this stream's thresholds under `title`: one
    /// subfield per present threshold over the thresholds' own packed bits.
    pub open spec fn field_shows(&self, f: Field, title: Seq<char>) -> bool {
        let e = self.entries();
        let b = pack_bits(self.bits());
        &&& f.title@ == title
        &&& f.value@ == ""@
        &&& f.bytes matches Some(x) && x@ == b
        &&& f.byte is None
        &&& f.bits is None
        &&& f.units is None
        &&& f.subfields@.len() == e.len()
        &&& forall|i: int|
            0 <= i < e.len() ==> bit_field_is(
                #[trigger] f.subfields@[i],
                e[i].0,
                e[i].1.spec_text(),
                Some(paren_decimal(e[i].1.spec_to_u8() as nat)),
                b,
                3 * i,
                3,
            )
    }

    /// The present thresholds with their titles, in order.
    pub fn entries_vec(&self) -> (entries: Vec<(&'static str, TransmissionConstellation)>)
        ensures
            entries@.len() == self.entries().len(),
            entries@.len() <= 8,
            forall|q: int|
                0 <= q < entries@.len() ==> (#[trigger] entries@[q]).0@ == self.entries()[q].0
                    && entries@[q].1 == self.entries()[q].1,
    {
        let mut slots: Vec<(&'static str, Option<TransmissionConstellation>)> = Vec::new();
        slots.push(("RU 242 PPET16", self.ppet_sixteen_nsts_ru_0));
        slots.push(("RU 242 PPET8", self.ppet_eight_nsts_ru_0));
        slots.push(("RU 484 PPET16", self.ppet_sixteen_nsts_ru_1));
        slots.push(("RU 484 PPET8", self.ppet_eight_nsts_ru_1));
        slots.push(("RU 996 PPET16", self.ppet_sixteen_nsts_ru_2));
        slots.push(("RU 996 PPET8", self.ppet_eight_nsts_ru_2));
        slots.push(("RU 2x996 PPET16", self.ppet_sixteen_nsts_ru_3));
        slots.push(("RU 2x996 PPET8", self.ppet_eight_nsts_ru_3));
        let ghost sl = self.slots();
        assert(slots@.len() == 8);
        assert(forall|k: int| 0 <= k < 8 ==> (#[trigger] slots@[k]).0@ == sl[k].0 && slots@[k].1 == sl[k].1);
        let mut entries: Vec<(&'static str, TransmissionConstellation)> = Vec::new();
        let mut k: usize = 0;
        while k < 8
            invariant
                k <= 8,
                slots@.len() == 8,
                sl == self.slots(),
                forall|q: int| 0 <= q < 8 ==> (#[trigger] slots@[q]).0@ == sl[q].0 && slots@[q].1 == sl[q].1,
                entries@.len() == present_thresholds(sl.take(k as int)).len(),
                forall|q: int|
                    0 <= q < entries@.len() ==> (#[trigger] entries@[q]).0@ == present_thresholds(
                        sl.take(k as int),
                    )[q].0 && entries@[q].1 == present_thresholds(sl.take(k as int))[q].1,
                entries@.len() <= k,
            decreases 8 - k,
        {
            let ghost pe = present_thresholds(sl.take(k as int));
            proof {
                assert(sl.take(k + 1).drop_last() =~= sl.take(k as int));
                assert(sl.take(k + 1).last() == sl[k as int]);
            }
            let (t, o) = slots[k];
            if let Some(v) = o {
                entries.push((t, v));
            }
            k = k + 1;
        }
        proof {
            assert(sl.take(8) =~= sl);
        }
        entries
    }

    /// Appends the encoded bits of the thresholds: three per present threshold.
    pub fn push_bits(&self, bits: &mut Vec<bool>)
        ensures
            final(bits)@ == old(bits)@ + self.bits(),
    {
        let entries = self.entries_vec();
        let ghost e = self.entries();
        let mut i: usize = 0;
        while i < entries.len()
            invariant
                entries@.len() == e.len(),
                e == self.entries(),
                forall|q: int| 0 <= q < entries@.len() ==> (#[trigger] entries@[q]).0@ == e[q].0 && entries@[q].1 == e[q].1,
                i <= entries@.len(),
                bits@ == old(bits)@ + threshold_bits(e.take(i as int)),
            decreases entries@.len() - i,
        {
            let (_, v) = entries[i];
            let ghost before = bits@;
            push_code_bits(bits, v.to_u8(), 3);
            proof {
                assert(e.take(i + 1).drop_last() =~= e.take(i as int));
                assert(threshold_bits(e.take(i + 1)) == threshold_bits(e.take(i as int)) + code_bits(
                    v.spec_to_u8() as nat,
                    3,
                ));
                assert(bits@ =~= old(bits)@ + threshold_bits(e.take(i + 1)));
            }
            i = i + 1;
        }
        proof {
            assert(e.take(e.len() as int) =~= e);
        }
    }

    /// The stream's thresholds as a displayable field. The bitmask is the one they were parsed
    /// with; the thresholds present already reflect it.
    pub fn to_field(&self, title: &str, ru_index_bitmask: u8) -> (f: Field)
        ensures
            self.field_shows(f, title@),
    {
        let entries = self.entries_vec();
        let ghost e = self.entries();
        let mut bits: Vec<bool> = Vec::new();
        self.push_bits(&mut bits);
        assert(bits@ =~= self.bits());
        proof {
            lemma_threshold_bits_len(e);
        }
        let bytes = pack_bit_vec(&bits);
        let mut sub: Vec<Field> = Vec::new();
        let mut i: usize = 0;
        while i < entries.len()
            invariant
                entries@.len() == e.len(),
                e.len() <= 8,
                forall|q: int| 0 <= q < entries@.len() ==> (#[trigger] entries@[q]).0@ == e[q].0 && entries@[q].1 == e[q].1,
                bytes@ == pack_bits(self.bits()),
                i <= entries@.len(),
                sub@.len() == i,
                forall|q: int|
                    0 <= q < i ==> bit_field_is(
                        #[trigger] sub@[q],
                        e[q].0,
                        e[q].1.spec_text(),
                        Some(paren_decimal(e[q].1.spec_to_u8() as nat)),
                        bytes@,
                        3 * q,
                        3,
                    ),
            decreases entries@.len() - i,
        {
            let (t, v) = entries[i];
            sub.push(bit_field_with_units(t, v.to_string(), paren_text(v.to_u8() as u64), bytes.as_slice(), 3 * i, 3));
            i = i + 1;
        }
        Field::new(title, "").with_bytes(bytes).with_subfields(sub)
    }
}

/// Three bits per threshold.
pub proof fn lemma_threshold_bits_len(e: Seq<(Seq<char>, TransmissionConstellation)>)
    ensures
        threshold_bits(e).len() == 3 * e.len(),
    decreases e.len(),
{
    if e.len() > 0 {
        lemma_threshold_bits_len(e.drop_last());
        lemma_code_bits_len(e.last().1.spec_to_u8() as nat, 3);
    }
}

/// Reads the 3-bit constellation code at bit `off`.
fn read_constellation(bytes: &[u8], off: usize) -> (t: TransmissionConstellation)
    requires
        off + 3 <= bytes@.len() * 8,
        off + 3 <= usize::MAX,
    ensures
        t == constellation_at(bytes@, off as int),
{
    match TransmissionConstellation::from_u8(read_u8_bits(bytes, off, 3)) {
        Some(t) => t,
        None => TransmissionConstellation::Bpsk,
    }
}

/// The number of bits of PPE thresholds before padding: the 3-bit NSTS, the 4-bit RU index
/// bitmask, and six bits for each selected RU of each of the `streams` streams.
pub open spec fn spec_ppe_bit_len(streams: nat, mask: u8) -> nat {
    7 + 6 * streams * ru_rank(mask, 4)
}

/// The number of padding bits that complete the last byte.
pub open spec fn spec_ppe_pad_len(bit_len: nat) -> nat {
    ((8 - bit_len % 8) % 8) as nat
}

/// The bits of a list of per-stream thresholds, in order.
pub open spec fn infos_bits(infos: Seq<PpeThresholdsInfo>) -> Seq<bool>
    decreases infos.len(),
{
    if infos.len() == 0 {
        seq![]
    } else {
        infos_bits(infos.drop_last()) + infos.last().bits()
    }
}

/// PPE thresholds: the packet extension thresholds for each spatial stream and resource unit
/// size.
#[derive(Debug, Clone, PartialEq, Eq, Hash)]
pub struct PpeThresholds {
    pub nsts: u8,
    pub ru_index_bitmask: u8,
    pub ppe_thresholds_info: Vec<PpeThresholdsInfo>,
    /// The padding bits that complete the last byte.
    pub ppe_pad: u8,
}

impl PpeThresholds {
    /// The shape a parse produces: a 3-bit NSTS, a 4-bit bitmask, one entry per stream
    /// (NSTS + 1) holding exactly the selected RUs, and padding that fits its bits.
    pub open spec fn spec_wf(&self) -> bool {
        let n = self.ppe_thresholds_info@.len();
        &&& self.nsts < 8
        &&& self.ru_index_bitmask < 16
        &&& n == self.nsts + 1
        &&& forall|i: int| 0 <= i < n ==> #[trigger] self.ppe_thresholds_info@[i].fits_mask(self.ru_index_bitmask)
        &&& (self.ppe_pad as nat) < two_pow(spec_ppe_pad_len(spec_ppe_bit_len(n, self.ru_index_bitmask)))
    }

    /// The encoded bits: NSTS, bitmask, each stream's thresholds, padding.
    pub open spec fn bits(&self) -> Seq<bool> {
        let n = self.ppe_thresholds_info@.len();
        code_bits(self.nsts as nat, 3) + code_bits(self.ru_index_bitmask as nat, 4) + infos_bits(
            self.ppe_thresholds_info@,
        ) + code_bits(
            self.ppe_pad as nat,
            spec_ppe_pad_len(spec_ppe_bit_len(n, self.ru_index_bitmask)),
        )
    }

    /// The encoded bytes.
    pub open spec fn raw(&self) -> Seq<u8> {
        pack_bits(self.bits())
    }

    /// The number of bytes the thresholds take when their first byte is `first`.
    pub open spec fn spec_len_from(first: u8) -> nat {
        let nsts = bits_value(seq![first], 0, 3);
        let mask = bits_value(seq![first], 3, 4) as u8;
        ((spec_ppe_bit_len((nsts + 1) as nat, mask) + 7) / 8) as nat
    }

    /// The thresholds are the ones encoded at the start of `b`, and have the shape a parse
    /// produces.
    pub open spec fn spec_parsed_from(&self, b: Seq<u8>) -> bool {
        let p = ru_rank(self.ru_index_bitmask, 4);
        let total = spec_ppe_bit_len((self.nsts + 1) as nat, self.ru_index_bitmask);
        &&& self.spec_wf()
        &&& self.nsts == bits_value(b, 0, 3)
        &&& self.ru_index_bitmask == bits_value(b, 3, 4)
        &&& forall|i: int|
            0 <= i <= self.nsts ==> #[trigger] self.ppe_thresholds_info@[i] == spec_ppe_info_at(
                b,
                self.ru_index_bitmask,
                7 + 6 * p * i,
            )
        &&& self.ppe_pad == bits_value(b, total as int, spec_ppe_pad_len(total))
    }

    /// Parses PPE thresholds from the start of `bytes`. `None` when `bytes` is empty or shorter
    /// than the thresholds its first byte announces.
    #[verifier::rlimit(100)]
    pub fn from_bytes(bytes: &[u8]) -> (r: Option<PpeThresholds>)
        ensures
            r is Some <==> bytes@.len() >= 1 && bytes@.len() >= Self::spec_len_from(bytes@[0]),
            r matches Some(t) ==> t.spec_parsed_from(bytes@),
    {
        if bytes.len() < 1 {
            return None;
        }
        let (nsts, mask) = read_ppe_header(bytes);
        let p = ru_count(mask);
        let streams: usize = nsts as usize + 1;
        let total = ppe_bit_len(streams, mask, p);
        let need = (total + 7) / 8;
        if bytes.len() < need {
            return None;
        }
        let infos = read_ppe_infos(bytes, mask, streams, p, total);
        let pad_len = (8 - total % 8) % 8;
        let pad = read_u8_bits(bytes, total, pad_len);
        proof {
            lemma_bits_value_bound(bytes@, total as int, pad_len as nat);
        }
        let t = PpeThresholds { nsts, ru_index_bitmask: mask, ppe_thresholds_info: infos, ppe_pad: pad };
        assert(t.spec_wf());
        assert(t.spec_parsed_from(bytes@));
        Some(t)
    }

    /// Appends the encoded bits of the streams' thresholds.
    fn push_infos_bits(&self, bits: &mut Vec<bool>)
        ensures
            final(bits)@ == old(bits)@ + infos_bits(self.ppe_thresholds_info@),
    {
        let v = &self.ppe_thresholds_info;
        let mut i: usize = 0;
        while i < v.len()
            invariant
                i <= v@.len(),
                v@ == self.ppe_thresholds_info@,
                bits@ == old(bits)@ + infos_bits(v@.take(i as int)),
            decreases v@.len() - i,
        {
            let ghost before = bits@;
            v[i].push_bits(bits);
            proof {
                assert(v@.take(i + 1).drop_last() =~= v@.take(i as int));
                assert(bits@ =~= old(bits)@ + infos_bits(v@.take(i + 1)));
            }
            i = i + 1;
        }
        proof {
            assert(v@.take(v@.len() as int) =~= v@);
        }
    }

    /// The encoded bytes.
    pub fn to_bytes(&self) -> (v: Vec<u8>)
        requires
            self.spec_wf(),
        ensures
            v@ == self.raw(),
    {
        let mut bits: Vec<bool> = Vec::new();
        push_code_bits(&mut bits, self.nsts, 3);
        push_code_bits(&mut bits, self.ru_index_bitmask, 4);
        self.push_infos_bits(&mut bits);
        let p = ru_count(self.ru_index_bitmask);
        let streams = self.ppe_thresholds_info.len();
        let total = ppe_bit_len(streams, self.ru_index_bitmask, p);
        let pad_len = (8 - total % 8) % 8;
        proof {
            lemma_infos_bits_len(self.ppe_thresholds_info@, self.ru_index_bitmask);
            lemma_code_bits_len(self.nsts as nat, 3);
            lemma_code_bits_len(self.ru_index_bitmask as nat, 4);
        }
        push_code_bits(&mut bits, self.ppe_pad, pad_len);
        assert(bits@ =~= self.bits());
        proof {
            lemma_code_bits_len(self.ppe_pad as nat, pad_len as nat);
        }
        assert(bits@.len() <= 1024);
        pack_bit_vec(&bits)
    }

    /// Whether `f` is the displayable field of these thresholds.
    pub open spec fn field_shows(&self, f: Field) -> bool {
        let b = self.raw();
        let n = self.ppe_thresholds_info@.len();
        &&& f.title@ == "PPE Thresholds"@
        &&& f.value@ == ""@
        &&& f.bytes matches Some(x) && x@ == b
        &&& f.byte is None
        &&& f.bits is None
        &&& f.units is None
        &&& f.subfields@.len() == 2 + n
        &&& bit_field_is(f.subfields@[0], "NSTS"@, decimal(self.nsts as nat), None, seq![b[0]], 0, 3)
        &&& bit_field_is(f.subfields@[1], "RU Index Bitmask"@, decimal(self.ru_index_bitmask as nat), None, seq![b[0]], 3, 4)
        &&& forall|i: int|
            0 <= i < n ==> #[trigger] self.ppe_thresholds_info@[i].field_shows(
                f.subfields@[2 + i],
                "NSS "@ + decimal(i as nat),
            )
    }

    /// The thresholds as a displayable field: NSTS, the bitmask, then one field per stream.
    pub fn to_field(&self) -> (f: Field)
        requires
            self.spec_wf(),
        ensures
            self.field_shows(f),
    {
        let bytes = self.to_bytes();
        proof {
            lemma_infos_bits_len(self.ppe_thresholds_info@, self.ru_index_bitmask);
            lemma_code_bits_len(self.nsts as nat, 3);
            lemma_code_bits_len(self.ru_index_bitmask as nat, 4);
        }
        let b0 = bytes[0];
        let mut sub: Vec<Field> = Vec::new();
        sub.push(Field::text("NSTS", u64_text(self.nsts as u64)).with_bits(BitRange::from_byte(b0, 0, 3)));
        sub.push(Field::text("RU Index Bitmask", u64_text(self.ru_index_bitmask as u64)).with_bits(BitRange::from_byte(b0, 3, 4)));
        let v = &self.ppe_thresholds_info;
        let mut i: usize = 0;
        while i < v.len()
            invariant
                i <= v@.len(),
                v@ == self.ppe_thresholds_info@,
                v@.len() <= 8,
                sub@.len() == 2 + i,
                bit_field_is(sub@[0], "NSTS"@, decimal(self.nsts as nat), None, seq![b0], 0, 3),
                bit_field_is(sub@[1], "RU Index Bitmask"@, decimal(self.ru_index_bitmask as nat), None, seq![b0], 3, 4),
                forall|j: int|
                    0 <= j < i ==> #[trigger] v@[j].field_shows(sub@[2 + j], "NSS "@ + decimal(j as nat)),
            decreases v@.len() - i,
        {
            let mut title = String::from_str("NSS ");
            title.append(u64_text(i as u64).as_str());
            sub.push(v[i].to_field(title.as_str(), self.ru_index_bitmask));
            i = i + 1;
        }
        Field::new("PPE Thresholds", "").with_bytes(bytes).with_subfields(sub)
    }
}

/// Each stream whose thresholds fit the bitmask contributes six bits per selected RU.
pub proof fn lemma_infos_bits_len(infos: Seq<PpeThresholdsInfo>, mask: u8)
    requires
        forall|i: int| 0 <= i < infos.len() ==> #[trigger] infos[i].fits_mask(mask),
    ensures
        infos_bits(infos).len() == 6 * infos.len() * ru_rank(mask, 4),
    decreases infos.len(),
{
    if infos.len() == 0 {
        assert(6 * infos.len() * ru_rank(mask, 4) == 0) by (nonlinear_arith)
            requires
                infos.len() == 0,
        ;
    } else {
        let d = infos.drop_last();
        assert forall|i: int| 0 <= i < d.len() implies #[trigger] d[i].fits_mask(mask) by {
            assert(d[i] == infos[i]);
        }
        lemma_infos_bits_len(d, mask);
        let last = infos.last();
        assert(last == infos[infos.len() - 1]);
        assert(infos_bits(infos) == infos_bits(d) + last.bits());
        lemma_info_bits_len(last, mask);
        assert(6 * d.len() * ru_rank(mask, 4) + 6 * ru_rank(mask, 4) == 6 * infos.len() * ru_rank(mask, 4)) by (nonlinear_arith)
            requires
                d.len() + 1 == infos.len(),
        ;
    }
}

/// A stream's thresholds that fit the bitmask take six bits per selected RU.
pub proof fn lemma_info_bits_len(info: PpeThresholdsInfo, mask: u8)
    requires
        info.fits_mask(mask),
    ensures
        info.bits().len() == 6 * ru_rank(mask, 4),
{
    reveal_with_fuel(ru_rank, 5);
    reveal_with_fuel(present_thresholds, 9);
    lemma_threshold_bits_len(info.entries());
    let s = info.slots();
    assert(s.drop_last().drop_last().drop_last().drop_last().drop_last().drop_last().drop_last().drop_last() =~= Seq::<(Seq<char>, Option<TransmissionConstellation>)>::empty());
}

/// Reads the NSTS and RU index bitmask from the first byte.
fn read_ppe_header(bytes: &[u8]) -> (r: (u8, u8))
    requires
        bytes@.len() >= 1,
    ensures
        r.0 == bits_value(bytes@, 0, 3),
        r.1 == bits_value(bytes@, 3, 4),
        r.0 == bits_value(seq![bytes@[0]], 0, 3),
        r.1 == bits_value(seq![bytes@[0]], 3, 4),
        r.0 < 8,
        r.1 < 16,
{
    let first = [bytes[0]];
    proof {
        assert(first@ =~= seq![bytes@[0]]);
        assert(bytes@.subrange(0, 1) =~= first@);
        lemma_bits_prefix(bytes@, first@, 0, 3);
        lemma_bits_prefix(bytes@, first@, 3, 4);
        lemma_bits_value_bound(first@, 0, 3);
        lemma_bits_value_bound(first@, 3, 4);
        reveal_with_fuel(two_pow, 5);
    }
    (read_u8_bits(first.as_slice(), 0, 3), read_u8_bits(first.as_slice(), 3, 4))
}

/// The number of RUs a bitmask selects.
fn ru_count(mask: u8) -> (p: usize)
    ensures
        p == ru_rank(mask, 4),
        p <= 4,
{
    proof {
        reveal_with_fuel(ru_rank, 5);
    }
    let m = [mask];
    proof {
        assert(m@ =~= seq![mask]);
    }
    let mut p: usize = 0;
    if read_bit(m.as_slice(), 0) {
        p = p + 1;
    }
    if read_bit(m.as_slice(), 1) {
        p = p + 1;
    }
    if read_bit(m.as_slice(), 2) {
        p = p + 1;
    }
    if read_bit(m.as_slice(), 3) {
        p = p + 1;
    }
    p
}

/// Reads the thresholds of `streams` streams, stream `i` starting at bit `7 + 6 * p * i`.
fn read_ppe_infos(bytes: &[u8], mask: u8, streams: usize, p: usize, total: usize) -> (infos: Vec<PpeThresholdsInfo>)
    requires
        streams <= 8,
        p == ru_rank(mask, 4),
        p <= 4,
        total == 7 + 6 * streams * p,
        total <= 8 * bytes@.len(),
    ensures
        infos@.len() == streams,
        forall|j: int| 0 <= j < streams ==> #[trigger] infos@[j] == spec_ppe_info_at(bytes@, mask, 7 + 6 * p * j),
        forall|j: int| 0 <= j < streams ==> #[trigger] infos@[j].fits_mask(mask),
{
    let mut infos: Vec<PpeThresholdsInfo> = Vec::new();
    let mut i: usize = 0;
    while i < streams
        invariant
            streams <= 8,
            p == ru_rank(mask, 4),
            p <= 4,
            total == 7 + 6 * streams * p,
            total <= 8 * bytes@.len(),
            i <= streams,
            infos@.len() == i,
            forall|j: int|
                0 <= j < i ==> #[trigger] infos@[j] == spec_ppe_info_at(bytes@, mask, 7 + 6 * p * j),
            forall|j: int| 0 <= j < i ==> #[trigger] infos@[j].fits_mask(mask),
        decreases streams - i,
    {
        assert(6 * p * i + 6 * p <= 6 * streams * p) by (nonlinear_arith)
            requires
                i < streams,
        ;
        assert(6 * p * i <= 192) by (nonlinear_arith)
            requires
                i < 8,
                p <= 4,
        ;
        let info = PpeThresholdsInfo::read(bytes, mask, 7 + 6 * p * i);
        infos.push(info);
        i = i + 1;
    }
    infos
}

/// The bit length of thresholds for `streams` streams, before padding.
fn ppe_bit_len(streams: usize, mask: u8, p: usize) -> (total: usize)
    requires
        1 <= streams <= 8,
        p == ru_rank(mask, 4),
        p <= 4,
    ensures
        total == spec_ppe_bit_len(streams as nat, mask),
        total == 7 + 6 * streams * p,
        total <= 199,
{
    assert(streams * p <= 32) by (nonlinear_arith)
        requires
            streams <= 8,
            p <= 4,
    ;
    let sp: usize = streams * p;
    assert(6 * sp == 6 * streams * p) by (nonlinear_arith)
        requires
            sp == streams * p,
    ;
    7 + 6 * sp
}

/// The supported channel width set of the HE PHY capabilities at the start of `b`.
pub open spec fn spec_width_set_of(phy: Seq<u8>) -> u8 {
    bits_value(phy, 1, 7) as u8
}

/// The layout of an HE Capabilities body: MAC (6 bytes) and PHY (11 bytes) capabilities, the
/// MCS set the PHY's width set calls for, then PPE thresholds when the PHY announces them.
pub open spec fn spec_he_capabilities_valid(b: Seq<u8>) -> bool {
    let phy = b.subrange(6, 17);
    let off = 17 + spec_he_set_len(spec_width_set_of(phy));
    &&& b.len() >= 17
    &&& HeMacCapabilitiesInformation::spec_valid(b.subrange(0, 6))
    &&& HePhyCapabilitiesInformation::spec_valid(phy)
    &&& b.len() >= off
    &&& bit_set(phy, 55) ==> b.len() > off && b.len() - off >= PpeThresholds::spec_len_from(b[off as int])
}

/// An HE Capabilities element (802.11ax).
#[derive(Debug, Clone, PartialEq, Eq, Hash)]
pub struct HeCapabilities {
    pub he_mac_capabilities_information: HeMacCapabilitiesInformation,
    pub he_phy_capabilities_information: HePhyCapabilitiesInformation,
    pub supported_he_mcs_and_nss_set: SupportedHeMcsAndNssSet,
    pub ppe_thresholds: Option<PpeThresholds>,
}

impl HeCapabilities {
    pub const NAME: &'static str = "HE Capabilities";
    pub const ID: u8 = 255;
    pub const LENGTH: usize = 22;

    /// The element ID extension.
    pub fn id_ext() -> (r: Option<u8>)
        ensures
            r == Some(35u8),
    {
        Some(35)
    }

    /// The element's parts are the ones encoded in `b`.
    pub open spec fn spec_parsed_from(&self, b: Seq<u8>) -> bool {
        let ws = self.he_phy_capabilities_information.spec_supported_channel_width_set();
        let off = 17 + spec_he_set_len(ws);
        &&& self.he_mac_capabilities_information.raw() == b.subrange(0, 6)
        &&& self.he_phy_capabilities_information.raw() == b.subrange(6, 17)
        &&& self.supported_he_mcs_and_nss_set.raw() == b.subrange(17, off as int)
        &&& (self.ppe_thresholds is Some <==> self.he_phy_capabilities_information.spec_ppe_thresholds_present())
        &&& self.ppe_thresholds matches Some(t) ==> t.spec_parsed_from(b.subrange(off as int, b.len() as int))
    }

    /// The PPE thresholds, when present, have the shape a parse produces.
    pub open spec fn spec_wf(&self) -> bool {
        self.ppe_thresholds matches Some(t) ==> t.spec_wf()
    }

    /// Parses the element body. `None` when it is too short for the parts it announces.
    pub fn from_bytes(bytes: &[u8]) -> (r: Option<HeCapabilities>)
        ensures
            r is Some <==> spec_he_capabilities_valid(bytes@),
            r matches Some(c) ==> c.spec_parsed_from(bytes@) && c.spec_wf(),
    {
        if bytes.len() < 17 {
            return None;
        }
        proof {
            assert(bytes@.subrange(0, 6).subrange(0, 6) =~= bytes@.subrange(0, 6));
            assert(bytes@.subrange(6, 17).subrange(0, 11) =~= bytes@.subrange(6, 17));
        }
        let mac = match HeMacCapabilitiesInformation::from_bytes(vstd::slice::slice_subrange(bytes, 0, 6)) {
            Some(v) => v,
            None => return None,
        };
        let phy = match HePhyCapabilitiesInformation::from_bytes(vstd::slice::slice_subrange(bytes, 6, 17)) {
            Some(v) => v,
            None => return None,
        };
        let ws = phy.supported_channel_width_set();
        let rest = vstd::slice::slice_subrange(bytes, 17, bytes.len());
        let set = match SupportedHeMcsAndNssSet::from_bytes(rest, ws) {
            Some(v) => v,
            None => return None,
        };
        let w = [ws];
        proof {
            assert(w@ =~= seq![ws]);
        }
        let has160 = read_bit(w.as_slice(), 2);
        let has8080 = read_bit(w.as_slice(), 3);
        let off: usize = 17 + 4 + (if has160 { 4 } else { 0 }) + (if has8080 { 4 } else { 0 });
        proof {
            assert(rest@.subrange(0, (off - 17) as int) =~= bytes@.subrange(17, off as int));
        }
        let ppe = if phy.ppe_thresholds_present() {
            let tail = vstd::slice::slice_subrange(bytes, off, bytes.len());
            if tail.len() == 0 {
                return None;
            }
            match PpeThresholds::from_bytes(tail) {
                Some(t) => Some(t),
                None => return None,
            }
        } else {
            None
        };
        Some(
            HeCapabilities {
                he_mac_capabilities_information: mac,
                he_phy_capabilities_information: phy,
                supported_he_mcs_and_nss_set: set,
                ppe_thresholds: ppe,
            },
        )
    }

    /// The highest receive MCS (80 MHz and below) of the highest supported spatial stream, 0
    /// when none is set.
    pub open spec fn spec_max_mcs(&self) -> u8 {
        let map = self.supported_he_mcs_and_nss_set.rx_he_mcs_map_less_than_or_equal_to_eighty_mhz;
        match map.spec_max_mcs_for_stream(map.spec_max_spatial_streams()) {
            Some(m) => m,
            None => 0,
        }
    }

    /// The highest receive MCS (80 MHz and below) of the highest supported spatial stream, 0
    /// when none is set.
    pub fn max_mcs(&self) -> (m: u8)
        ensures
            m == self.spec_max_mcs(),
    {
        let map = self.supported_he_mcs_and_nss_set.rx_he_mcs_map_less_than_or_equal_to_eighty_mhz;
        match map.max_mcs_for_stream(map.max_spatial_streams()) {
            Some(m) => m,
            None => 0,
        }
    }

    /// The one-line summary: the number of receive spatial streams at 80 MHz and below.
    pub open spec fn spec_summary(&self) -> Seq<char> {
        spatial_streams_text(
            self.supported_he_mcs_and_nss_set.rx_he_mcs_map_less_than_or_equal_to_eighty_mhz.spec_max_spatial_streams(),
        )
    }

    /// A one-line summary, for example `2 Spatial Streams`.
    pub fn summary(&self) -> (s: String)
        ensures
            s@ == self.spec_summary(),
    {
        spatial_streams_string(
            self.supported_he_mcs_and_nss_set.rx_he_mcs_map_less_than_or_equal_to_eighty_mhz.max_spatial_streams(),
        )
    }

    /// The element's fields: MAC and PHY capabilities, the MCS set, and the PPE thresholds
    /// when present.
    pub fn fields(&self) -> (v: Vec<Field>)
        requires
            self.spec_wf(),
        ensures
            v@.len() == 3 + (if self.ppe_thresholds is Some { 1int } else { 0int }),
            self.he_mac_capabilities_information.field_shows(v@[0]),
            self.he_phy_capabilities_information.field_shows(v@[1]),
            self.supported_he_mcs_and_nss_set.field_shows(v@[2]),
            self.ppe_thresholds matches Some(t) ==> t.field_shows(v@[3]),
    {
        let ws = self.he_phy_capabilities_information.supported_channel_width_set();
        let mut v: Vec<Field> = Vec::new();
        v.push(self.he_mac_capabilities_information.to_field());
        v.push(self.he_phy_capabilities_information.to_field());
        v.push(self.supported_he_mcs_and_nss_set.to_field(ws));
        if let Some(t) = &self.ppe_thresholds {
            v.push(t.to_field());
        }
        v
    }
}

} // verus!
