//! The Extended Capabilities element: a variable-length set of capability bits.
use vstd::prelude::*;

use crate::bits::{bit_set, bits_value, lemma_bits_value_bound, read_bit, read_u8_bits, two_pow};
use crate::ies::field::{bit_field, bit_field_is, reserved_field_is, BitRange, Field};
use crate::text::{bool_string, bool_text, decimal, u64_text};

verus! {

/// The maximum number of MSDUs in an A-MSDU that a station supports.
#[derive(Debug, Clone, Copy, PartialEq, Eq, Structural, Hash)]
pub enum MaxMsdus {
    NoLimit,
    ThirtyTwo,
    Sixteen,
    Eight,
}

impl MaxMsdus {
    /// The value encoded by a raw code, if the code is defined.
    pub open spec fn spec_from_u8(v: u8) -> Option<MaxMsdus> {
        if v == 0 {
            Some(MaxMsdus::NoLimit)
        } else if v == 1 {
            Some(MaxMsdus::ThirtyTwo)
        } else if v == 2 {
            Some(MaxMsdus::Sixteen)
        } else if v == 3 {
            Some(MaxMsdus::Eight)
        } else {
            None
        }
    }

    /// The raw code of the value.
    pub open spec fn spec_to_u8(self) -> u8 {
        match self {
            MaxMsdus::NoLimit => 0,
            MaxMsdus::ThirtyTwo => 1,
            MaxMsdus::Sixteen => 2,
            MaxMsdus::Eight => 3,
        }
    }

    /// The human-readable text of the value.
    pub open spec fn spec_text(self) -> Seq<char> {
        match self {
            MaxMsdus::NoLimit => "No Limit"@,
            MaxMsdus::ThirtyTwo => "32"@,
            MaxMsdus::Sixteen => "16"@,
            MaxMsdus::Eight => "8"@,
        }
    }

    /// Decodes a raw code; `None` for an undefined code.
    pub fn from_u8(v: u8) -> (r: Option<MaxMsdus>)
        ensures
            r == Self::spec_from_u8(v),
    {
        match v {
            0 => Some(MaxMsdus::NoLimit),
            1 => Some(MaxMsdus::ThirtyTwo),
            2 => Some(MaxMsdus::Sixteen),
            3 => Some(MaxMsdus::Eight),
            _ => None,
        }
    }

    /// The raw code of the value.
    pub fn to_u8(&self) -> (v: u8)
        ensures
            v == self.spec_to_u8(),
            Self::spec_from_u8(v) == Some(*self),
    {
        match self {
            MaxMsdus::NoLimit => 0,
            MaxMsdus::ThirtyTwo => 1,
            MaxMsdus::Sixteen => 2,
            MaxMsdus::Eight => 3,
        }
    }

    /// The human-readable text of the value.
    pub fn to_string(&self) -> (s: String)
        ensures
            s@ == self.spec_text(),
    {
        match self {
            MaxMsdus::NoLimit => String::from_str("No Limit"),
            MaxMsdus::ThirtyTwo => String::from_str("32"),
            MaxMsdus::Sixteen => String::from_str("16"),
            MaxMsdus::Eight => String::from_str("8"),
        }
    }
}

/// Decoding a value's own code gives the value back.
pub proof fn lemma_max_msdus_code_roundtrip(v: MaxMsdus)
    ensures
        MaxMsdus::spec_from_u8(v.spec_to_u8()) == Some(v),
{
}

/// An Extended Capabilities element. Its bytes hold capability bits, bit 0 being the least
/// significant bit of the first byte; a bit beyond the end of the element is not set.
#[derive(Debug, Clone, PartialEq, Eq, Hash)]
pub struct ExtendedCapabilities {
    bytes: Vec<u8>,
}

/// Builds a leaf field for `len` bits of a single byte, from bit `start`.
fn byte_bits_field(title: &str, value: String, byte: u8, start: usize, len: usize) -> (f: Field)
    ensures
        bit_field_is(f, title@, value@, None, seq![byte], start as int, len as int),
{
    Field::text(title, value).with_bits(BitRange::from_byte(byte, start, len))
}

impl ExtendedCapabilities {
    pub const NAME: &'static str = "Extended Capabilities";
    pub const ID: u8 = 127;
    pub const ID_EXT: Option<u8> = None;

    /// The element body.
    pub closed spec fn raw(&self) -> Seq<u8> {
        self.bytes@
    }

    /// The number of capability bits the element carries.
    pub open spec fn spec_bit_count(&self) -> int {
        8 * self.raw().len() as int
    }

    /// Capability bit `i`; false when the element is too short to carry it.
    pub open spec fn spec_bit(&self, i: int) -> bool {
        0 <= i < self.spec_bit_count() && bit_set(self.raw(), i)
    }

    /// Parses the element body. Every byte string is a valid body.
    pub fn from_bytes(bytes: &[u8]) -> (r: ExtendedCapabilities)
        ensures
            r.raw() == bytes@,
    {
        ExtendedCapabilities { bytes: vstd::slice::slice_to_vec(bytes) }
    }

    /// The element body.
    pub fn to_bytes(&self) -> (v: Vec<u8>)
        ensures
            v@ == self.raw(),
    {
        self.bytes.clone()
    }

    /// Capability bit `index`; false when the element is too short to carry it.
    fn bit(&self, index: usize) -> (b: bool)
        ensures
            b == self.spec_bit(index as int),
    {
        if index / 8 < self.bytes.len() {
            read_bit(self.bytes.as_slice(), index)
        } else {
            false
        }
    }

    /// Whether the element is long enough to carry bit `index`.
    fn has_bit(&self, index: usize) -> (b: bool)
        ensures
            b == (index < self.spec_bit_count()),
    {
        index / 8 < self.bytes.len()
    }

    /// The "20/40 BSS Coexistence Management Support" capability (bit 0).
    pub fn twenty_forty_bss_coexistence_management_support(&self) -> (b: bool)
        ensures
            b == self.spec_bit(0),
    {
        self.bit(0)
    }

    /// The "GLK" capability (bit 1).
    pub fn glk(&self) -> (b: bool)
        ensures
            b == self.spec_bit(1),
    {
        self.bit(1)
    }

    /// The "Extended Channel Switching" capability (bit 2).
    pub fn extended_channel_switching(&self) -> (b: bool)
        ensures
            b == self.spec_bit(2),
    {
        self.bit(2)
    }

    /// The "GLK-GCR" capability (bit 3).
    pub fn glk_gcr(&self) -> (b: bool)
        ensures
            b == self.spec_bit(3),
    {
        self.bit(3)
    }

    /// The "PSMP Capability" capability (bit 4).
    pub fn psmp_capability(&self) -> (b: bool)
        ensures
            b == self.spec_bit(4),
    {
        self.bit(4)
    }

    /// The "S-PSMP Support" capability (bit 6).
    pub fn spsmp_support(&self) -> (b: bool)
        ensures
            b == self.spec_bit(6),
    {
        self.bit(6)
    }

    /// The "Event" capability (bit 7).
    pub fn event(&self) -> (b: bool)
        ensures
            b == self.spec_bit(7),
    {
        self.bit(7)
    }

    /// The "Diagnostics" capability (bit 8).
    pub fn diagnostics(&self) -> (b: bool)
        ensures
            b == self.spec_bit(8),
    {
        self.bit(8)
    }

    /// The "Multicast Diagnostics" capability (bit 9).
    pub fn multicast_diagnostics(&self) -> (b: bool)
        ensures
            b == self.spec_bit(9),
    {
        self.bit(9)
    }

    /// The "Location Tracking" capability (bit 10).
    pub fn location_tracking(&self) -> (b: bool)
        ensures
            b == self.spec_bit(10),
    {
        self.bit(10)
    }

    /// The "FMS" capability (bit 11).
    pub fn fms(&self) -> (b: bool)
        ensures
            b == self.spec_bit(11),
    {
        self.bit(11)
    }

    /// The "Proxy ARP Service" capability (bit 12).
    pub fn proxy_arp_service(&self) -> (b: bool)
        ensures
            b == self.spec_bit(12),
    {
        self.bit(12)
    }

    /// The "Collocated Interference Reporting" capability (bit 13).
    pub fn collocated_interference_reporting(&self) -> (b: bool)
        ensures
            b == self.spec_bit(13),
    {
        self.bit(13)
    }

    /// The "Civic Location" capability (bit 14).
    pub fn civic_location(&self) -> (b: bool)
        ensures
            b == self.spec_bit(14),
    {
        self.bit(14)
    }

    /// The "Geospatial Location" capability (bit 15).
    pub fn geospatial_location(&self) -> (b: bool)
        ensures
            b == self.spec_bit(15),
    {
        self.bit(15)
    }

    /// The "TFS" capability (bit 16).
    pub fn tfs(&self) -> (b: bool)
        ensures
            b == self.spec_bit(16),
    {
        self.bit(16)
    }

    /// The "WNM Sleep Mode" capability (bit 17).
    pub fn wnm_sleep_mode(&self) -> (b: bool)
        ensures
            b == self.spec_bit(17),
    {
        self.bit(17)
    }

    /// The "TIM Broadcast" capability (bit 18).
    pub fn tim_broadcast(&self) -> (b: bool)
        ensures
            b == self.spec_bit(18),
    {
        self.bit(18)
    }

    /// The "BSS Transition" capability (bit 19).
    pub fn bss_transition(&self) -> (b: bool)
        ensures
            b == self.spec_bit(19),
    {
        self.bit(19)
    }

    /// The "QoS Traffic Capability" capability (bit 20).
    pub fn qos_traffic_capability(&self) -> (b: bool)
        ensures
            b == self.spec_bit(20),
    {
        self.bit(20)
    }

    /// The "AC Station Count" capability (bit 21).
    pub fn ac_station_count(&self) -> (b: bool)
        ensures
            b == self.spec_bit(21),
    {
        self.bit(21)
    }

    /// The "Multiple BSSID" capability (bit 22).
    pub fn multiple_bssid(&self) -> (b: bool)
        ensures
            b == self.spec_bit(22),
    {
        self.bit(22)
    }

    /// The "Timing Measurement" capability (bit 23).
    pub fn timing_measurement(&self) -> (b: bool)
        ensures
            b == self.spec_bit(23),
    {
        self.bit(23)
    }

    /// The "Channel Usage" capability (bit 24).
    pub fn channel_usage(&self) -> (b: bool)
        ensures
            b == self.spec_bit(24),
    {
        self.bit(24)
    }

    /// The "SSID List" capability (bit 25).
    pub fn ssid_list(&self) -> (b: bool)
        ensures
            b == self.spec_bit(25),
    {
        self.bit(25)
    }

    /// The "DMS" capability (bit 26).
    pub fn dms(&self) -> (b: bool)
        ensures
            b == self.spec_bit(26),
    {
        self.bit(26)
    }

    /// The "UTC TSF Offset" capability (bit 27).
    pub fn utc_tsf_offset(&self) -> (b: bool)
        ensures
            b == self.spec_bit(27),
    {
        self.bit(27)
    }

    /// The "TPU Buffer STA Support" capability (bit 28).
    pub fn tpu_buffer_sta_support(&self) -> (b: bool)
        ensures
            b == self.spec_bit(28),
    {
        self.bit(28)
    }

    /// The "TDLS Peer PSM Support" capability (bit 29).
    pub fn tdls_peer_psm_support(&self) -> (b: bool)
        ensures
            b == self.spec_bit(29),
    {
        self.bit(29)
    }

    /// The "TDLS Channel Switching" capability (bit 30).
    pub fn tdls_channel_switching(&self) -> (b: bool)
        ensures
            b == self.spec_bit(30),
    {
        self.bit(30)
    }

    /// The "Interworking" capability (bit 31).
    pub fn interworking(&self) -> (b: bool)
        ensures
            b == self.spec_bit(31),
    {
        self.bit(31)
    }

    /// The "QoS Map" capability (bit 32).
    pub fn qos_map(&self) -> (b: bool)
        ensures
            b == self.spec_bit(32),
    {
        self.bit(32)
    }

    /// The "EBR" capability (bit 33).
    pub fn ebr(&self) -> (b: bool)
        ensures
            b == self.spec_bit(33),
    {
        self.bit(33)
    }

    /// The "SSPN Interface" capability (bit 34).
    pub fn sspn_interface(&self) -> (b: bool)
        ensures
            b == self.spec_bit(34),
    {
        self.bit(34)
    }

    /// The "MSGCF Capability" capability (bit 36).
    pub fn msgcf_capability(&self) -> (b: bool)
        ensures
            b == self.spec_bit(36),
    {
        self.bit(36)
    }

    /// The "TDLS Support" capability (bit 37).
    pub fn tdls_support(&self) -> (b: bool)
        ensures
            b == self.spec_bit(37),
    {
        self.bit(37)
    }

    /// The "TDLS Prohibited" capability (bit 38).
    pub fn tdls_prohibited(&self) -> (b: bool)
        ensures
            b == self.spec_bit(38),
    {
        self.bit(38)
    }

    /// The "TDLS Channel Switching Prohibited" capability (bit 39).
    pub fn tdls_channel_switching_prohibited(&self) -> (b: bool)
        ensures
            b == self.spec_bit(39),
    {
        self.bit(39)
    }

    /// The "Reject Unadmitted Frame" capability (bit 40).
    pub fn reject_unadmitted_frame(&self) -> (b: bool)
        ensures
            b == self.spec_bit(40),
    {
        self.bit(40)
    }

    /// The "Identifier Location" capability (bit 44).
    pub fn identifier_location(&self) -> (b: bool)
        ensures
            b == self.spec_bit(44),
    {
        self.bit(44)
    }

    /// The "U-APSD Coexistence" capability (bit 45).
    pub fn uapsd_coexistence(&self) -> (b: bool)
        ensures
            b == self.spec_bit(45),
    {
        self.bit(45)
    }

    /// The "WNM Notification" capability (bit 46).
    pub fn wnm_notification(&self) -> (b: bool)
        ensures
            b == self.spec_bit(46),
    {
        self.bit(46)
    }

    /// The "QAB Capability" capability (bit 47).
    pub fn qab_capability(&self) -> (b: bool)
        ensures
            b == self.spec_bit(47),
    {
        self.bit(47)
    }

    /// The "UTF-8 SSID" capability (bit 48).
    pub fn utf8_ssid(&self) -> (b: bool)
        ensures
            b == self.spec_bit(48),
    {
        self.bit(48)
    }

    /// The "QMF Activated" capability (bit 49).
    pub fn qmf_activated(&self) -> (b: bool)
        ensures
            b == self.spec_bit(49),
    {
        self.bit(49)
    }

    /// The "QMF Reconfiguration Activated" capability (bit 50).
    pub fn qmf_reconfiguration_activated(&self) -> (b: bool)
        ensures
            b == self.spec_bit(50),
    {
        self.bit(50)
    }

    /// The "Robust AV Streaming" capability (bit 51).
    pub fn robust_av_streaming(&self) -> (b: bool)
        ensures
            b == self.spec_bit(51),
    {
        self.bit(51)
    }

    /// The "Advanced GCR" capability (bit 52).
    pub fn advanced_gcr(&self) -> (b: bool)
        ensures
            b == self.spec_bit(52),
    {
        self.bit(52)
    }

    /// The "Mesh GCR" capability (bit 53).
    pub fn mesh_gcr(&self) -> (b: bool)
        ensures
            b == self.spec_bit(53),
    {
        self.bit(53)
    }

    /// The "SCS" capability (bit 54).
    pub fn scs(&self) -> (b: bool)
        ensures
            b == self.spec_bit(54),
    {
        self.bit(54)
    }

    /// The "QLoad Report" capability (bit 55).
    pub fn qload_report(&self) -> (b: bool)
        ensures
            b == self.spec_bit(55),
    {
        self.bit(55)
    }

    /// The "Alternate EDCA" capability (bit 56).
    pub fn alternate_edca(&self) -> (b: bool)
        ensures
            b == self.spec_bit(56),
    {
        self.bit(56)
    }

    /// The "Unprotected TXOP Negotiation" capability (bit 57).
    pub fn unprotected_txop_negotiation(&self) -> (b: bool)
        ensures
            b == self.spec_bit(57),
    {
        self.bit(57)
    }

    /// The "Protected TXOP Negotiation" capability (bit 58).
    pub fn protected_txop_negotiation(&self) -> (b: bool)
        ensures
            b == self.spec_bit(58),
    {
        self.bit(58)
    }

    /// The "Protected QLoad Report" capability (bit 60).
    pub fn protected_qload_report(&self) -> (b: bool)
        ensures
            b == self.spec_bit(60),
    {
        self.bit(60)
    }

    /// The "TDLS Wider Bandwidth" capability (bit 61).
    pub fn tdls_wider_bandwidth(&self) -> (b: bool)
        ensures
            b == self.spec_bit(61),
    {
        self.bit(61)
    }

    /// The "Operating Mode Notification" capability (bit 62).
    pub fn operating_mode_notification(&self) -> (b: bool)
        ensures
            b == self.spec_bit(62),
    {
        self.bit(62)
    }

    /// The "Channel Schedule Management" capability (bit 65).
    pub fn channel_schedule_management(&self) -> (b: bool)
        ensures
            b == self.spec_bit(65),
    {
        self.bit(65)
    }

    /// The "Geodatabase Inband Enabling Signal" capability (bit 66).
    pub fn geodatabase_inband_enabling_signal(&self) -> (b: bool)
        ensures
            b == self.spec_bit(66),
    {
        self.bit(66)
    }

    /// The "Network Channel Control" capability (bit 67).
    pub fn network_channel_control(&self) -> (b: bool)
        ensures
            b == self.spec_bit(67),
    {
        self.bit(67)
    }

    /// The "White Space Map" capability (bit 68).
    pub fn white_space_map(&self) -> (b: bool)
        ensures
            b == self.spec_bit(68),
    {
        self.bit(68)
    }

    /// The "Channel Availability Query" capability (bit 69).
    pub fn channel_availability_query(&self) -> (b: bool)
        ensures
            b == self.spec_bit(69),
    {
        self.bit(69)
    }

    /// The "Fine Timing Measurement Responder" capability (bit 70).
    pub fn fine_timing_measurement_responder(&self) -> (b: bool)
        ensures
            b == self.spec_bit(70),
    {
        self.bit(70)
    }

    /// The "Fine Timing Measurement Initiator" capability (bit 71).
    pub fn fine_timing_measurement_initiator(&self) -> (b: bool)
        ensures
            b == self.spec_bit(71),
    {
        self.bit(71)
    }

    /// The "FILS Capability" capability (bit 72).
    pub fn fils_capability(&self) -> (b: bool)
        ensures
            b == self.spec_bit(72),
    {
        self.bit(72)
    }

    /// The "Extended Spectrum Management Capable" capability (bit 73).
    pub fn extended_spectrum_management_capable(&self) -> (b: bool)
        ensures
            b == self.spec_bit(73),
    {
        self.bit(73)
    }

    /// The "Future Channel Guidance" capability (bit 74).
    pub fn future_channel_guidance(&self) -> (b: bool)
        ensures
            b == self.spec_bit(74),
    {
        self.bit(74)
    }

    /// The "PAD" capability (bit 75).
    pub fn pad(&self) -> (b: bool)
        ensures
            b == self.spec_bit(75),
    {
        self.bit(75)
    }

    /// The "Complete List of Non-TX BSSID Profiles" capability (bit 80).
    pub fn complete_list_of_non_tx_bssid_profiles(&self) -> (b: bool)
        ensures
            b == self.spec_bit(80),
    {
        self.bit(80)
    }

    /// The "SAE Password Identifiers In Use" capability (bit 81).
    pub fn sae_password_identifiers_in_use(&self) -> (b: bool)
        ensures
            b == self.spec_bit(81),
    {
        self.bit(81)
    }

    /// The "SAE Password Identifiers Used Exclusively" capability (bit 82).
    pub fn sae_password_identifiers_used_exclusively(&self) -> (b: bool)
        ensures
            b == self.spec_bit(82),
    {
        self.bit(82)
    }

    /// The "Beacon Protection Enabled" capability (bit 84).
    pub fn beacon_protection_enabled(&self) -> (b: bool)
        ensures
            b == self.spec_bit(84),
    {
        self.bit(84)
    }

    /// The "Mirrored SCS" capability (bit 85).
    pub fn mirrored_scs(&self) -> (b: bool)
        ensures
            b == self.spec_bit(85),
    {
        self.bit(85)
    }

    /// The "Local MAC Address Policy" capability (bit 87).
    pub fn local_mac_address_policy(&self) -> (b: bool)
        ensures
            b == self.spec_bit(87),
    {
        self.bit(87)
    }

    /// The Service Interval Granularity in milliseconds (bits 41-43: 5 ms times the code plus
    /// one), when the element carries those bits.
    pub open spec fn spec_service_interval_granularity_ms(&self) -> Option<u8> {
        if self.spec_bit_count() >= 44 {
            Some((5 * (bits_value(self.raw(), 41, 3) + 1)) as u8)
        } else {
            None
        }
    }

    /// The Service Interval Granularity in milliseconds (5 to 40), `None` when the element is
    /// too short to carry it.
    pub fn service_interval_granularity_ms(&self) -> (r: Option<u8>)
        ensures
            r == self.spec_service_interval_granularity_ms(),
    {
        if self.has_bit(43) {
            let v = read_u8_bits(self.bytes.as_slice(), 41, 3);
            proof {
                lemma_bits_value_bound(self.raw(), 41, 3);
                assert(two_pow(3) == 8) by {
                    reveal_with_fuel(two_pow, 4);
                }
            }
            Some(5 * (v + 1))
        } else {
            None
        }
    }

    /// The Max MSDUs in A-MSDU subfield (bits 63-64), when the element carries those bits.
    pub open spec fn spec_max_msdus_in_amsdu(&self) -> Option<MaxMsdus> {
        if self.spec_bit_count() >= 65 {
            MaxMsdus::spec_from_u8(bits_value(self.raw(), 63, 2) as u8)
        } else {
            None
        }
    }

    /// The Max MSDUs in A-MSDU subfield, `None` when the element is too short to carry it.
    pub fn max_msdus_in_amsdu(&self) -> (r: Option<MaxMsdus>)
        ensures
            r == self.spec_max_msdus_in_amsdu(),
            self.spec_bit_count() >= 65 ==> r is Some,
    {
        if self.has_bit(64) {
            let v = read_u8_bits(self.bytes.as_slice(), 63, 2);
            proof {
                lemma_bits_value_bound(self.raw(), 63, 2);
                assert(two_pow(2) == 4) by {
                    reveal_with_fuel(two_pow, 3);
                }
            }
            MaxMsdus::from_u8(v)
        } else {
            None
        }
    }

    /// The one-line summary, which is empty.
    pub fn summary(&self) -> (s: String)
        ensures
            s@ == ""@,
    {
        String::from_str("")
    }

    /// Whether `subs` are the subfields shown for octet `i` (0-based): one per capability of
    /// the octet whose bits the element carries, in bit order.
    pub open spec fn spec_octet_subfields(&self, i: int, subs: Seq<Field>) -> bool {
        if i == 0 {
            &&& subs.len() == 8
            &&& bit_field_is(subs[0], "20/40 BSS Coexistence Management Support"@, bool_text(self.spec_bit(0)), None, seq![self.raw()[0]], 0, 1)
            &&& bit_field_is(subs[1], "GLK"@, bool_text(self.spec_bit(1)), None, seq![self.raw()[0]], 1, 1)
            &&& bit_field_is(subs[2], "Extended Channel Switching"@, bool_text(self.spec_bit(2)), None, seq![self.raw()[0]], 2, 1)
            &&& bit_field_is(subs[3], "GLK-GCR"@, bool_text(self.spec_bit(3)), None, seq![self.raw()[0]], 3, 1)
            &&& bit_field_is(subs[4], "PSMP Capability"@, bool_text(self.spec_bit(4)), None, seq![self.raw()[0]], 4, 1)
            &&& reserved_field_is(subs[5], seq![self.raw()[0]], 5, 1)
            &&& bit_field_is(subs[6], "S-PSMP Support"@, bool_text(self.spec_bit(6)), None, seq![self.raw()[0]], 6, 1)
            &&& bit_field_is(subs[7], "Event"@, bool_text(self.spec_bit(7)), None, seq![self.raw()[0]], 7, 1)
        } else if i == 1 {
            &&& subs.len() == 8
            &&& bit_field_is(subs[0], "Diagnostics"@, bool_text(self.spec_bit(8)), None, seq![self.raw()[1]], 0, 1)
            &&& bit_field_is(subs[1], "Multicast Diagnostics"@, bool_text(self.spec_bit(9)), None, seq![self.raw()[1]], 1, 1)
            &&& bit_field_is(subs[2], "Location Tracking"@, bool_text(self.spec_bit(10)), None, seq![self.raw()[1]], 2, 1)
            &&& bit_field_is(subs[3], "FMS"@, bool_text(self.spec_bit(11)), None, seq![self.raw()[1]], 3, 1)
            &&& bit_field_is(subs[4], "Proxy ARP Service"@, bool_text(self.spec_bit(12)), None, seq![self.raw()[1]], 4, 1)
            &&& bit_field_is(subs[5], "Collocated Interference Reporting"@, bool_text(self.spec_bit(13)), None, seq![self.raw()[1]], 5, 1)
            &&& bit_field_is(subs[6], "Civic Location"@, bool_text(self.spec_bit(14)), None, seq![self.raw()[1]], 6, 1)
            &&& bit_field_is(subs[7], "Geospatial Location"@, bool_text(self.spec_bit(15)), None, seq![self.raw()[1]], 7, 1)
        } else if i == 2 {
            &&& subs.len() == 8
            &&& bit_field_is(subs[0], "TFS"@, bool_text(self.spec_bit(16)), None, seq![self.raw()[2]], 0, 1)
            &&& bit_field_is(subs[1], "WNM Sleep Mode"@, bool_text(self.spec_bit(17)), None, seq![self.raw()[2]], 1, 1)
            &&& bit_field_is(subs[2], "TIM Broadcast"@, bool_text(self.spec_bit(18)), None, seq![self.raw()[2]], 2, 1)
            &&& bit_field_is(subs[3], "BSS Transition"@, bool_text(self.spec_bit(19)), None, seq![self.raw()[2]], 3, 1)
            &&& bit_field_is(subs[4], "QoS Traffic Capability"@, bool_text(self.spec_bit(20)), None, seq![self.raw()[2]], 4, 1)
            &&& bit_field_is(subs[5], "AC Station Count"@, bool_text(self.spec_bit(21)), None, seq![self.raw()[2]], 5, 1)
            &&& bit_field_is(subs[6], "Multiple BSSID"@, bool_text(self.spec_bit(22)), None, seq![self.raw()[2]], 6, 1)
            &&& bit_field_is(subs[7], "Timing Measurement"@, bool_text(self.spec_bit(23)), None, seq![self.raw()[2]], 7, 1)
        } else if i == 3 {
            &&& subs.len() == 8
            &&& bit_field_is(subs[0], "Channel Usage"@, bool_text(self.spec_bit(24)), None, seq![self.raw()[3]], 0, 1)
            &&& bit_field_is(subs[1], "SSID List"@, bool_text(self.spec_bit(25)), None, seq![self.raw()[3]], 1, 1)
            &&& bit_field_is(subs[2], "DMS"@, bool_text(self.spec_bit(26)), None, seq![self.raw()[3]], 2, 1)
            &&& bit_field_is(subs[3], "UTC TSF Offset"@, bool_text(self.spec_bit(27)), None, seq![self.raw()[3]], 3, 1)
            &&& bit_field_is(subs[4], "TPU Buffer STA Support"@, bool_text(self.spec_bit(28)), None, seq![self.raw()[3]], 4, 1)
            &&& bit_field_is(subs[5], "TDLS Peer PSM Support"@, bool_text(self.spec_bit(29)), None, seq![self.raw()[3]], 5, 1)
            &&& bit_field_is(subs[6], "TDLS Channel Switching"@, bool_text(self.spec_bit(30)), None, seq![self.raw()[3]], 6, 1)
            &&& bit_field_is(subs[7], "Interworking"@, bool_text(self.spec_bit(31)), None, seq![self.raw()[3]], 7, 1)
        } else if i == 4 {
            &&& subs.len() == 8
            &&& bit_field_is(subs[0], "QoS Map"@, bool_text(self.spec_bit(32)), None, seq![self.raw()[4]], 0, 1)
            &&& bit_field_is(subs[1], "EBR"@, bool_text(self.spec_bit(33)), None, seq![self.raw()[4]], 1, 1)
            &&& bit_field_is(subs[2], "SSPN Interface"@, bool_text(self.spec_bit(34)), None, seq![self.raw()[4]], 2, 1)
            &&& reserved_field_is(subs[3], seq![self.raw()[4]], 3, 1)
            &&& bit_field_is(subs[4], "MSGCF Capability"@, bool_text(self.spec_bit(36)), None, seq![self.raw()[4]], 4, 1)
            &&& bit_field_is(subs[5], "TDLS Support"@, bool_text(self.spec_bit(37)), None, seq![self.raw()[4]], 5, 1)
            &&& bit_field_is(subs[6], "TDLS Prohibited"@, bool_text(self.spec_bit(38)), None, seq![self.raw()[4]], 6, 1)
            &&& bit_field_is(subs[7], "TDLS Channel Switching Prohibited"@, bool_text(self.spec_bit(39)), None, seq![self.raw()[4]], 7, 1)
        } else if i == 5 {
            &&& subs.len() == 6
            &&& bit_field_is(subs[0], "Reject Unadmitted Frame"@, bool_text(self.spec_bit(40)), None, seq![self.raw()[5]], 0, 1)
            &&& bit_field_is(subs[1], "Service Interval Granularity"@, decimal(5 * (bits_value(self.raw(), 41, 3) + 1)), Some("ms"@), seq![self.raw()[5]], 1, 3)
            &&& bit_field_is(subs[2], "Identifier Location"@, bool_text(self.spec_bit(44)), None, seq![self.raw()[5]], 4, 1)
            &&& bit_field_is(subs[3], "U-APSD Coexistence"@, bool_text(self.spec_bit(45)), None, seq![self.raw()[5]], 5, 1)
            &&& bit_field_is(subs[4], "WNM Notification"@, bool_text(self.spec_bit(46)), None, seq![self.raw()[5]], 6, 1)
            &&& bit_field_is(subs[5], "QAB Capability"@, bool_text(self.spec_bit(47)), None, seq![self.raw()[5]], 7, 1)
        } else if i == 6 {
            &&& subs.len() == 8
            &&& bit_field_is(subs[0], "UTF-8 SSID"@, bool_text(self.spec_bit(48)), None, seq![self.raw()[6]], 0, 1)
            &&& bit_field_is(subs[1], "QMF Activated"@, bool_text(self.spec_bit(49)), None, seq![self.raw()[6]], 1, 1)
            &&& bit_field_is(subs[2], "QMF Reconfiguration Activated"@, bool_text(self.spec_bit(50)), None, seq![self.raw()[6]], 2, 1)
            &&& bit_field_is(subs[3], "Robust AV Streaming"@, bool_text(self.spec_bit(51)), None, seq![self.raw()[6]], 3, 1)
            &&& bit_field_is(subs[4], "Advanced GCR"@, bool_text(self.spec_bit(52)), None, seq![self.raw()[6]], 4, 1)
            &&& bit_field_is(subs[5], "Mesh GCR"@, bool_text(self.spec_bit(53)), None, seq![self.raw()[6]], 5, 1)
            &&& bit_field_is(subs[6], "SCS"@, bool_text(self.spec_bit(54)), None, seq![self.raw()[6]], 6, 1)
            &&& bit_field_is(subs[7], "QLoad Report"@, bool_text(self.spec_bit(55)), None, seq![self.raw()[6]], 7, 1)
        } else if i == 7 {
            &&& subs.len() == (if self.spec_bit_count() >= 65 { 8nat } else { 7nat })
            &&& bit_field_is(subs[0], "Alternate EDCA"@, bool_text(self.spec_bit(56)), None, seq![self.raw()[7]], 0, 1)
            &&& bit_field_is(subs[1], "Unprotected TXOP Negotiation"@, bool_text(self.spec_bit(57)), None, seq![self.raw()[7]], 1, 1)
            &&& bit_field_is(subs[2], "Protected TXOP Negotiation"@, bool_text(self.spec_bit(58)), None, seq![self.raw()[7]], 2, 1)
            &&& reserved_field_is(subs[3], seq![self.raw()[7]], 3, 1)
            &&& bit_field_is(subs[4], "Protected QLoad Report"@, bool_text(self.spec_bit(60)), None, seq![self.raw()[7]], 4, 1)
            &&& bit_field_is(subs[5], "TDLS Wider Bandwidth"@, bool_text(self.spec_bit(61)), None, seq![self.raw()[7]], 5, 1)
            &&& bit_field_is(subs[6], "Operating Mode Notification"@, bool_text(self.spec_bit(62)), None, seq![self.raw()[7]], 6, 1)
            &&& (self.spec_bit_count() >= 65 ==> bit_field_is(subs[7], "Max MSDUs in A-MSDU"@, self.spec_max_msdus_in_amsdu()->0.spec_text(), None, self.raw().subrange(7, 9), 7, 2))
        } else if i == 8 {
            &&& subs.len() == 7
            &&& bit_field_is(subs[0], "Channel Schedule Management"@, bool_text(self.spec_bit(65)), None, seq![self.raw()[8]], 1, 1)
            &&& bit_field_is(subs[1], "Geodatabase Inband Enabling Signal"@, bool_text(self.spec_bit(66)), None, seq![self.raw()[8]], 2, 1)
            &&& bit_field_is(subs[2], "Network Channel Control"@, bool_text(self.spec_bit(67)), None, seq![self.raw()[8]], 3, 1)
            &&& bit_field_is(subs[3], "White Space Map"@, bool_text(self.spec_bit(68)), None, seq![self.raw()[8]], 4, 1)
            &&& bit_field_is(subs[4], "Channel Availability Query"@, bool_text(self.spec_bit(69)), None, seq![self.raw()[8]], 5, 1)
            &&& bit_field_is(subs[5], "Fine Timing Measurement Responder"@, bool_text(self.spec_bit(70)), None, seq![self.raw()[8]], 6, 1)
            &&& bit_field_is(subs[6], "Fine Timing Measurement Initiator"@, bool_text(self.spec_bit(71)), None, seq![self.raw()[8]], 7, 1)
        } else if i == 9 {
            &&& subs.len() == 8
            &&& bit_field_is(subs[0], "FILS Capability"@, bool_text(self.spec_bit(72)), None, seq![self.raw()[9]], 0, 1)
            &&& bit_field_is(subs[1], "Extended Spectrum Management Capable"@, bool_text(self.spec_bit(73)), None, seq![self.raw()[9]], 1, 1)
            &&& bit_field_is(subs[2], "Future Channel Guidance"@, bool_text(self.spec_bit(74)), None, seq![self.raw()[9]], 2, 1)
            &&& bit_field_is(subs[3], "PAD"@, bool_text(self.spec_bit(75)), None, seq![self.raw()[9]], 3, 1)
            &&& reserved_field_is(subs[4], seq![self.raw()[9]], 4, 1)
            &&& reserved_field_is(subs[5], seq![self.raw()[9]], 5, 1)
            &&& reserved_field_is(subs[6], seq![self.raw()[9]], 6, 1)
            &&& reserved_field_is(subs[7], seq![self.raw()[9]], 7, 1)
        } else if i == 10 {
            &&& subs.len() == 8
            &&& bit_field_is(subs[0], "Complete List of Non-TX BSSID Profiles"@, bool_text(self.spec_bit(80)), None, seq![self.raw()[10]], 0, 1)
            &&& bit_field_is(subs[1], "SAE Password Identifiers In Use"@, bool_text(self.spec_bit(81)), None, seq![self.raw()[10]], 1, 1)
            &&& bit_field_is(subs[2], "SAE Password Identifiers Used Exclusively"@, bool_text(self.spec_bit(82)), None, seq![self.raw()[10]], 2, 1)
            &&& reserved_field_is(subs[3], seq![self.raw()[10]], 3, 1)
            &&& bit_field_is(subs[4], "Beacon Protection Enabled"@, bool_text(self.spec_bit(84)), None, seq![self.raw()[10]], 4, 1)
            &&& bit_field_is(subs[5], "Mirrored SCS"@, bool_text(self.spec_bit(85)), None, seq![self.raw()[10]], 5, 1)
            &&& reserved_field_is(subs[6], seq![self.raw()[10]], 6, 1)
            &&& bit_field_is(subs[7], "Local MAC Address Policy"@, bool_text(self.spec_bit(87)), None, seq![self.raw()[10]], 7, 1)
        } else {
            false
        }
    }

    /// Whether `f` is the field shown for octet `i` (0-based): titled by the octet's number,
    /// showing its byte, with the octet's subfields.
    pub open spec fn spec_octet_field(&self, i: int, f: Field) -> bool {
        &&& 0 <= i < self.raw().len()
        &&& f.title@ == "Extended Capabilities (Octet "@ + decimal((i + 1) as nat) + ")"@
        &&& f.value@ == ""@
        &&& f.byte == Some(self.raw()[i])
        &&& f.bytes is None
        &&& f.bits is None
        &&& f.units is None
        &&& self.spec_octet_subfields(i, f.subfields@)
    }

    /// The field of one octet, with its title and byte.
    fn octet_field(&self, i: usize, subfields: Vec<Field>) -> (f: Field)
        requires
            i < self.raw().len(),
            i < 11,
        ensures
            f.title@ == "Extended Capabilities (Octet "@ + decimal((i + 1) as nat) + ")"@,
            f.value@ == ""@,
            f.byte == Some(self.raw()[i as int]),
            f.bytes is None,
            f.bits is None,
            f.units is None,
            f.subfields == subfields,
    {
        let mut title = String::from_str("Extended Capabilities (Octet ");
        let n = u64_text(i as u64 + 1);
        title.append(n.as_str());
        title.append(")");
        Field { title, value: String::from_str(""), byte: Some(self.bytes[i]), bytes: None, bits: None, units: None, subfields }
    }

    /// The field of octet 1.
    fn octet_0_field(&self) -> (f: Field)
        requires
            self.raw().len() > 0,
        ensures
            self.spec_octet_field(0, f),
    {
        let byte = self.bytes[0];
        let mut subs: Vec<Field> = Vec::new();
        subs.push(byte_bits_field("20/40 BSS Coexistence Management Support", bool_string(self.bit(0)), byte, 0, 1));
        subs.push(byte_bits_field("GLK", bool_string(self.bit(1)), byte, 1, 1));
        subs.push(byte_bits_field("Extended Channel Switching", bool_string(self.bit(2)), byte, 2, 1));
        subs.push(byte_bits_field("GLK-GCR", bool_string(self.bit(3)), byte, 3, 1));
        subs.push(byte_bits_field("PSMP Capability", bool_string(self.bit(4)), byte, 4, 1));
        subs.push(Field::reserved(BitRange::from_byte(byte, 5, 1)));
        subs.push(byte_bits_field("S-PSMP Support", bool_string(self.bit(6)), byte, 6, 1));
        subs.push(byte_bits_field("Event", bool_string(self.bit(7)), byte, 7, 1));
        let f = self.octet_field(0, subs);
        proof {
            assert(seq![self.raw()[0]] == seq![byte]);
        }
        f
    }

    /// The field of octet 2.
    fn octet_1_field(&self) -> (f: Field)
        requires
            self.raw().len() > 1,
        ensures
            self.spec_octet_field(1, f),
    {
        let byte = self.bytes[1];
        let mut subs: Vec<Field> = Vec::new();
        subs.push(byte_bits_field("Diagnostics", bool_string(self.bit(8)), byte, 0, 1));
        subs.push(byte_bits_field("Multicast Diagnostics", bool_string(self.bit(9)), byte, 1, 1));
        subs.push(byte_bits_field("Location Tracking", bool_string(self.bit(10)), byte, 2, 1));
        subs.push(byte_bits_field("FMS", bool_string(self.bit(11)), byte, 3, 1));
        subs.push(byte_bits_field("Proxy ARP Service", bool_string(self.bit(12)), byte, 4, 1));
        subs.push(byte_bits_field("Collocated Interference Reporting", bool_string(self.bit(13)), byte, 5, 1));
        subs.push(byte_bits_field("Civic Location", bool_string(self.bit(14)), byte, 6, 1));
        subs.push(byte_bits_field("Geospatial Location", bool_string(self.bit(15)), byte, 7, 1));
        let f = self.octet_field(1, subs);
        proof {
            assert(seq![self.raw()[1]] == seq![byte]);
        }
        f
    }

    /// The field of octet 3.
    fn octet_2_field(&self) -> (f: Field)
        requires
            self.raw().len() > 2,
        ensures
            self.spec_octet_field(2, f),
    {
        let byte = self.bytes[2];
        let mut subs: Vec<Field> = Vec::new();
        subs.push(byte_bits_field("TFS", bool_string(self.bit(16)), byte, 0, 1));
        subs.push(byte_bits_field("WNM Sleep Mode", bool_string(self.bit(17)), byte, 1, 1));
        subs.push(byte_bits_field("TIM Broadcast", bool_string(self.bit(18)), byte, 2, 1));
        subs.push(byte_bits_field("BSS Transition", bool_string(self.bit(19)), byte, 3, 1));
        subs.push(byte_bits_field("QoS Traffic Capability", bool_string(self.bit(20)), byte, 4, 1));
        subs.push(byte_bits_field("AC Station Count", bool_string(self.bit(21)), byte, 5, 1));
        subs.push(byte_bits_field("Multiple BSSID", bool_string(self.bit(22)), byte, 6, 1));
        subs.push(byte_bits_field("Timing Measurement", bool_string(self.bit(23)), byte, 7, 1));
        let f = self.octet_field(2, subs);
        proof {
            assert(seq![self.raw()[2]] == seq![byte]);
        }
        f
    }

    /// The field of octet 4.
    fn octet_3_field(&self) -> (f: Field)
        requires
            self.raw().len() > 3,
        ensures
            self.spec_octet_field(3, f),
    {
        let byte = self.bytes[3];
        let mut subs: Vec<Field> = Vec::new();
        subs.push(byte_bits_field("Channel Usage", bool_string(self.bit(24)), byte, 0, 1));
        subs.push(byte_bits_field("SSID List", bool_string(self.bit(25)), byte, 1, 1));
        subs.push(byte_bits_field("DMS", bool_string(self.bit(26)), byte, 2, 1));
        subs.push(byte_bits_field("UTC TSF Offset", bool_string(self.bit(27)), byte, 3, 1));
        subs.push(byte_bits_field("TPU Buffer STA Support", bool_string(self.bit(28)), byte, 4, 1));
        subs.push(byte_bits_field("TDLS Peer PSM Support", bool_string(self.bit(29)), byte, 5, 1));
        subs.push(byte_bits_field("TDLS Channel Switching", bool_string(self.bit(30)), byte, 6, 1));
        subs.push(byte_bits_field("Interworking", bool_string(self.bit(31)), byte, 7, 1));
        let f = self.octet_field(3, subs);
        proof {
            assert(seq![self.raw()[3]] == seq![byte]);
        }
        f
    }

    /// The field of octet 5.
    fn octet_4_field(&self) -> (f: Field)
        requires
            self.raw().len() > 4,
        ensures
            self.spec_octet_field(4, f),
    {
        let byte = self.bytes[4];
        let mut subs: Vec<Field> = Vec::new();
        subs.push(byte_bits_field("QoS Map", bool_string(self.bit(32)), byte, 0, 1));
        subs.push(byte_bits_field("EBR", bool_string(self.bit(33)), byte, 1, 1));
        subs.push(byte_bits_field("SSPN Interface", bool_string(self.bit(34)), byte, 2, 1));
        subs.push(Field::reserved(BitRange::from_byte(byte, 3, 1)));
        subs.push(byte_bits_field("MSGCF Capability", bool_string(self.bit(36)), byte, 4, 1));
        subs.push(byte_bits_field("TDLS Support", bool_string(self.bit(37)), byte, 5, 1));
        subs.push(byte_bits_field("TDLS Prohibited", bool_string(self.bit(38)), byte, 6, 1));
        subs.push(byte_bits_field("TDLS Channel Switching Prohibited", bool_string(self.bit(39)), byte, 7, 1));
        let f = self.octet_field(4, subs);
        proof {
            assert(seq![self.raw()[4]] == seq![byte]);
        }
        f
    }

    /// The field of octet 6.
    fn octet_5_field(&self) -> (f: Field)
        requires
            self.raw().len() > 5,
        ensures
            self.spec_octet_field(5, f),
    {
        let byte = self.bytes[5];
        let mut subs: Vec<Field> = Vec::new();
        subs.push(byte_bits_field("Reject Unadmitted Frame", bool_string(self.bit(40)), byte, 0, 1));
        let granularity = match self.service_interval_granularity_ms() {
            Some(v) => v,
            None => 0,
        };
        proof {
            lemma_bits_value_bound(self.raw(), 41, 3);
            assert(two_pow(3) == 8) by {
                reveal_with_fuel(two_pow, 4);
            }
        }
        subs.push(byte_bits_field("Service Interval Granularity", u64_text(granularity as u64), byte, 1, 3).with_units("ms"));
        subs.push(byte_bits_field("Identifier Location", bool_string(self.bit(44)), byte, 4, 1));
        subs.push(byte_bits_field("U-APSD Coexistence", bool_string(self.bit(45)), byte, 5, 1));
        subs.push(byte_bits_field("WNM Notification", bool_string(self.bit(46)), byte, 6, 1));
        subs.push(byte_bits_field("QAB Capability", bool_string(self.bit(47)), byte, 7, 1));
        let f = self.octet_field(5, subs);
        proof {
            assert(seq![self.raw()[5]] == seq![byte]);
        }
        f
    }

    /// The field of octet 7.
    fn octet_6_field(&self) -> (f: Field)
        requires
            self.raw().len() > 6,
        ensures
            self.spec_octet_field(6, f),
    {
        let byte = self.bytes[6];
        let mut subs: Vec<Field> = Vec::new();
        subs.push(byte_bits_field("UTF-8 SSID", bool_string(self.bit(48)), byte, 0, 1));
        subs.push(byte_bits_field("QMF Activated", bool_string(self.bit(49)), byte, 1, 1));
        subs.push(byte_bits_field("QMF Reconfiguration Activated", bool_string(self.bit(50)), byte, 2, 1));
        subs.push(byte_bits_field("Robust AV Streaming", bool_string(self.bit(51)), byte, 3, 1));
        subs.push(byte_bits_field("Advanced GCR", bool_string(self.bit(52)), byte, 4, 1));
        subs.push(byte_bits_field("Mesh GCR", bool_string(self.bit(53)), byte, 5, 1));
        subs.push(byte_bits_field("SCS", bool_string(self.bit(54)), byte, 6, 1));
        subs.push(byte_bits_field("QLoad Report", bool_string(self.bit(55)), byte, 7, 1));
        let f = self.octet_field(6, subs);
        proof {
            assert(seq![self.raw()[6]] == seq![byte]);
        }
        f
    }

    /// The field of octet 8.
    fn octet_7_field(&self) -> (f: Field)
        requires
            self.raw().len() > 7,
        ensures
            self.spec_octet_field(7, f),
    {
        let byte = self.bytes[7];
        let mut subs: Vec<Field> = Vec::new();
        subs.push(byte_bits_field("Alternate EDCA", bool_string(self.bit(56)), byte, 0, 1));
        subs.push(byte_bits_field("Unprotected TXOP Negotiation", bool_string(self.bit(57)), byte, 1, 1));
        subs.push(byte_bits_field("Protected TXOP Negotiation", bool_string(self.bit(58)), byte, 2, 1));
        subs.push(Field::reserved(BitRange::from_byte(byte, 3, 1)));
        subs.push(byte_bits_field("Protected QLoad Report", bool_string(self.bit(60)), byte, 4, 1));
        subs.push(byte_bits_field("TDLS Wider Bandwidth", bool_string(self.bit(61)), byte, 5, 1));
        subs.push(byte_bits_field("Operating Mode Notification", bool_string(self.bit(62)), byte, 6, 1));
        if self.has_bit(64) {
            let max_msdus = match self.max_msdus_in_amsdu() {
                Some(v) => v,
                None => MaxMsdus::NoLimit,
            };
            let two = vstd::slice::slice_subrange(self.bytes.as_slice(), 7, 9);
            subs.push(bit_field("Max MSDUs in A-MSDU", max_msdus.to_string(), two, 7, 2));
        }
        let f = self.octet_field(7, subs);
        proof {
            assert(seq![self.raw()[7]] == seq![byte]);
        }
        f
    }

    /// The field of octet 9.
    fn octet_8_field(&self) -> (f: Field)
        requires
            self.raw().len() > 8,
        ensures
            self.spec_octet_field(8, f),
    {
        let byte = self.bytes[8];
        let mut subs: Vec<Field> = Vec::new();
        subs.push(byte_bits_field("Channel Schedule Management", bool_string(self.bit(65)), byte, 1, 1));
        subs.push(byte_bits_field("Geodatabase Inband Enabling Signal", bool_string(self.bit(66)), byte, 2, 1));
        subs.push(byte_bits_field("Network Channel Control", bool_string(self.bit(67)), byte, 3, 1));
        subs.push(byte_bits_field("White Space Map", bool_string(self.bit(68)), byte, 4, 1));
        subs.push(byte_bits_field("Channel Availability Query", bool_string(self.bit(69)), byte, 5, 1));
        subs.push(byte_bits_field("Fine Timing Measurement Responder", bool_string(self.bit(70)), byte, 6, 1));
        subs.push(byte_bits_field("Fine Timing Measurement Initiator", bool_string(self.bit(71)), byte, 7, 1));
        let f = self.octet_field(8, subs);
        proof {
            assert(seq![self.raw()[8]] == seq![byte]);
        }
        f
    }

    /// The field of octet 10.
    fn octet_9_field(&self) -> (f: Field)
        requires
            self.raw().len() > 9,
        ensures
            self.spec_octet_field(9, f),
    {
        let byte = self.bytes[9];
        let mut subs: Vec<Field> = Vec::new();
        subs.push(byte_bits_field("FILS Capability", bool_string(self.bit(72)), byte, 0, 1));
        subs.push(byte_bits_field("Extended Spectrum Management Capable", bool_string(self.bit(73)), byte, 1, 1));
        subs.push(byte_bits_field("Future Channel Guidance", bool_string(self.bit(74)), byte, 2, 1));
        subs.push(byte_bits_field("PAD", bool_string(self.bit(75)), byte, 3, 1));
        subs.push(Field::reserved(BitRange::from_byte(byte, 4, 1)));
        subs.push(Field::reserved(BitRange::from_byte(byte, 5, 1)));
        subs.push(Field::reserved(BitRange::from_byte(byte, 6, 1)));
        subs.push(Field::reserved(BitRange::from_byte(byte, 7, 1)));
        let f = self.octet_field(9, subs);
        proof {
            assert(seq![self.raw()[9]] == seq![byte]);
        }
        f
    }

    /// The field of octet 11.
    fn octet_10_field(&self) -> (f: Field)
        requires
            self.raw().len() > 10,
        ensures
            self.spec_octet_field(10, f),
    {
        let byte = self.bytes[10];
        let mut subs: Vec<Field> = Vec::new();
        subs.push(byte_bits_field("Complete List of Non-TX BSSID Profiles", bool_string(self.bit(80)), byte, 0, 1));
        subs.push(byte_bits_field("SAE Password Identifiers In Use", bool_string(self.bit(81)), byte, 1, 1));
        subs.push(byte_bits_field("SAE Password Identifiers Used Exclusively", bool_string(self.bit(82)), byte, 2, 1));
        subs.push(Field::reserved(BitRange::from_byte(byte, 3, 1)));
        subs.push(byte_bits_field("Beacon Protection Enabled", bool_string(self.bit(84)), byte, 4, 1));
        subs.push(byte_bits_field("Mirrored SCS", bool_string(self.bit(85)), byte, 5, 1));
        subs.push(Field::reserved(BitRange::from_byte(byte, 6, 1)));
        subs.push(byte_bits_field("Local MAC Address Policy", bool_string(self.bit(87)), byte, 7, 1));
        let f = self.octet_field(10, subs);
        proof {
            assert(seq![self.raw()[10]] == seq![byte]);
        }
        f
    }

    /// The field of octet `i` (0-based).
    fn octet(&self, i: usize) -> (f: Field)
        requires
            i < self.raw().len(),
            i < 11,
        ensures
            self.spec_octet_field(i as int, f),
    {
        match i {
            0 => self.octet_0_field(),
            1 => self.octet_1_field(),
            2 => self.octet_2_field(),
            3 => self.octet_3_field(),
            4 => self.octet_4_field(),
            5 => self.octet_5_field(),
            6 => self.octet_6_field(),
            7 => self.octet_7_field(),
            8 => self.octet_8_field(),
            9 => self.octet_9_field(),
            _ => self.octet_10_field(),
        }
    }

    /// The element's fields: one per octet, for the first eleven octets the element carries.
    pub fn fields(&self) -> (fs: Vec<Field>)
        ensures
            fs@.len() == (if self.raw().len() < 11 { self.raw().len() } else { 11 }),
            forall|i: int| 0 <= i < fs@.len() ==> self.spec_octet_field(i, #[trigger] fs@[i]),
    {
        let mut fs: Vec<Field> = Vec::new();
        let mut i: usize = 0;
        while i < 11 && i < self.bytes.len()
            invariant
                i <= 11,
                i <= self.raw().len(),
                fs@.len() == i,
                forall|j: int| 0 <= j < i ==> self.spec_octet_field(j, #[trigger] fs@[j]),
            decreases 11 - i,
        {
            fs.push(self.octet(i));
            i = i + 1;
        }
        fs
    }
}

} // verus!
