//! Information elements as a whole: the TLV records of a frame body and the element each
//! record holds.
use vstd::prelude::*;

use crate::bits::le_u16;
use crate::ies::ap_channel_report::ApChannelReport;
use crate::ies::bss_load::BssLoad;
use crate::ies::channel_switch_announcement::ChannelSwitchAnnouncement;
use crate::ies::ds_parameter_set::DsParameterSet;
use crate::ies::eht_operation::{spec_eht_operation_valid, EhtOperation};
use crate::ies::elements::challenge_text::ChallengeText;
use crate::ies::elements::country::Country;
use crate::ies::elements::eht_capabilities::EhtCapabilities;
use crate::ies::elements::extended_channel_switch_announcement::ExtendedChannelSwitchAnnouncement;
use crate::ies::elements::he_operation::{spec_he_operation_valid, HeOperation};
use crate::ies::elements::ht_operation::{spec_ht_operation_valid, HtOperation};
use crate::ies::elements::ibss_parameter_set::IbssParameterSet;
use crate::ies::elements::mesh_id::MeshId;
use crate::ies::elements::mobility_domain::MobilityDomain;
use crate::ies::elements::overlapping_bss_scan_params::OverlappingBssScanParams;
use crate::ies::elements::roaming_consortium::RoamingConsortium;
use crate::ies::elements::rsn::Rsn;
use crate::ies::elements::rsn_extension::RsnExtension;
use crate::ies::elements::tim::Tim;
use crate::ies::elements::tpc_report::TpcReport;
use crate::ies::elements::vht_capabilities::{spec_vht_capabilities_valid, VhtCapabilities};
use crate::ies::elements::vht_operation::{spec_vht_operation_valid, VhtOperation};
use crate::ies::he_capabilities::{spec_he_capabilities_valid, HeCapabilities};
use crate::ies::he_six_ghz_band_capabilities::{CapabilitiesInformation, HeSixGhzBandCapabilities};
use crate::ies::ht_capabilities::{spec_ht_capabilities_valid, HtCapabilities};
use crate::ies::advertisement_protocol::{spec_tuple_split, AdvertisementProtocol};
use crate::ies::awake_window::AwakeWindow;
use crate::ies::elements::antenna::Antenna;
use crate::ies::elements::ap_configuration_sequence_number::ApConfigurationSequenceNumber;
use crate::ies::elements::erp_info::ErpInfo;
use crate::ies::elements::extended_capabilities::ExtendedCapabilities;
use crate::ies::elements::measurement_request::MeasurementRequest;
use crate::ies::elements::reduced_neighbor_report::{spec_neighbor_split, ReducedNeighborReport};
use crate::ies::elements::time_advertisement::{spec_time_advertisement_len, TimeAdvertisement};
use crate::ies::elements::vendor_specific::VendorSpecific;
use crate::ies::fils_indication::{spec_fils_indication_valid, FilsIndication};
use crate::ies::ssid::Ssid;

verus! {

/// The records of a TLV byte string: each an ID byte, a length byte and that many body
/// bytes. A record cut short by the end of the string ends the list.
pub open spec fn tlv_records(b: Seq<u8>) -> Seq<(u8, Seq<u8>)>
    decreases b.len(),
{
    if b.len() < 2 {
        seq![]
    } else {
        let n = b[1] as int;
        if 2 + n > b.len() {
            seq![]
        } else {
            seq![(b[0], b.subrange(2, 2 + n))] + tlv_records(b.subrange(2 + n, b.len() as int))
        }
    }
}

/// The TLV encoding of records: for each, its ID, its body length and its body.
pub open spec fn tlv_encode(rs: Seq<(u8, Seq<u8>)>) -> Seq<u8>
    decreases rs.len(),
{
    if rs.len() == 0 {
        seq![]
    } else {
        seq![rs[0].0, rs[0].1.len() as u8] + rs[0].1 + tlv_encode(rs.drop_first())
    }
}

/// Encoding records whose bodies fit the one-byte length and reading the records back gives
/// the same records.
pub proof fn lemma_tlv_roundtrip(rs: Seq<(u8, Seq<u8>)>)
    requires
        forall|i: int| 0 <= i < rs.len() ==> (#[trigger] rs[i]).1.len() <= 255,
    ensures
        tlv_records(tlv_encode(rs)) == rs,
    decreases rs.len(),
{
    if rs.len() > 0 {
        let t = rs.drop_first();
        assert forall|i: int| 0 <= i < t.len() implies (#[trigger] t[i]).1.len() <= 255 by {
            assert(t[i] == rs[i + 1]);
        }
        lemma_tlv_roundtrip(t);
        let b = tlv_encode(rs);
        let body = rs[0].1;
        let n = body.len() as int;
        assert(rs[0].1.len() <= 255);
        assert(b[0] == rs[0].0);
        assert(b[1] == body.len() as u8);
        assert((body.len() as u8) as int == n);
        assert(b.subrange(2, 2 + n) =~= body);
        assert(b.subrange(2 + n, b.len() as int) =~= tlv_encode(t));
        assert(tlv_records(b) =~= seq![(rs[0].0, body)] + rs.drop_first());
        assert(rs =~= seq![rs[0]] + rs.drop_first());
    }
}

/// The element data of an information element.
#[derive(Debug, Clone, PartialEq, Eq)]
pub enum IeData {
    Ssid(Ssid),
    DsParameterSet(DsParameterSet),
    Tim(Tim),
    IbssParameterSet(IbssParameterSet),
    Country(Country),
    BssLoad(BssLoad),
    ChallengeText(ChallengeText),
    TpcReport(TpcReport),
    ChannelSwitchAnnouncement(ChannelSwitchAnnouncement),
    HtCapabilities(HtCapabilities),
    Rsn(Rsn),
    ApChannelReport(ApChannelReport),
    MobilityDomain(MobilityDomain),
    ExtendedChannelSwitchAnnouncement(ExtendedChannelSwitchAnnouncement),
    HtOperation(HtOperation),
    OverlappingBssScanParams(OverlappingBssScanParams),
    RoamingConsortium(RoamingConsortium),
    MeshId(MeshId),
    VhtCapabilities(VhtCapabilities),
    VhtOperation(VhtOperation),
    RsnExtension(RsnExtension),
    HeCapabilities(HeCapabilities),
    HeOperation(HeOperation),
    HeSixGhzBandCapabilities(HeSixGhzBandCapabilities),
    EhtOperation(EhtOperation),
    EhtCapabilities(EhtCapabilities),
    MeasurementRequest(MeasurementRequest),
    ErpInfo(ErpInfo),
    Antenna(Antenna),
    TimeAdvertisement(TimeAdvertisement),
    AdvertisementProtocol(AdvertisementProtocol),
    ExtendedCapabilities(ExtendedCapabilities),
    AwakeWindow(AwakeWindow),
    ReducedNeighborReport(ReducedNeighborReport),
    ApConfigurationSequenceNumber(ApConfigurationSequenceNumber),
    FilsIndication(FilsIndication),
    VendorSpecific(VendorSpecific),
    /// An element this library does not decode, or one whose body does not parse.
    Unknown,
}

/// The body of an extension element after its ID extension byte.
pub open spec fn ext_body(body: Seq<u8>) -> Seq<u8> {
    body.subrange(1, body.len() as int)
}

/// Whether `body` is an extension element body with ID extension `ext`.
pub open spec fn is_ext(id: u8, body: Seq<u8>, ext: u8) -> bool {
    id == 255 && body.len() >= 1 && body[0] == ext
}

/// Whether an element with this ID and body is one this library decodes and its body parses.
pub open spec fn spec_decodes(id: u8, body: Seq<u8>) -> bool {
    let eb = ext_body(body);
    ||| id == 0
    ||| id == 3 && body.len() >= 1
    ||| id == 5 && body.len() >= 2
    ||| id == 6 && body.len() >= 2
    ||| id == 7 && body.len() >= 3
    ||| id == 11 && body.len() >= 5
    ||| id == 16
    ||| id == 35 && body.len() >= 2
    ||| id == 37 && body.len() >= 3
    ||| id == 38 && body.len() >= 3
    ||| (id == 42 || id == 47) && body.len() >= 1
    ||| id == 64 && body.len() >= 1
    ||| id == 69 && body.len() >= 1 && body.len() >= spec_time_advertisement_len(body[0], body.len())
    ||| id == 108 && spec_tuple_split(body) is Some
    ||| id == 127
    ||| id == 157 && body.len() >= 2
    ||| id == 201 && spec_neighbor_split(body) is Some
    ||| id == 221
    ||| id == 239 && body.len() >= 1
    ||| id == 240 && spec_fils_indication_valid(body)
    ||| id == 45 && spec_ht_capabilities_valid(body)
    ||| id == 48 && body.len() >= 2
    ||| id == 51 && body.len() >= 1
    ||| id == 54 && body.len() >= 3
    ||| id == 60 && body.len() >= 4
    ||| id == 61 && spec_ht_operation_valid(body)
    ||| id == 74 && body.len() >= 14
    ||| id == 111 && body.len() >= 2 && body.len() >= 2 + crate::bits::bits_value(body, 8, 4) + crate::bits::bits_value(body, 12, 4)
    ||| id == 114
    ||| id == 191 && spec_vht_capabilities_valid(body)
    ||| id == 192 && spec_vht_operation_valid(body)
    ||| id == 244 && body.len() >= 1 && body.len() >= crate::bits::bits_value(body, 0, 4) + 1
    ||| is_ext(id, body, 35) && spec_he_capabilities_valid(eb)
    ||| is_ext(id, body, 36) && spec_he_operation_valid(eb)
    ||| is_ext(id, body, 59) && eb.len() >= 2 && CapabilitiesInformation::spec_valid(eb.subrange(0, 2))
    ||| is_ext(id, body, 106) && spec_eht_operation_valid(eb)
    ||| is_ext(id, body, 108) && eb.len() >= 11
}

/// Whether `d` is the data decoded from an element with this ID and body: the variant the ID
/// (and, for extension elements, the ID extension) selects, holding what that element's parser
/// reads from the body, or `Unknown` when the element is not one this library decodes.
pub open spec fn spec_data_of(d: IeData, id: u8, body: Seq<u8>) -> bool {
    let eb = ext_body(body);
    match d {
        IeData::Ssid(x) => id == 0 && x.raw() == body,
        IeData::DsParameterSet(x) => id == 3 && body.len() >= 1 && x.current_channel == body[0],
        IeData::Tim(x) => id == 5 && x.spec_parsed_from(body),
        IeData::IbssParameterSet(x) => id == 6 && body.len() >= 2 && x.atim_window_tu == le_u16(body, 0),
        IeData::Country(x) => id == 7 && x.spec_parsed_from(body),
        IeData::BssLoad(x) => id == 11 && body.len() >= 5 && x.station_count == le_u16(body, 0)
            && x.channel_utilization == body[2] && x.available_admission_capacity == le_u16(body, 3),
        IeData::ChallengeText(x) => id == 16 && x.raw() == body,
        IeData::TpcReport(x) => id == 35 && body.len() >= 2 && x.transmit_power_dbm as u8 == body[0] && x.link_margin_db as u8 == body[1],
        IeData::ChannelSwitchAnnouncement(x) => id == 37 && body.len() >= 3 && x.spec_parts() == (body[0], body[1], body[2]),
        IeData::HtCapabilities(x) => id == 45 && spec_ht_capabilities_valid(body) && x.spec_parsed_from(body),
        IeData::Rsn(x) => id == 48 && body.len() >= 2 && x.spec_parsed_from(body),
        IeData::ApChannelReport(x) => id == 51 && body.len() >= 1 && x.operating_class == body[0]
            && x.channel_list@ == body.subrange(1, body.len() as int),
        IeData::MobilityDomain(x) => id == 54 && body.len() >= 3 && x.mdid == le_u16(body, 0)
            && x.ft_capability_and_policy.raw() == body.subrange(2, 3),
        IeData::ExtendedChannelSwitchAnnouncement(x) => id == 60 && body.len() >= 4 && x.channel_switch_mode == body[0]
            && x.new_operating_class == body[1] && x.new_channel_number == body[2] && x.channel_switch_count == body[3],
        IeData::HtOperation(x) => id == 61 && spec_ht_operation_valid(body) && x.spec_parsed_from(body),
        IeData::OverlappingBssScanParams(x) => id == 74 && x.spec_parsed_from(body),
        IeData::RoamingConsortium(x) => id == 111 && x.spec_parsed_from(body),
        IeData::MeshId(x) => id == 114 && x.raw() == body,
        IeData::VhtCapabilities(x) => id == 191 && spec_vht_capabilities_valid(body) && x.spec_parsed_from(body),
        IeData::VhtOperation(x) => id == 192 && spec_vht_operation_valid(body) && x.spec_parsed_from(body),
        IeData::RsnExtension(x) => id == 244 && body.len() >= 1 && body.len() >= crate::bits::bits_value(body, 0, 4) + 1
            && x.extended_rsn_capabilities.raw() == body.subrange(0, crate::bits::bits_value(body, 0, 4) as int + 1)
            && x.extended_rsn_capabilities.spec_wf(),
        IeData::HeCapabilities(x) => is_ext(id, body, 35) && spec_he_capabilities_valid(eb) && x.spec_parsed_from(eb) && x.spec_wf(),
        IeData::HeOperation(x) => is_ext(id, body, 36) && spec_he_operation_valid(eb) && x.spec_parsed_from(eb),
        IeData::HeSixGhzBandCapabilities(x) => is_ext(id, body, 59) && eb.len() >= 2 && CapabilitiesInformation::spec_valid(eb.subrange(0, 2))
            && x.capabilities_information.raw() == eb.subrange(0, 2),
        IeData::EhtOperation(x) => is_ext(id, body, 106) && spec_eht_operation_valid(eb) && x.spec_parsed_from(eb),
        IeData::EhtCapabilities(x) => is_ext(id, body, 108) && eb.len() >= 11
            && x.eht_mac_capabilities_information.raw() == eb.subrange(0, 2)
            && x.eht_phy_capabilities_information.raw() == eb.subrange(2, 11)
            && x.rest@ == eb.subrange(11, eb.len() as int)
            && x.supported_eht_mcs_and_nss_set is None && x.eht_ppe_thresholds is None,
        IeData::MeasurementRequest(x) => id == 38 && x.spec_parsed_from(body),
        IeData::ErpInfo(x) => (id == 42 || id == 47) && body.len() >= 1 && x.raw() == body.subrange(0, 1),
        IeData::Antenna(x) => id == 64 && body.len() >= 1 && x.antenna_id == body[0],
        IeData::TimeAdvertisement(x) => id == 69 && x.spec_parsed_from(body),
        IeData::AdvertisementProtocol(x) => id == 108 && x.spec_parsed_from(body),
        IeData::ExtendedCapabilities(x) => id == 127 && x.raw() == body,
        IeData::AwakeWindow(x) => id == 157 && body.len() >= 2 && x.awake_window_duration_micros == le_u16(body, 0),
        IeData::ReducedNeighborReport(x) => id == 201 && x.spec_parsed_from(body),
        IeData::ApConfigurationSequenceNumber(x) => id == 239 && body.len() >= 1 && x.ap_csn == body[0],
        IeData::FilsIndication(x) => id == 240 && spec_fils_indication_valid(body) && x.spec_parsed_from(body),
        IeData::VendorSpecific(x) => id == 221 && x.raw() == body,
        IeData::Unknown => !spec_decodes(id, body),
    }
}

impl IeData {
    /// Decodes an element body by its ID (and, for ID 255, the ID extension in the body's
    /// first byte). Elements this library does not decode, and bodies that do not parse, give
    /// `Unknown`.
    pub fn parse(id: u8, body: &[u8]) -> (d: IeData)
        ensures
            spec_data_of(d, id, body@),
            d is Unknown <==> !spec_decodes(id, body@),
    {
        match id {
            0 => IeData::Ssid(Ssid::from_bytes(body)),
            3 => match DsParameterSet::from_bytes(body) {
                Some(x) => IeData::DsParameterSet(x),
                None => IeData::Unknown,
            },
            5 => match Tim::from_bytes(body) {
                Some(x) => IeData::Tim(x),
                None => IeData::Unknown,
            },
            6 => match IbssParameterSet::from_bytes(body) {
                Some(x) => IeData::IbssParameterSet(x),
                None => IeData::Unknown,
            },
            7 => match Country::from_bytes(body) {
                Some(x) => IeData::Country(x),
                None => IeData::Unknown,
            },
            11 => match BssLoad::from_bytes(body) {
                Some(x) => IeData::BssLoad(x),
                None => IeData::Unknown,
            },
            16 => IeData::ChallengeText(ChallengeText::from_bytes(body)),
            35 => match TpcReport::from_bytes(body) {
                Some(x) => IeData::TpcReport(x),
                None => IeData::Unknown,
            },
            37 => match ChannelSwitchAnnouncement::from_bytes(body) {
                Some(x) => IeData::ChannelSwitchAnnouncement(x),
                None => IeData::Unknown,
            },
            38 => match MeasurementRequest::from_bytes(body) {
                Some(x) => IeData::MeasurementRequest(x),
                None => IeData::Unknown,
            },
            42 | 47 => match ErpInfo::from_bytes(body) {
                Some(x) => IeData::ErpInfo(x),
                None => IeData::Unknown,
            },
            64 => match Antenna::from_bytes(body) {
                Some(x) => IeData::Antenna(x),
                None => IeData::Unknown,
            },
            69 => match TimeAdvertisement::from_bytes(body) {
                Some(x) => IeData::TimeAdvertisement(x),
                None => IeData::Unknown,
            },
            108 => match AdvertisementProtocol::from_bytes(body) {
                Some(x) => IeData::AdvertisementProtocol(x),
                None => IeData::Unknown,
            },
            127 => IeData::ExtendedCapabilities(ExtendedCapabilities::from_bytes(body)),
            157 => match AwakeWindow::from_bytes(body) {
                Some(x) => IeData::AwakeWindow(x),
                None => IeData::Unknown,
            },
            201 => match ReducedNeighborReport::from_bytes(body) {
                Some(x) => IeData::ReducedNeighborReport(x),
                None => IeData::Unknown,
            },
            221 => IeData::VendorSpecific(VendorSpecific::from_bytes(body)),
            239 => match ApConfigurationSequenceNumber::from_bytes(body) {
                Some(x) => IeData::ApConfigurationSequenceNumber(x),
                None => IeData::Unknown,
            },
            240 => match FilsIndication::from_bytes(body) {
                Some(x) => IeData::FilsIndication(x),
                None => IeData::Unknown,
            },
            45 => match HtCapabilities::from_bytes(body) {
                Some(x) => IeData::HtCapabilities(x),
                None => IeData::Unknown,
            },
            48 => match Rsn::from_bytes(body) {
                Some(x) => IeData::Rsn(x),
                None => IeData::Unknown,
            },
            51 => match ApChannelReport::from_bytes(body) {
                Some(x) => IeData::ApChannelReport(x),
                None => IeData::Unknown,
            },
            54 => match MobilityDomain::from_bytes(body) {
                Some(x) => IeData::MobilityDomain(x),
                None => IeData::Unknown,
            },
            60 => match ExtendedChannelSwitchAnnouncement::from_bytes(body) {
                Some(x) => IeData::ExtendedChannelSwitchAnnouncement(x),
                None => IeData::Unknown,
            },
            61 => match HtOperation::from_bytes(body) {
                Some(x) => IeData::HtOperation(x),
                None => IeData::Unknown,
            },
            74 => match OverlappingBssScanParams::from_bytes(body) {
                Some(x) => IeData::OverlappingBssScanParams(x),
                None => IeData::Unknown,
            },
            111 => match RoamingConsortium::from_bytes(body) {
                Some(x) => IeData::RoamingConsortium(x),
                None => IeData::Unknown,
            },
            114 => IeData::MeshId(MeshId::from_bytes(body)),
            191 => match VhtCapabilities::from_bytes(body) {
                Some(x) => IeData::VhtCapabilities(x),
                None => IeData::Unknown,
            },
            192 => match VhtOperation::from_bytes(body) {
                Some(x) => IeData::VhtOperation(x),
                None => IeData::Unknown,
            },
            244 => match RsnExtension::from_bytes(body) {
                Some(x) => IeData::RsnExtension(x),
                None => IeData::Unknown,
            },
            255 => Self::parse_extension(body),
            _ => IeData::Unknown,
        }
    }

    /// Decodes the body of an extension element (ID 255) by its ID extension.
    fn parse_extension(body: &[u8]) -> (d: IeData)
        ensures
            spec_data_of(d, 255, body@),
            d is Unknown <==> !spec_decodes(255, body@),
    {
        if body.len() < 1 {
            return IeData::Unknown;
        }
        let eb = vstd::slice::slice_subrange(body, 1, body.len());
        match body[0] {
            35 => match HeCapabilities::from_bytes(eb) {
                Some(x) => IeData::HeCapabilities(x),
                None => IeData::Unknown,
            },
            36 => match HeOperation::from_bytes(eb) {
                Some(x) => IeData::HeOperation(x),
                None => IeData::Unknown,
            },
            59 => match HeSixGhzBandCapabilities::from_bytes(eb) {
                Some(x) => IeData::HeSixGhzBandCapabilities(x),
                None => IeData::Unknown,
            },
            106 => match EhtOperation::from_bytes(eb) {
                Some(x) => IeData::EhtOperation(x),
                None => IeData::Unknown,
            },
            108 => match EhtCapabilities::from_bytes(eb) {
                Some(x) => IeData::EhtCapabilities(x),
                None => IeData::Unknown,
            },
            _ => IeData::Unknown,
        }
    }
}

/// An information element: its ID, its ID extension (for ID 255), its body, and the data
/// decoded from the body.
#[derive(Debug, Clone, PartialEq, Eq)]
pub struct Ie {
    pub id: u8,
    pub id_ext: Option<u8>,
    pub bytes: Vec<u8>,
    pub data: IeData,
}

/// The ID extension of an element: the body's first byte for ID 255.
pub open spec fn spec_id_ext(id: u8, body: Seq<u8>) -> Option<u8> {
    if id == 255 && body.len() >= 1 {
        Some(body[0])
    } else {
        None
    }
}

impl Ie {
    /// Whether the element is the one decoded from record `(id, body)`.
    pub open spec fn spec_from_record(&self, id: u8, body: Seq<u8>) -> bool {
        &&& self.id == id
        &&& self.bytes@ == body
        &&& self.id_ext == spec_id_ext(id, body)
        &&& spec_data_of(self.data, id, body)
    }

    /// Decodes the element of one record.
    pub fn from_record(id: u8, body: &[u8]) -> (ie: Ie)
        ensures
            ie.spec_from_record(id, body@),
    {
        let id_ext = if id == 255 && body.len() >= 1 {
            Some(body[0])
        } else {
            None
        };
        Ie { id, id_ext, bytes: vstd::slice::slice_to_vec(body), data: IeData::parse(id, body) }
    }

    /// The element's TLV encoding: ID, body length and body.
    pub open spec fn spec_encoding(&self) -> Seq<u8> {
        seq![self.id, self.bytes@.len() as u8] + self.bytes@
    }

    /// The element's TLV encoding: ID, body length and body. The body of an element must fit
    /// the one-byte length.
    pub fn to_bytes(&self) -> (v: Vec<u8>)
        requires
            self.bytes@.len() <= 255,
        ensures
            v@ == self.spec_encoding(),
    {
        let mut v: Vec<u8> = Vec::new();
        v.push(self.id);
        v.push(self.bytes.len() as u8);
        let mut i: usize = 0;
        while i < self.bytes.len()
            invariant
                i <= self.bytes@.len(),
                v@ == seq![self.id, self.bytes@.len() as u8] + self.bytes@.subrange(0, i as int),
            decreases self.bytes@.len() - i,
        {
            v.push(self.bytes[i]);
            i = i + 1;
            proof {
                assert(v@ =~= seq![self.id, self.bytes@.len() as u8] + self.bytes@.subrange(0, i as int));
            }
        }
        proof {
            assert(self.bytes@.subrange(0, self.bytes@.len() as int) =~= self.bytes@);
        }
        v
    }
}

impl IeData {
    /// The name of the element the data belongs to; `Unknown` for data this library does not
    /// decode.
    pub open spec fn spec_name(&self) -> Seq<char> {
        match self {
            IeData::AdvertisementProtocol(_) => AdvertisementProtocol::NAME@,
            IeData::Antenna(_) => Antenna::NAME@,
            IeData::ApChannelReport(_) => ApChannelReport::NAME@,
            IeData::ApConfigurationSequenceNumber(_) => ApConfigurationSequenceNumber::NAME@,
            IeData::AwakeWindow(_) => AwakeWindow::NAME@,
            IeData::BssLoad(_) => BssLoad::NAME@,
            IeData::ChallengeText(_) => ChallengeText::NAME@,
            IeData::ChannelSwitchAnnouncement(_) => ChannelSwitchAnnouncement::NAME@,
            IeData::Country(_) => Country::NAME@,
            IeData::DsParameterSet(_) => DsParameterSet::NAME@,
            IeData::EhtCapabilities(_) => EhtCapabilities::NAME@,
            IeData::EhtOperation(_) => EhtOperation::NAME@,
            IeData::ErpInfo(_) => ErpInfo::NAME@,
            IeData::ExtendedCapabilities(_) => ExtendedCapabilities::NAME@,
            IeData::ExtendedChannelSwitchAnnouncement(_) => ExtendedChannelSwitchAnnouncement::NAME@,
            IeData::FilsIndication(_) => FilsIndication::NAME@,
            IeData::HeCapabilities(_) => HeCapabilities::NAME@,
            IeData::HeOperation(_) => HeOperation::NAME@,
            IeData::HeSixGhzBandCapabilities(_) => HeSixGhzBandCapabilities::NAME@,
            IeData::HtCapabilities(_) => HtCapabilities::NAME@,
            IeData::HtOperation(_) => HtOperation::NAME@,
            IeData::IbssParameterSet(_) => IbssParameterSet::NAME@,
            IeData::MeasurementRequest(_) => MeasurementRequest::NAME@,
            IeData::MeshId(_) => MeshId::NAME@,
            IeData::MobilityDomain(_) => MobilityDomain::NAME@,
            IeData::OverlappingBssScanParams(_) => OverlappingBssScanParams::NAME@,
            IeData::ReducedNeighborReport(_) => ReducedNeighborReport::NAME@,
            IeData::RoamingConsortium(_) => RoamingConsortium::NAME@,
            IeData::Rsn(_) => Rsn::NAME@,
            IeData::RsnExtension(_) => RsnExtension::NAME@,
            IeData::Ssid(_) => Ssid::NAME@,
            IeData::Tim(_) => Tim::NAME@,
            IeData::TimeAdvertisement(_) => TimeAdvertisement::NAME@,
            IeData::TpcReport(_) => TpcReport::NAME@,
            IeData::VendorSpecific(_) => VendorSpecific::NAME@,
            IeData::VhtCapabilities(_) => VhtCapabilities::NAME@,
            IeData::VhtOperation(_) => VhtOperation::NAME@,
            IeData::Unknown => "Unknown"@,
        }
    }

    /// The name of the element the data belongs to.
    pub fn name(&self) -> (s: &'static str)
        ensures
            s@ == self.spec_name(),
    {
        match self {
            IeData::AdvertisementProtocol(_) => AdvertisementProtocol::NAME,
            IeData::Antenna(_) => Antenna::NAME,
            IeData::ApChannelReport(_) => ApChannelReport::NAME,
            IeData::ApConfigurationSequenceNumber(_) => ApConfigurationSequenceNumber::NAME,
            IeData::AwakeWindow(_) => AwakeWindow::NAME,
            IeData::BssLoad(_) => BssLoad::NAME,
            IeData::ChallengeText(_) => ChallengeText::NAME,
            IeData::ChannelSwitchAnnouncement(_) => ChannelSwitchAnnouncement::NAME,
            IeData::Country(_) => Country::NAME,
            IeData::DsParameterSet(_) => DsParameterSet::NAME,
            IeData::EhtCapabilities(_) => EhtCapabilities::NAME,
            IeData::EhtOperation(_) => EhtOperation::NAME,
            IeData::ErpInfo(_) => ErpInfo::NAME,
            IeData::ExtendedCapabilities(_) => ExtendedCapabilities::NAME,
            IeData::ExtendedChannelSwitchAnnouncement(_) => ExtendedChannelSwitchAnnouncement::NAME,
            IeData::FilsIndication(_) => FilsIndication::NAME,
            IeData::HeCapabilities(_) => HeCapabilities::NAME,
            IeData::HeOperation(_) => HeOperation::NAME,
            IeData::HeSixGhzBandCapabilities(_) => HeSixGhzBandCapabilities::NAME,
            IeData::HtCapabilities(_) => HtCapabilities::NAME,
            IeData::HtOperation(_) => HtOperation::NAME,
            IeData::IbssParameterSet(_) => IbssParameterSet::NAME,
            IeData::MeasurementRequest(_) => MeasurementRequest::NAME,
            IeData::MeshId(_) => MeshId::NAME,
            IeData::MobilityDomain(_) => MobilityDomain::NAME,
            IeData::OverlappingBssScanParams(_) => OverlappingBssScanParams::NAME,
            IeData::ReducedNeighborReport(_) => ReducedNeighborReport::NAME,
            IeData::RoamingConsortium(_) => RoamingConsortium::NAME,
            IeData::Rsn(_) => Rsn::NAME,
            IeData::RsnExtension(_) => RsnExtension::NAME,
            IeData::Ssid(_) => Ssid::NAME,
            IeData::Tim(_) => Tim::NAME,
            IeData::TimeAdvertisement(_) => TimeAdvertisement::NAME,
            IeData::TpcReport(_) => TpcReport::NAME,
            IeData::VendorSpecific(_) => VendorSpecific::NAME,
            IeData::VhtCapabilities(_) => VhtCapabilities::NAME,
            IeData::VhtOperation(_) => VhtOperation::NAME,
            IeData::Unknown => "Unknown",
        }
    }
}

impl Ie {
    /// The element's name, for example `HT Capabilities`.
    pub fn name(&self) -> (s: &'static str)
        ensures
            s@ == self.data.spec_name(),
    {
        self.data.name()
    }
}

/// Whether `ies` are the elements decoded from `bytes`: one per complete TLV record, in order.
pub open spec fn spec_ies_decoded(ies: Seq<Ie>, bytes: Seq<u8>) -> bool {
    &&& ies.len() == tlv_records(bytes).len()
    &&& forall|i: int|
        0 <= i < ies.len() ==> #[trigger] ies[i].spec_from_record(tlv_records(bytes)[i].0, tlv_records(bytes)[i].1)
}

/// Decoding the TLV encoding of records whose bodies fit the one-byte length gives one element
/// per record, holding that record's ID and body, so that its own encoding is the record's.
pub proof fn lemma_decode_encode(rs: Seq<(u8, Seq<u8>)>, ies: Seq<Ie>)
    requires
        forall|i: int| 0 <= i < rs.len() ==> (#[trigger] rs[i]).1.len() <= 255,
        spec_ies_decoded(ies, tlv_encode(rs)),
    ensures
        ies.len() == rs.len(),
        forall|i: int|
            0 <= i < ies.len() ==> (#[trigger] ies[i]).id == rs[i].0 && ies[i].bytes@ == rs[i].1
                && ies[i].spec_encoding() == seq![rs[i].0, rs[i].1.len() as u8] + rs[i].1,
{
    lemma_tlv_roundtrip(rs);
    let recs = tlv_records(tlv_encode(rs));
    assert forall|i: int| 0 <= i < ies.len() implies (#[trigger] ies[i]).id == rs[i].0 && ies[i].bytes@ == rs[i].1
        && ies[i].spec_encoding() == seq![rs[i].0, rs[i].1.len() as u8] + rs[i].1 by {
        assert(ies[i].spec_from_record(recs[i].0, recs[i].1));
        assert(recs[i] == rs[i]);
    }
}

/// Parses the information elements of a frame body: one element per complete TLV record, in
/// order; a record cut short by the end of the bytes ends the list.
pub fn from_bytes(bytes: &[u8]) -> (ies: Vec<Ie>)
    ensures
        spec_ies_decoded(ies@, bytes@),
        ies@.len() == tlv_records(bytes@).len(),
        forall|i: int|
            0 <= i < ies@.len() ==> #[trigger] ies@[i].spec_from_record(
                tlv_records(bytes@)[i].0,
                tlv_records(bytes@)[i].1,
            ),
{
    let len = bytes.len();
    let mut ies: Vec<Ie> = Vec::new();
    let mut pos: usize = 0;
    let ghost mut done: Seq<(u8, Seq<u8>)> = seq![];
    proof {
        assert(bytes@.subrange(0, len as int) =~= bytes@);
        assert(done + tlv_records(bytes@) =~= tlv_records(bytes@));
    }
    loop
        invariant
            len == bytes@.len(),
            pos <= len,
            done + tlv_records(bytes@.subrange(pos as int, len as int)) == tlv_records(bytes@),
            ies@.len() == done.len(),
            forall|i: int| 0 <= i < ies@.len() ==> #[trigger] ies@[i].spec_from_record(done[i].0, done[i].1),
        ensures
            done == tlv_records(bytes@),
            ies@.len() == done.len(),
            forall|i: int| 0 <= i < ies@.len() ==> #[trigger] ies@[i].spec_from_record(done[i].0, done[i].1),
        decreases len - pos,
    {
        let ghost rest = bytes@.subrange(pos as int, len as int);
        if len - pos < 2 {
            proof {
                assert(tlv_records(rest) =~= Seq::<(u8, Seq<u8>)>::empty());
                assert(done + tlv_records(rest) =~= done);
            }
            break;
        }
        let id = bytes[pos];
        let n = bytes[pos + 1] as usize;
        if n > len - pos - 2 {
            proof {
                assert(rest[1] as int == n);
                assert(tlv_records(rest) =~= Seq::<(u8, Seq<u8>)>::empty());
                assert(done + tlv_records(rest) =~= done);
            }
            break;
        }
        let body = vstd::slice::slice_subrange(bytes, pos + 2, pos + 2 + n);
        ies.push(Ie::from_record(id, body));
        proof {
            let old_done = done;
            assert(rest[0] == id);
            assert(rest[1] as int == n);
            assert(rest.subrange(2, 2 + n as int) =~= body@);
            assert(rest.subrange(2 + n as int, rest.len() as int) =~= bytes@.subrange(pos + 2 + n, len as int));
            assert(tlv_records(rest) == seq![(id, body@)] + tlv_records(bytes@.subrange(pos + 2 + n, len as int)));
            done = done.push((id, body@));
            assert(done + tlv_records(bytes@.subrange(pos + 2 + n, len as int)) =~= old_done + tlv_records(rest));
        }
        pos = pos + 2 + n;
    }
    ies
}

} // verus!
