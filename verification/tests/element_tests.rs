use kawaiifi::ies::elements::challenge_text::ChallengeText;
use kawaiifi::bss::capability_info::CapabilityInfo;
use kawaiifi::ies::advertisement_protocol::{AdvertisementProtocol, AdvertisementProtocolId};
use kawaiifi::ies::awake_window::AwakeWindow;
use kawaiifi::ies::elements::antenna::Antenna;
use kawaiifi::ies::elements::ap_configuration_sequence_number::ApConfigurationSequenceNumber;
use kawaiifi::ies::elements::extended_capabilities::{ExtendedCapabilities, MaxMsdus};
use kawaiifi::ies::elements::measurement_request::{MeasurementRequest, MeasurementType};
use kawaiifi::ies::elements::rsn::RsnCapabilities;
use kawaiifi::ies::elements::reduced_neighbor_report::{psd_string, ReducedNeighborReport};
use kawaiifi::ies::elements::time_advertisement::{TimeAdvertisement, TimingCapabilities};
use kawaiifi::ies::elements::vendor_specific::VendorSpecific;
use kawaiifi::ies::fils_indication::FilsIndication;

#[test]
fn extended_capabilities_bits() {
    let caps = ExtendedCapabilities::from_bytes(&[0x04, 0x00, 0x08, 0x00, 0x00, 0b0000_0110, 0, 0x80, 0x01]);
    assert!(caps.extended_channel_switching());
    assert!(caps.bss_transition());
    assert!(!caps.glk());
    assert_eq!(caps.service_interval_granularity_ms(), Some(20));
    assert_eq!(caps.max_msdus_in_amsdu(), Some(MaxMsdus::Eight));
    assert!(!caps.local_mac_address_policy());
    assert_eq!(caps.summary(), "");
}

#[test]
fn extended_capabilities_short_element() {
    let caps = ExtendedCapabilities::from_bytes(&[0xff]);
    assert!(caps.event());
    assert!(!caps.diagnostics());
    assert_eq!(caps.service_interval_granularity_ms(), None);
    assert_eq!(caps.max_msdus_in_amsdu(), None);
    let fields = caps.fields();
    assert_eq!(fields.len(), 1);
    assert_eq!(fields[0].title(), "Extended Capabilities (Octet 1)");
    assert_eq!(fields[0].byte(), Some(0xff));
    assert_eq!(fields[0].subfields().len(), 8);
    assert_eq!(fields[0].subfields()[5].title(), "Reserved");
}

#[test]
fn extended_capabilities_octet_fields() {
    let caps = ExtendedCapabilities::from_bytes(&[0u8; 12]);
    let fields = caps.fields();
    assert_eq!(fields.len(), 11);
    assert_eq!(fields[10].title(), "Extended Capabilities (Octet 11)");
    let sig = &fields[5].subfields()[1];
    assert_eq!(sig.title(), "Service Interval Granularity");
    assert_eq!(sig.value(), "5");
    assert_eq!(sig.units(), Some("ms"));
    assert_eq!(fields[7].subfields().len(), 8);
    assert_eq!(fields[7].subfields()[7].value(), "No Limit");
    let eight = ExtendedCapabilities::from_bytes(&[0u8; 8]).fields();
    assert_eq!(eight[7].subfields().len(), 7);
}

#[test]
fn capability_info_with_no_flags() {
    let c = CapabilityInfo::from_bytes(&[0, 0]).unwrap();
    assert_eq!(c.to_string(), "Capability Info:\n\t");
    assert_eq!(c.fields().len(), 12);
    assert_eq!(c.fields()[0].value(), "false");
    assert!(CapabilityInfo::from_bytes(&[1]).is_none());
}

#[test]
fn advertisement_protocol_round_trip() {
    let body = [0x7f, 0x00, 0x01, 221, 9, 3, 0xaa, 0xbb, 0xcc, 0x00, 20];
    let a = AdvertisementProtocol::from_bytes(&body).unwrap();
    assert_eq!(a.advertisement_protocol_tuple_list.len(), 3);
    assert_eq!(a.summary(), "Access Network Query Protocol (ANQP)");
    assert_eq!(a.advertisement_protocol_tuple_list[0].query_response_info.query_response_length_limit(), 127);
    match &a.advertisement_protocol_tuple_list[1].advertisement_protocol_id {
        AdvertisementProtocolId::VendorSpecific { id, len, vendor_specific } => {
            assert_eq!(*id, 9);
            assert_eq!(*len, 3);
            assert_eq!(vendor_specific.as_bytes(), &[0xaa, 0xbb, 0xcc]);
        }
        other => panic!("unexpected {:?}", other),
    }
    assert_eq!(a.advertisement_protocol_tuple_list[2].advertisement_protocol_id, AdvertisementProtocolId::Reserved(20));
    assert_eq!(a.to_bytes(), body.to_vec());
    let fields = a.fields();
    assert_eq!(fields.len(), 3);
    assert_eq!(fields[0].value(), "Access Network Query Protocol (ANQP)");
    assert_eq!(fields[0].subfields()[1].units(), Some("(0)"));
    assert_eq!(fields[1].subfields()[1].subfields().len(), 4);
}

#[test]
fn advertisement_protocol_cut_short() {
    assert!(AdvertisementProtocol::from_bytes(&[0x00]).is_none());
    assert!(AdvertisementProtocol::from_bytes(&[0x00, 221, 1, 5, 0]).is_none());
    assert_eq!(AdvertisementProtocol::from_bytes(&[]).unwrap().summary(), "");
}

#[test]
fn reduced_neighbor_report() {
    let body = [0x00, 13, 81, 6, 10, 1, 2, 3, 4, 5, 6, 0xaa, 0xbb, 0xcc, 0xdd, 0x41, 0xfb];
    let r = ReducedNeighborReport::from_bytes(&body).unwrap();
    assert_eq!(r.summary(), "1 Report");
    let f = &r.neighbor_ap_information_fields[0];
    assert_eq!(f.operating_class, 81);
    assert_eq!(f.channel_number, 6);
    assert_eq!(f.tbtt_information_set.len(), 1);
    let t = &f.tbtt_information_set[0];
    assert_eq!(t.neighbor_ap_tbtt_offset, 10);
    assert_eq!(t.bssid, Some([1, 2, 3, 4, 5, 6]));
    assert_eq!(t.short_ssid, Some([0xaa, 0xbb, 0xcc, 0xdd]));
    assert_eq!(t.twenty_mhz_psd, Some(-5));
    let field = t.to_field();
    assert_eq!(field.subfields()[1].value(), "01:02:03:04:05:06");
    assert_eq!(field.subfields()[2].value(), "[\n    170,\n    187,\n    204,\n    221,\n]");
    assert_eq!(field.subfields()[4].value(), "-2.5");
    assert!(ReducedNeighborReport::from_bytes(&body[..16]).is_none());
    assert_eq!(ReducedNeighborReport::from_bytes(&[]).unwrap().summary(), "0 Reports");
}

#[test]
fn reduced_neighbor_report_written_back() {
    let body = [
        0x00, 13, 81, 6, 10, 1, 2, 3, 4, 5, 6, 0xaa, 0xbb, 0xcc, 0xdd, 0x41, 0xfb, 0x10, 1, 115, 36, 7, 9,
    ];
    let r = ReducedNeighborReport::from_bytes(&body).unwrap();
    assert_eq!(r.summary(), "2 Reports");
    assert_eq!(r.neighbor_ap_information_fields[1].tbtt_information_set.len(), 2);
    assert_eq!(r.to_bytes(), body.to_vec());
}

#[test]
fn psd_text() {
    assert_eq!(psd_string(0), "0");
    assert_eq!(psd_string(-1), "-0.5");
    assert_eq!(psd_string(20), "10");
    assert_eq!(psd_string(127), "63.5");
    assert_eq!(psd_string(-128), "-64");
}

#[test]
fn time_advertisement_utc() {
    let body = [2, 0xe8, 0x07, 3, 14, 15, 9, 26, 0x35, 0x02, 0, 5, 0, 0, 0, 0, 7];
    let t = TimeAdvertisement::from_bytes(&body).unwrap();
    assert_eq!(t.timing_capabilities, TimingCapabilities::UtcTimeAtWhichTsfTimerIs0);
    let v = t.time_value.unwrap();
    assert_eq!(v.year, 2024);
    assert_eq!(v.milliseconds, 565);
    assert_eq!(t.time_error, Some(5));
    assert_eq!(t.time_update_counter, Some(7));
    assert_eq!(t.summary(), "UTC time at which the TSF timer is 0");
    let fields = t.fields();
    assert_eq!(fields.len(), 4);
    assert_eq!(fields[2].units(), Some("ms"));
    assert!(TimeAdvertisement::from_bytes(&body[..16]).is_none());
}

#[test]
fn time_advertisement_offset_and_reserved() {
    let mut body = vec![1, 0x10, 0x27, 0, 0, 0, 0, 0, 0, 0, 0];
    body.extend_from_slice(&[1, 0, 0, 0, 0]);
    let t = TimeAdvertisement::from_bytes(&body).unwrap();
    assert_eq!(t.time_value_ns, Some(10000));
    let fields = t.fields();
    assert_eq!(fields[1].value(), "10000");
    assert_eq!(fields[1].bytes().unwrap().len(), 10);
    assert_eq!(fields[2].units(), Some("ns"));
    let r = TimeAdvertisement::from_bytes(&[9, 1, 2]).unwrap();
    assert_eq!(r.timing_capabilities, TimingCapabilities::Reserved(9));
    assert_eq!(r.reserved, Some(vec![1, 2]));
    assert_eq!(r.summary(), "Reserved (9)");
}

#[test]
fn fils_indication() {
    let body = [0b1000_1001, 0, 0x34, 0x12, 0x11, 0x22, 1, 1, 9];
    let f = FilsIndication::from_bytes(&body).unwrap();
    assert_eq!(f.cache_identifier, Some(0x1234));
    assert_eq!(f.hessid, None);
    assert_eq!(f.realm_identifiers.len(), 1);
    assert_eq!(f.realm_identifiers[0].hashed_realm, 0x2211);
    assert_eq!(f.public_key_identifiers.len(), 1);
    assert_eq!(f.public_key_identifiers[0].key_type, 1);
    assert_eq!(f.public_key_identifiers[0].public_key_indicator, vec![9]);
    let fields = f.fields();
    assert_eq!(fields.len(), 4);
    assert_eq!(fields[3].subfields()[2].value(), "[\n    9,\n]");
    assert!(FilsIndication::from_bytes(&body[..8]).is_none());
}

#[test]
fn measurement_request() {
    let m = MeasurementRequest::from_bytes(&[4, 0b0000_0010, 5, 1, 2]).unwrap();
    assert_eq!(m.measurement_token, 4);
    assert!(m.measurement_request_mode.enable());
    assert_eq!(m.measurement_type, MeasurementType::Beacon);
    assert_eq!(m.measurement_request, vec![1, 2]);
    assert_eq!(m.summary(), "Measurement Type: Beacon");
    assert_eq!(m.fields()[3].value(), "[\n    1,\n    2,\n]");
    assert_eq!(MeasurementRequest::from_bytes(&[1, 0, 200]).unwrap().summary(), "Measurement Type: Reserved (200)");
    assert_eq!(MeasurementRequest::from_bytes(&[1, 0, 200]).unwrap().fields()[3].value(), "[]");
    assert!(MeasurementRequest::from_bytes(&[1, 0]).is_none());
}

#[test]
fn vendor_specific() {
    let wpa = VendorSpecific::from_bytes(&[0x00, 0x50, 0xF2, 0x01, 0x01]);
    assert!(wpa.is_wpa());
    assert_eq!(wpa.summary(), "OUI: 00:50:F2");
    assert_eq!(wpa.oui(), Some([0x00, 0x50, 0xF2]));
    let fields = wpa.fields();
    assert_eq!(fields.len(), 2);
    assert_eq!(fields[1].bytes(), Some(&[0x01, 0x01][..]));
    let short = VendorSpecific::from_bytes(&[0x00, 0x50]);
    assert!(!short.is_wpa());
    assert_eq!(short.summary(), "");
    assert!(short.fields().is_empty());
}

#[test]
fn small_elements() {
    let a = Antenna::from_bytes(&[3]).unwrap();
    assert_eq!(a.summary(), "ID: 3");
    assert_eq!(ApConfigurationSequenceNumber::from_bytes(&[17]).unwrap().summary(), "17");
    let w = AwakeWindow::from_bytes(&[0xf4, 0x01]).unwrap();
    assert_eq!(w.awake_window_duration_micros, 500);
    assert_eq!(w.summary(), "Duration: 500 μs");
    assert!(AwakeWindow::from_bytes(&[1]).is_none());
}

#[test]
fn rsn_capabilities_peerkey_and_joint_multiband() {
    let caps = RsnCapabilities::from_bytes(&[0x00, 0x02]).unwrap();
    assert!(caps.peerkey_enabled());
    assert!(!caps.joint_multiband_rsna());
    let f = caps.to_field();
    assert_eq!(f.subfields()[6].title(), "Joint Multi-band RSNA");
    assert_eq!(f.subfields()[6].value(), "false");
    assert_eq!(f.subfields()[7].title(), "PeerKey Enabled");
    assert_eq!(f.subfields()[7].value(), "false");
    let caps = RsnCapabilities::from_bytes(&[0x00, 0x01]).unwrap();
    let f = caps.to_field();
    assert_eq!(f.subfields()[6].value(), "true");
    assert_eq!(f.subfields()[7].value(), "true");
}

#[test]
fn challenge_text_lossy_and_exact() {
    let t = ChallengeText::from_bytes(b"abc");
    assert_eq!(t.as_str().unwrap(), "abc");
    assert_eq!(t.to_string_lossy(), "abc");
    assert_eq!(t.summary(), "abc");
    let bad = ChallengeText::from_bytes(&[b'a', 0xff, b'b']);
    assert!(bad.as_str().is_err());
    assert!(bad.to_string_lossy().contains('\u{FFFD}'));
    assert_eq!(bad.to_string_lossy(), "a\u{FFFD}b");
}
