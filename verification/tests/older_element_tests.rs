use kawaiifi::bss::scan_width::ScanWidth;
use kawaiifi::channel_width::{ChannelWidth, ChannelWidths};
use kawaiifi::ies::bss_load::BssLoad;
use kawaiifi::ies::channel_switch_announcement::ChannelSwitchAnnouncement;
use kawaiifi::ies::ds_parameter_set::DsParameterSet;
use kawaiifi::ies::elements::mobility_domain::MobilityDomain;
use kawaiifi::ies::elements::roaming_consortium::RoamingConsortium;
use kawaiifi::ies::elements::rsn::Rsn;
use kawaiifi::ies::elements::tim::Tim;
use kawaiifi::ies::elements::vht_operation::VhtOperation;
use kawaiifi::ies::ht_capabilities::HtCapabilities;
use kawaiifi::ies::ssid::Ssid;

#[test]
fn rsn_summary_lists_ciphers_and_authentication() {
    let body = [
        1, 0, 0x00, 0x0f, 0xac, 4, 1, 0, 0x00, 0x0f, 0xac, 4, 2, 0, 0x00, 0x0f, 0xac, 2, 0x00, 0x0f, 0xac, 8,
        0x0c, 0x00,
    ];
    let rsn = Rsn::from_bytes(&body).unwrap();
    assert_eq!(rsn.summary(), "Group Cipher: CCMP-128, Pairwise Cipher: CCMP-128, AKM Suites: PSK, SAE");
}

#[test]
fn rsn_with_only_version() {
    let rsn = Rsn::from_bytes(&[1, 0]).unwrap();
    assert_eq!(rsn.summary(), "");
    assert!(Rsn::from_bytes(&[1]).is_none());
}

fn ht_capabilities_body() -> Vec<u8> {
    let mut body = vec![0x6e, 0x00, 0x17, 0xff, 0xff];
    body.extend_from_slice(&[0u8; 14]);
    body.extend_from_slice(&[0u8; 7]);
    body
}

#[test]
fn ht_capabilities_summary_and_rate_inputs() {
    let body = ht_capabilities_body();
    assert_eq!(body.len(), 26);
    let ht = HtCapabilities::from_bytes(&body).unwrap();
    assert_eq!(ht.summary(), "20/40 MHz, 2 Spatial Streams");
    assert_eq!(ht.max_mcs(), 7);
    assert!(ht.supports_short_gi_for_width(ChannelWidth::FortyMhz));
    assert!(!ht.supports_short_gi_for_width(ChannelWidth::EightyMhz));
    assert_eq!(ht.supported_mcs_set.max_spatial_streams(), 2);
    assert_eq!(ht.supported_mcs_set.max_mcs_for_stream(3), None);
}

#[test]
fn vht_operation_summary() {
    let op = VhtOperation::from_bytes(&[1, 42, 0, 0xfc, 0xff]).unwrap();
    assert_eq!(op.summary(), "80/160/80+80 MHz, Channel Center Frequency Segment 0: 42");
    assert_eq!(op.channel_width(), Some(ChannelWidth::EightyMhz));
    let narrow = VhtOperation::from_bytes(&[0, 0, 0, 0xfc, 0xff]).unwrap();
    assert_eq!(narrow.channel_width(), None);
    assert_eq!(narrow.summary(), "20/40 MHz");
    assert!(VhtOperation::from_bytes(&[4, 0, 0, 0, 0]).is_none());
}

#[test]
fn simple_element_summaries() {
    assert_eq!(Tim::from_bytes(&[0, 3, 0, 0]).unwrap().summary(), "DTIM Count: 0, DTIM Period: 3");
    assert_eq!(DsParameterSet::from_bytes(&[11]).unwrap().summary(), "Current Channel: 11");
    assert_eq!(
        BssLoad::from_bytes(&[3, 0, 51, 0, 0]).unwrap().summary(),
        "Station Count: 3, Channel Utilization: 20%"
    );
    assert_eq!(
        ChannelSwitchAnnouncement::from_bytes(&[1, 36, 5]).unwrap().summary(),
        "Mode: 1, New Channel: 36, Switch Count: 5"
    );
    assert_eq!(MobilityDomain::from_bytes(&[0x34, 0x12, 0]).unwrap().summary(), "MDID: 4660");
    assert_eq!(RoamingConsortium::from_bytes(&[1, 0x03, 0x50, 0x6f, 0x9a]).unwrap().summary(), "1 ANQP OI");
}

#[test]
fn ssid_text() {
    let ssid = Ssid::from_bytes(b"caf\xc3\xa9");
    assert_eq!(ssid.as_str().unwrap(), "café");
    let bad = Ssid::from_bytes(&[0x66, 0xff]);
    assert!(bad.as_str().is_err());
    assert_eq!(bad.to_string_lossy(), "f\u{fffd}");
    assert!(Ssid::from_bytes(&[]).is_empty());
}

#[test]
fn channel_width_set_text() {
    let mut widths = ChannelWidths::new();
    assert!(widths.is_empty());
    assert!(widths.insert(ChannelWidth::FortyMhz));
    assert!(!widths.insert(ChannelWidth::FortyMhz));
    assert!(widths.insert(ChannelWidth::TwentyMhz));
    assert_eq!(widths.len(), 2);
    assert!(widths.contains(ChannelWidth::TwentyMhz));
    assert_eq!(widths.to_string(), "40 MHz, 20 MHz");
    assert_eq!(ChannelWidth::EightyPlusEightyMhz.to_string(), "80+80 MHz");
}

#[test]
fn scan_width_codes() {
    assert_eq!(ScanWidth::from_u32(3), Some(ScanWidth::OneMhz));
    assert_eq!(ScanWidth::OneMhz.to_u32(), 3);
    assert_eq!(ScanWidth::from_u32(5), None);
}

#[test]
fn bss_load_utilization_is_scaled_to_percent() {
    let full = BssLoad { station_count: 3, channel_utilization: 255, available_admission_capacity: 0 };
    assert_eq!(full.summary(), "Station Count: 3, Channel Utilization: 100%");
    assert_eq!(full.utilization_percent(), 100);
    let idle = BssLoad { station_count: 0, channel_utilization: 0, available_admission_capacity: 0 };
    assert_eq!(idle.summary(), "Station Count: 0, Channel Utilization: 0%");
    let half = BssLoad { station_count: 1, channel_utilization: 128, available_admission_capacity: 0 };
    assert_eq!(half.utilization_percent(), 50);
    let f = half.fields();
    assert_eq!(f[1].value(), "50%");
    assert_eq!(BssLoad { station_count: 1, channel_utilization: 20, available_admission_capacity: 0 }.utilization_percent(), 8);
    assert_eq!(BssLoad { station_count: 1, channel_utilization: 1, available_admission_capacity: 0 }.utilization_percent(), 0);
    assert_eq!(BssLoad { station_count: 1, channel_utilization: 2, available_admission_capacity: 0 }.utilization_percent(), 1);
}
