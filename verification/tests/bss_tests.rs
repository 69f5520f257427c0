use std::hash::{Hash, Hasher};
use kawaiifi::bss::basic_service_set::{
    channel_to_frequency_mhz, last_seen_utc_at, Bss, BssStatus, ChannelBand, CoreWlanNetwork, WlanBssEntry,
};
use kawaiifi::bss::nl80211::{NlAttribute, Nl80211ParseError};
use kawaiifi::ies::ie::{from_bytes, IeData};
use kawaiifi::ChannelWidth;

fn element(id: u8, body: &[u8]) -> Vec<u8> {
    let mut v = vec![id, body.len() as u8];
    v.extend_from_slice(body);
    v
}

fn ht_operation(primary: u8, info0: u8) -> Vec<u8> {
    let mut body = vec![primary, info0, 0, 0, 0, 0];
    body.extend_from_slice(&[0u8; 16]);
    element(61, &body)
}

fn vht_operation(width: u8, s0: u8, s1: u8) -> Vec<u8> {
    element(192, &[width, s0, s1, 0xfc, 0xff])
}

fn wlan_entry(khz: u32, ies: Vec<u8>) -> WlanBssEntry {
    WlanBssEntry {
        bssid: [0x02, 0x11, 0x22, 0x33, 0x44, 0x55],
        center_frequency_khz: khz,
        rssi: -60,
        beacon_period: 100,
        capability_information: 0x0411,
        host_timestamp: 116_444_736_000_000_000 + 15_000_000_000,
        timestamp: 123_456,
        link_quality: 250,
        ies,
    }
}

#[test]
fn wlan_entry_fields() {
    let bss = Bss::from_wlan_entry(&wlan_entry(2_412_000, element(0, b"Lab")));
    assert_eq!(bss.frequency_mhz(), 2412);
    assert_eq!(bss.signal_dbm(), -60);
    assert_eq!(bss.beacon_interval_tu(), 100);
    assert_eq!(bss.tsf(), 123_456);
    assert_eq!(bss.link_quality(), 100);
    assert_eq!(bss.ssid(), Some("Lab"));
    let t = bss.last_seen_utc().unwrap();
    assert_eq!(t.secs, 1500);
    assert_eq!(t.nanos, 0);
    assert!(bss.capability_info().ess);
    assert!(bss.capability_info().privacy);
    assert!(bss.capability_info().short_slot_time);
    assert_eq!(
        bss.capability_info().to_string(),
        "Capability Info:\n\tESS\r\n\tPrivacy\r\n\tShort Slot Time"
    );
}

#[test]
fn channel_width_prefers_vht_over_ht() {
    let mut ies = ht_operation(36, 0b101);
    ies.extend(vht_operation(1, 42, 0));
    let bss = Bss::from_wlan_entry(&wlan_entry(5_180_000, ies));
    assert_eq!(bss.channel_width(), ChannelWidth::EightyMhz);
    assert_eq!(bss.center_frequency_mhz(), 5210);
    assert_eq!(bss.channel_number(), 36);
}

#[test]
fn ht_secondary_channel_offsets_the_center() {
    let above = Bss::from_wlan_entry(&wlan_entry(5_180_000, ht_operation(36, 0b101)));
    assert_eq!(above.channel_width(), ChannelWidth::FortyMhz);
    assert_eq!(above.center_frequency_mhz(), 5190);
    let below = Bss::from_wlan_entry(&wlan_entry(5_200_000, ht_operation(40, 0b111)));
    assert_eq!(below.center_frequency_mhz(), 5190);
}

#[test]
fn ht_twenty_mhz_sta_width_keeps_the_primary() {
    let bss = Bss::from_wlan_entry(&wlan_entry(5_180_000, ht_operation(36, 0b001)));
    assert_eq!(bss.channel_width(), ChannelWidth::TwentyMhz);
    assert_eq!(bss.center_frequency_mhz(), 5180);
    let below = Bss::from_wlan_entry(&wlan_entry(5_200_000, ht_operation(40, 0b011)));
    assert_eq!(below.center_frequency_mhz(), 5200);
}

#[test]
fn vht_160_uses_segment_one() {
    let ies = vht_operation(1, 42, 50);
    let bss = Bss::from_wlan_entry(&wlan_entry(5_180_000, ies));
    assert_eq!(bss.channel_width(), ChannelWidth::OneSixtyMhz);
    assert_eq!(bss.center_frequency_mhz(), 5250);
}

#[test]
fn no_operation_elements_means_20_mhz_on_the_primary() {
    let bss = Bss::from_wlan_entry(&wlan_entry(2_437_000, Vec::new()));
    assert_eq!(bss.channel_width(), ChannelWidth::TwentyMhz);
    assert_eq!(bss.center_frequency_mhz(), 2437);
    assert_eq!(bss.channel_number(), 6);
    assert_eq!(bss.ssid(), None);
}

#[test]
fn channel_number_from_frequency() {
    assert_eq!(Bss::from_wlan_entry(&wlan_entry(2_484_000, Vec::new())).channel_number(), 14);
    assert_eq!(Bss::from_wlan_entry(&wlan_entry(5_745_000, Vec::new())).channel_number(), 149);
    assert_eq!(Bss::from_wlan_entry(&wlan_entry(5_975_000, Vec::new())).channel_number(), 5);
    assert_eq!(Bss::from_wlan_entry(&wlan_entry(900_000, Vec::new())).channel_number(), 0);
}

#[test]
fn hidden_ssid_is_skipped() {
    let mut ies = element(0, b"");
    ies.extend(element(0, b"Second"));
    let bss = Bss::from_wlan_entry(&wlan_entry(2_412_000, ies));
    assert_eq!(bss.ssid(), Some("Second"));
}

#[test]
fn nul_ssid_is_hidden() {
    let bss = Bss::from_wlan_entry(&wlan_entry(2_412_000, element(0, &[0])));
    assert_eq!(bss.ssid(), None);
    let bss = Bss::from_wlan_entry(&wlan_entry(2_412_000, element(0, &[0, 0, 0, 0])));
    assert_eq!(bss.ssid(), None);
    let mut ies = element(0, &[0, 0]);
    ies.extend(element(0, b"Second"));
    let bss = Bss::from_wlan_entry(&wlan_entry(2_412_000, ies));
    assert_eq!(bss.ssid(), Some("Second"));
    let bss = Bss::from_wlan_entry(&wlan_entry(2_412_000, element(0, &[0, b'a'])));
    assert_eq!(bss.ssid(), Some("\0a"));
}

#[test]
fn host_timestamp_at_the_epoch() {
    let mut entry = wlan_entry(2_412_000, Vec::new());
    entry.host_timestamp = 116_444_736_000_000_000;
    let t = Bss::from_wlan_entry(&entry).last_seen_utc().unwrap();
    assert_eq!((t.secs, t.nanos), (0, 0));
}

#[test]
fn bss_hash_is_by_bssid() {
    let a = Bss::from_wlan_entry(&wlan_entry(2_412_000, Vec::new()));
    let b = Bss::from_wlan_entry(&wlan_entry(5_180_000, element(0, b"x")));
    let mut ha = std::collections::hash_map::DefaultHasher::new();
    a.hash(&mut ha);
    let mut hb = std::collections::hash_map::DefaultHasher::new();
    b.hash(&mut hb);
    assert_eq!(ha.finish(), hb.finish());
    let mut set = std::collections::HashSet::new();
    set.insert(a);
    set.insert(b);
    assert_eq!(set.len(), 1);
}

#[test]
fn bss_load_values() {
    let bss = Bss::from_wlan_entry(&wlan_entry(2_412_000, element(11, &[3, 0, 77, 0, 0])));
    assert_eq!(bss.station_count(), Some(3));
    assert_eq!(bss.channel_utilization(), Some(77));
    let none = Bss::from_wlan_entry(&wlan_entry(2_412_000, Vec::new()));
    assert_eq!(none.station_count(), None);
}

#[test]
fn bss_equality_is_by_bssid() {
    let a = Bss::from_wlan_entry(&wlan_entry(2_412_000, Vec::new()));
    let b = Bss::from_wlan_entry(&wlan_entry(5_180_000, element(0, b"x")));
    assert!(a == b);
    let mut other = wlan_entry(2_412_000, Vec::new());
    other.bssid = [1, 2, 3, 4, 5, 6];
    assert!(a != Bss::from_wlan_entry(&other));
}

#[test]
fn core_wlan_network() {
    let network = CoreWlanNetwork {
        bssid: None,
        channel: Some((36, ChannelBand::FiveGhz)),
        information_element_data: Some(element(0, b"Mac")),
        rssi: -40,
        beacon_interval_tu: 98,
        noise: -92,
    };
    let bss = Bss::from_core_wlan_network(&network).unwrap();
    assert_eq!(bss.bssid(), &[0u8; 6]);
    assert_eq!(bss.frequency_mhz(), 5180);
    assert_eq!(bss.noise_dbm(), -92);
    assert_eq!(bss.ssid(), Some("Mac"));
    let no_channel = CoreWlanNetwork { channel: None, ..network };
    assert!(Bss::from_core_wlan_network(&no_channel).is_none());
}

#[test]
fn channel_frequencies() {
    assert_eq!(channel_to_frequency_mhz(14, ChannelBand::TwoGhz), 2484);
    assert_eq!(channel_to_frequency_mhz(1, ChannelBand::TwoGhz), 2412);
    assert_eq!(channel_to_frequency_mhz(1, ChannelBand::SixGhz), 5955);
    assert_eq!(channel_to_frequency_mhz(149, ChannelBand::Unknown), 5745);
}

fn attr(kind: u16, payload: &[u8]) -> NlAttribute {
    NlAttribute { kind, payload: payload.to_vec() }
}

fn scan_result_attrs() -> Vec<NlAttribute> {
    let mut ies = element(0, b"Net");
    ies.extend(element(3, &[11]));
    vec![
        attr(1, &[0xaa, 0xbb, 0xcc, 0xdd, 0xee, 0xff]),
        attr(2, &2462u32.to_le_bytes()),
        attr(7, &(-5550i32).to_le_bytes()),
        attr(4, &100u16.to_le_bytes()),
        attr(5, &[0x01, 0x00]),
        attr(3, &42u64.to_le_bytes()),
        attr(6, &ies),
        attr(9, &1u32.to_le_bytes()),
        attr(14, &[]),
        attr(10, &250u32.to_le_bytes()),
        attr(18, &[1, 2, 3]),
    ]
}

#[test]
fn nl80211_scan_result() {
    let bss = Bss::try_from_nl80211(34, &scan_result_attrs(), 0).unwrap();
    assert_eq!(bss.bssid(), &[0xaa, 0xbb, 0xcc, 0xdd, 0xee, 0xff]);
    assert_eq!(bss.frequency_mhz(), 2462);
    assert_eq!(bss.signal_dbm(), -55);
    assert_eq!(bss.beacon_interval_tu(), 100);
    assert_eq!(bss.tsf(), 42);
    assert_eq!(bss.ssid(), Some("Net"));
    assert_eq!(bss.channel_number(), 11);
    assert_eq!(bss.status(), Some(BssStatus::Associated));
    assert!(bss.is_from_probe_response());
    assert_eq!(bss.seen_ms_ago(), Some(250));
    assert_eq!(bss.parent_bssid(), None);
    assert!(bss.capability_info().ess);
    assert!(bss.last_seen_utc().is_some());
}

#[test]
fn nl80211_errors() {
    assert_eq!(
        Bss::try_from_nl80211(33, &scan_result_attrs(), 0).unwrap_err(),
        Nl80211ParseError::UnexpectedCommand { expected: 34, got: 33 }
    );
    let mut attrs = scan_result_attrs();
    attrs.retain(|a| a.kind != 2);
    assert_eq!(
        Bss::try_from_nl80211(34, &attrs, 0).unwrap_err(),
        Nl80211ParseError::MissingAttribute("Nl80211Bss::Frequency")
    );
    let mut short = scan_result_attrs();
    short.push(attr(3, &[1, 2]));
    assert_eq!(
        Bss::try_from_nl80211(34, &short, 0).unwrap_err(),
        Nl80211ParseError::InvalidPayload("Nl80211Bss::Tsf")
    );
}

fn he_and_eht_elements() -> Vec<u8> {
    let mut eht_body = vec![108u8];
    eht_body.extend_from_slice(&[0u8; 11]);
    eht_body.extend_from_slice(&[0x22, 0x22, 0x22]);
    let mut he_body = vec![35u8];
    he_body.extend_from_slice(&[0u8; 17]);
    he_body.extend_from_slice(&[0xfa, 0xff, 0xfa, 0xff]);
    let mut ies = element(255, &eht_body);
    ies.extend(element(255, &he_body));
    ies
}

#[test]
fn eht_capabilities_are_read_again_with_he_capabilities() {
    let raw = from_bytes(&he_and_eht_elements());
    match &raw[0].data {
        IeData::EhtCapabilities(c) => assert!(c.supported_eht_mcs_and_nss_set.is_none()),
        other => panic!("unexpected {:?}", other),
    }
    let bss = Bss::from_wlan_entry(&wlan_entry(5_180_000, he_and_eht_elements()));
    match (&bss.ies()[0].data, &bss.ies()[1].data) {
        (IeData::EhtCapabilities(c), IeData::HeCapabilities(h)) => {
            assert!(c.supported_eht_mcs_and_nss_set.is_some());
            assert_eq!(c.max_spatial_streams(), 2);
            assert_eq!(c.max_mcs(), 13);
            assert_eq!(h.max_mcs(), 11);
        }
        other => panic!("unexpected {:?}", other),
    }
}

#[test]
fn eht_maps_of_every_width_are_read_in_place() {
    let mut eht_body = vec![108u8, 0, 0, 0x02];
    eht_body.extend_from_slice(&[0u8; 8]);
    eht_body.extend_from_slice(&[0x22, 0x22, 0x22, 0x44, 0x44, 0x44, 0x66, 0x66, 0x66]);
    let mut he_body = vec![35u8];
    he_body.extend_from_slice(&[0u8; 6]);
    he_body.push(0x02);
    he_body.extend_from_slice(&[0u8; 10]);
    he_body.extend_from_slice(&[0xfa, 0xff, 0xfa, 0xff]);
    let mut ies = element(255, &eht_body);
    ies.extend(element(255, &he_body));
    let bss = Bss::from_wlan_entry(&wlan_entry(5_180_000, ies));
    match &bss.ies()[0].data {
        IeData::EhtCapabilities(c) => {
            let set = c.supported_eht_mcs_and_nss_set.as_ref().unwrap();
            assert_eq!(set.eht_mcs_map_bw_lte_80_mhz_except_20_mhz_only_non_ap_sta.to_bytes(), vec![0x22, 0x22, 0x22]);
            assert_eq!(set.eht_mcs_map_bw_eq_160_mhz.as_ref().unwrap().to_bytes(), vec![0x44, 0x44, 0x44]);
            assert_eq!(set.eht_mcs_map_bw_eq_320_mhz.as_ref().unwrap().to_bytes(), vec![0x66, 0x66, 0x66]);
        }
        other => panic!("unexpected {:?}", other),
    }
}

#[test]
fn channel_number_below_the_bands_channel_zero() {
    assert_eq!(Bss::from_wlan_entry(&wlan_entry(2_401_000, Vec::new())).channel_number(), 0);
    assert_eq!(Bss::from_wlan_entry(&wlan_entry(2_406_000, Vec::new())).channel_number(), 0);
    assert_eq!(Bss::from_wlan_entry(&wlan_entry(2_407_000, Vec::new())).channel_number(), 0);
    assert_eq!(Bss::from_wlan_entry(&wlan_entry(2_412_000, Vec::new())).channel_number(), 1);
    assert_eq!(Bss::from_wlan_entry(&wlan_entry(5_945_000, Vec::new())).channel_number(), 0);
    assert_eq!(Bss::from_wlan_entry(&wlan_entry(5_955_000, Vec::new())).channel_number(), 1);
}

#[test]
fn last_seen_from_a_clock_reading() {
    let now = kawaiifi::bss::utc::utc_from_timestamp(1_000, 0);
    let t = last_seen_utc_at(Some(3_000_000_000), None, 5_000_000_000, now).unwrap();
    assert_eq!((t.secs, t.nanos), (998, 0));
    let t = last_seen_utc_at(None, Some(500), 0, now).unwrap();
    assert_eq!((t.secs, t.nanos), (999, 500_000_000));
    assert!(last_seen_utc_at(None, None, 0, now).is_none());
    assert!(last_seen_utc_at(Some(1), None, 2, None).is_none());
}
