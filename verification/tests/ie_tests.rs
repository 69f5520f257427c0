use kawaiifi::ies::ie::{from_bytes, IeData};

fn element(id: u8, body: &[u8]) -> Vec<u8> {
    let mut v = vec![id, body.len() as u8];
    v.extend_from_slice(body);
    v
}

#[test]
fn parses_one_element_per_record() {
    let mut bytes = element(0, b"Home");
    bytes.extend(element(3, &[6]));
    bytes.extend(element(11, &[5, 0, 128, 0x10, 0x27]));
    let ies = from_bytes(&bytes);
    assert_eq!(ies.len(), 3);
    assert_eq!(ies[0].id, 0);
    assert_eq!(ies[0].name(), "SSID");
    assert_eq!(ies[1].name(), "DS Parameter Set");
    match &ies[2].data {
        IeData::BssLoad(load) => {
            assert_eq!(load.station_count, 5);
            assert_eq!(load.channel_utilization, 128);
            assert_eq!(load.available_admission_capacity, 10000);
        }
        other => panic!("unexpected data {:?}", other),
    }
}

#[test]
fn truncated_record_ends_the_list() {
    let mut bytes = element(3, &[1]);
    bytes.extend_from_slice(&[0, 5, b'a']);
    let ies = from_bytes(&bytes);
    assert_eq!(ies.len(), 1);
    assert_eq!(ies[0].id, 3);
}

#[test]
fn elements_encode_back_to_their_records() {
    let mut bytes = element(0, b"Cafe");
    bytes.extend(element(64, &[7]));
    bytes.extend(element(221, &[0x00, 0x50, 0xF2, 0x01, 0x01, 0x00]));
    let ies = from_bytes(&bytes);
    let mut out = Vec::new();
    for ie in &ies {
        out.extend(ie.to_bytes());
    }
    assert_eq!(out, bytes);
}

#[test]
fn extension_element_records_its_id_extension() {
    let bytes = element(255, &[200, 1, 2]);
    let ies = from_bytes(&bytes);
    assert_eq!(ies.len(), 1);
    assert_eq!(ies[0].id_ext, Some(200));
    assert!(matches!(ies[0].data, IeData::Unknown));
    assert_eq!(ies[0].name(), "Unknown");
}

#[test]
fn short_body_gives_unknown_data() {
    let bytes = element(11, &[1, 2]);
    let ies = from_bytes(&bytes);
    assert!(matches!(ies[0].data, IeData::Unknown));
}

#[test]
fn erp_info_is_decoded_under_both_ids() {
    let mut bytes = element(42, &[0b011]);
    bytes.extend(element(47, &[0b100]));
    let ies = from_bytes(&bytes);
    match (&ies[0].data, &ies[1].data) {
        (IeData::ErpInfo(a), IeData::ErpInfo(b)) => {
            assert!(a.non_erp_present());
            assert!(a.use_protection());
            assert!(!a.barker_preamble_mode());
            assert!(b.barker_preamble_mode());
        }
        other => panic!("unexpected data {:?}", other),
    }
}

#[test]
fn variable_length_elements_decode_in_full() {
    let mut bytes = element(5, &[1, 3, 0x01, 0xaa, 0xbb]);
    bytes.extend(element(7, &[b'U', b'S', 0x20, 36, 4, 23, 149, 5, 30, 0]));
    bytes.extend(element(74, &[20, 0, 10, 0, 44, 1, 200, 0, 20, 0, 5, 0, 25, 0]));
    bytes.extend(element(111, &[2, 0x33, 0x50, 0x6f, 0x9a, 0x00, 0x1b, 0xc5, 0x04]));
    let ies = from_bytes(&bytes);
    assert_eq!(ies.len(), 4);
    match &ies[0].data {
        IeData::Tim(t) => {
            assert_eq!((t.dtim_count, t.dtim_period), (1, 3));
            assert!(t.bitmap_control.is_some());
            assert_eq!(t.partial_virtual_bitmap, Some(vec![0xaa, 0xbb]));
        }
        other => panic!("unexpected data {:?}", other),
    }
    match &ies[1].data {
        IeData::Country(c) => {
            assert_eq!(c.country_code, [b'U', b'S']);
            assert_eq!(c.triplets.len(), 2);
            assert_eq!(c.padding, Some(0));
        }
        other => panic!("unexpected data {:?}", other),
    }
    match &ies[2].data {
        IeData::OverlappingBssScanParams(p) => {
            assert_eq!(p.obss_scan_passive_dwell_tu, 20);
            assert_eq!(p.obss_scan_active_dwell_tu, 10);
            assert_eq!(p.bss_channel_width_trigger_scan_interval_secs, 300);
            assert_eq!(p.obss_scan_passive_total_per_channel_tu, 200);
            assert_eq!(p.obss_scan_active_total_per_channel_tu, 20);
            assert_eq!(p.bss_width_channel_transition_delay_factor, 5);
            assert_eq!(p.obss_scan_activity_threshold, 25);
        }
        other => panic!("unexpected data {:?}", other),
    }
    match &ies[3].data {
        IeData::RoamingConsortium(r) => {
            assert_eq!(r.number_of_anqp_ois, 2);
            assert_eq!(r.oi_1, vec![0x50, 0x6f, 0x9a]);
            assert_eq!(r.oi_2, Some(vec![0x00, 0x1b, 0xc5]));
            assert_eq!(r.oi_3, Some(vec![0x04]));
        }
        other => panic!("unexpected data {:?}", other),
    }
}
