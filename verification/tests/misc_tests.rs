use kawaiifi::bss::utc::{utc_from_clock, utc_from_timestamp, utc_now};
use kawaiifi::field::Field;

#[test]
fn simple_field_text() {
    let f = Field::new("SSID", "Home");
    assert_eq!(f.to_string(), "SSID: Home");
    let g = Field::with_subfields("Rates", "2", vec![Field::new("Basic", "1"), Field::new("Extended", "1")]);
    assert_eq!(g.to_string(), "Rates: 2\n- Basic: 1\n- Extended: 1");
    assert_eq!(g.subfields().unwrap().len(), 2);
    assert!(f.subfields().is_none());
}

#[test]
fn utc_timestamps() {
    let t = utc_from_timestamp(1_431_648_000, 5).unwrap();
    assert_eq!(t.secs, 1_431_648_000);
    assert_eq!(t.nanos, 5);
    assert!(utc_from_timestamp(i64::MAX, 0).is_none());
    assert!(utc_from_timestamp(0, 2_000_000_000).is_none());
    let now = utc_now().unwrap();
    assert!(now.secs > 1_600_000_000);
    assert!(utc_from_timestamp(8_210_266_876_799, 0).is_some());
    assert!(utc_from_timestamp(8_210_266_876_800, 0).is_none());
    assert!(utc_from_timestamp(-8_334_601_228_800, 0).is_some());
    assert!(utc_from_timestamp(-8_334_601_228_801, 0).is_none());
    assert!(utc_from_timestamp(59, 1_500_000_000).is_some());
    assert!(utc_from_timestamp(58, 1_500_000_000).is_none());
}

#[test]
fn utc_from_clock_readings() {
    assert!(utc_from_clock(None).is_none());
    let t = utc_from_clock(Some((1_000, 7))).unwrap();
    assert_eq!((t.secs, t.nanos), (1_000, 7));
    assert!(utc_from_clock(Some((u64::MAX, 0))).is_none());
    assert!(utc_from_clock(Some((8_210_266_876_800, 0))).is_none());
}

#[test]
fn bit_range_text() {
    assert_eq!(kawaiifi::ies::field::BitRange::new(&[0x30, 0x0A], 4, 8).to_string(), ".... 1010 0011 ....");
    assert_eq!(kawaiifi::ies::field::BitRange::from_byte(0b0010_1100, 1, 5).to_string(), "..10 110.");
}

#[test]
fn element_field_text() {
    let f = kawaiifi::ies::field::Field::new("BSS Load", "").with_subfields(vec![
        kawaiifi::ies::field::Field::new("Station Count", "3"),
        kawaiifi::ies::field::Field::new("Channel Utilization", "20"),
    ]);
    assert_eq!(f.to_string(), "BSS Load: \n- Station Count: 3\n- Channel Utilization: 20");
    assert_eq!(kawaiifi::ies::field::Field::new("SSID", "x").to_string(), "SSID: x");
}
