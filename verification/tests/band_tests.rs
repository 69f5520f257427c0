use kawaiifi::Band;

#[test]
fn band_from_frequency() {
    assert_eq!(Band::from_freq_mhz(2412), Band::TwoPointFourGhz);
    assert_eq!(Band::from_freq_mhz(5180), Band::FiveGhz);
    assert_eq!(Band::from_freq_mhz(5955), Band::SixGhz);
    assert_eq!(Band::from_freq_mhz(1000), Band::TwoPointFourGhz);
}

#[test]
fn band_limits() {
    assert_eq!(Band::FiveGhz.min_freq_mhz(), 5150);
    assert_eq!(Band::FiveGhz.max_freq_mhz(), 5895);
    assert_eq!(Band::SixGhz.range_mhz(), 5945..=7125);
}
