use core::ops::RangeInclusive;
use vstd::prelude::*;

verus! {

/// The frequency bands a Wi-Fi basic service set can operate on.
#[derive(Debug, Clone, Copy, PartialEq, Eq, Structural, Hash, PartialOrd, Ord)]
pub enum Band {
    TwoPointFourGhz,
    FiveGhz,
    SixGhz,
}

/// The lowest frequency (MHz) that belongs to a band.
pub open spec fn spec_min_freq_mhz(band: Band) -> u32 {
    match band {
        Band::TwoPointFourGhz => 2401,
        Band::FiveGhz => 5150,
        Band::SixGhz => 5945,
    }
}

/// The highest frequency (MHz) that belongs to a band.
pub open spec fn spec_max_freq_mhz(band: Band) -> u32 {
    match band {
        Band::TwoPointFourGhz => 2495,
        Band::FiveGhz => 5895,
        Band::SixGhz => 7125,
    }
}

/// Whether a frequency lies within a band's inclusive range.
pub open spec fn in_band(band: Band, freq_mhz: u32) -> bool {
    spec_min_freq_mhz(band) <= freq_mhz <= spec_max_freq_mhz(band)
}

/// The band a frequency belongs to; frequencies outside every band count as 2.4 GHz.
pub open spec fn spec_band_of(freq_mhz: u32) -> Band {
    if in_band(Band::TwoPointFourGhz, freq_mhz) {
        Band::TwoPointFourGhz
    } else if in_band(Band::FiveGhz, freq_mhz) {
        Band::FiveGhz
    } else if in_band(Band::SixGhz, freq_mhz) {
        Band::SixGhz
    } else {
        Band::TwoPointFourGhz
    }
}

impl Band {
    /// The band a frequency belongs to. Frequencies outside all bands map to 2.4 GHz.
    pub fn from_freq_mhz(freq_mhz: u32) -> (band: Band)
        ensures
            band == spec_band_of(freq_mhz),
    {
        if Band::TwoPointFourGhz.contains_freq_mhz(freq_mhz) {
            Band::TwoPointFourGhz
        } else if Band::FiveGhz.contains_freq_mhz(freq_mhz) {
            Band::FiveGhz
        } else if Band::SixGhz.contains_freq_mhz(freq_mhz) {
            Band::SixGhz
        } else {
            Band::TwoPointFourGhz
        }
    }

    /// Whether `freq_mhz` lies in this band's inclusive frequency range.
    pub fn contains_freq_mhz(&self, freq_mhz: u32) -> (r: bool)
        ensures
            r == in_band(*self, freq_mhz),
    {
        self.min_freq_mhz() <= freq_mhz && freq_mhz <= self.max_freq_mhz()
    }

    /// The lowest frequency of the band in MHz.
    pub fn min_freq_mhz(&self) -> (f: u32)
        ensures
            f == spec_min_freq_mhz(*self),
    {
        match self {
            Band::TwoPointFourGhz => 2401,
            Band::FiveGhz => 5150,
            Band::SixGhz => 5945,
        }
    }

    /// The highest frequency of the band in MHz.
    pub fn max_freq_mhz(&self) -> (f: u32)
        ensures
            f == spec_max_freq_mhz(*self),
    {
        match self {
            Band::TwoPointFourGhz => 2495,
            Band::FiveGhz => 5895,
            Band::SixGhz => 7125,
        }
    }

    /// The inclusive range of frequencies (MHz) covered by the band.
    pub fn range_mhz(&self) -> (r: RangeInclusive<u32>)
        ensures
            r@.start == spec_min_freq_mhz(*self),
            r@.end == spec_max_freq_mhz(*self),
            !r@.exhausted,
    {
        RangeInclusive::new(self.min_freq_mhz(), self.max_freq_mhz())
    }

    /// The human-readable name of the band.
    pub fn to_string(&self) -> (s: String)
        ensures
            s@ == spec_band_name(*self),
    {
        match self {
            Band::TwoPointFourGhz => String::from_str("2.4 GHz"),
            Band::FiveGhz => String::from_str("5 GHz"),
            Band::SixGhz => String::from_str("6 GHz"),
        }
    }
}

/// The human-readable name of a band.
pub open spec fn spec_band_name(band: Band) -> Seq<char> {
    match band {
        Band::TwoPointFourGhz => "2.4 GHz"@,
        Band::FiveGhz => "5 GHz"@,
        Band::SixGhz => "6 GHz"@,
    }
}

impl Default for Band {
    fn default() -> (b: Band)
        ensures
            b == Band::TwoPointFourGhz,
    {
        Band::TwoPointFourGhz
    }
}

/// The bands are disjoint: no frequency lies in two of them.
pub proof fn lemma_bands_disjoint(freq_mhz: u32)
    ensures
        !(in_band(Band::TwoPointFourGhz, freq_mhz) && in_band(Band::FiveGhz, freq_mhz)),
        !(in_band(Band::FiveGhz, freq_mhz) && in_band(Band::SixGhz, freq_mhz)),
        !(in_band(Band::TwoPointFourGhz, freq_mhz) && in_band(Band::SixGhz, freq_mhz)),
{
}

/// A frequency inside a band is classified as that band.
pub proof fn lemma_band_of_in_band(band: Band, freq_mhz: u32)
    requires
        in_band(band, freq_mhz),
    ensures
        spec_band_of(freq_mhz) == band,
{
}

} // verus!
