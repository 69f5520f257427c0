//! The scan width reported for a basic service set.
use vstd::prelude::*;

verus! {

/// The control channel width a BSS was scanned at, as numbered by the nl80211 scan width
/// attribute.
#[derive(Debug, Clone, Copy, PartialEq, Eq, Structural, Hash)]
pub enum ScanWidth {
    TwentyMhz,
    TenMhz,
    FiveMhz,
    OneMhz,
    TwoMhz,
}

impl ScanWidth {
    /// The width a raw nl80211 code stands for, if the code is defined.
    pub open spec fn spec_from_u32(v: u32) -> Option<ScanWidth> {
        if v == 0 {
            Some(ScanWidth::TwentyMhz)
        } else if v == 1 {
            Some(ScanWidth::TenMhz)
        } else if v == 2 {
            Some(ScanWidth::FiveMhz)
        } else if v == 3 {
            Some(ScanWidth::OneMhz)
        } else if v == 4 {
            Some(ScanWidth::TwoMhz)
        } else {
            None
        }
    }

    /// The raw nl80211 code of a width.
    pub open spec fn spec_to_u32(self) -> u32 {
        match self {
            ScanWidth::TwentyMhz => 0,
            ScanWidth::TenMhz => 1,
            ScanWidth::FiveMhz => 2,
            ScanWidth::OneMhz => 3,
            ScanWidth::TwoMhz => 4,
        }
    }

    /// Converts a raw nl80211 code; `None` for undefined codes.
    pub fn from_u32(v: u32) -> (r: Option<ScanWidth>)
        ensures
            r == Self::spec_from_u32(v),
    {
        if v == 0 {
            Some(ScanWidth::TwentyMhz)
        } else if v == 1 {
            Some(ScanWidth::TenMhz)
        } else if v == 2 {
            Some(ScanWidth::FiveMhz)
        } else if v == 3 {
            Some(ScanWidth::OneMhz)
        } else if v == 4 {
            Some(ScanWidth::TwoMhz)
        } else {
            None
        }
    }

    /// The raw nl80211 code of a width.
    pub fn to_u32(&self) -> (v: u32)
        ensures
            v == self.spec_to_u32(),
    {
        match self {
            ScanWidth::TwentyMhz => 0,
            ScanWidth::TenMhz => 1,
            ScanWidth::FiveMhz => 2,
            ScanWidth::OneMhz => 3,
            ScanWidth::TwoMhz => 4,
        }
    }
}

/// Converting a width to its code and back gives the same width.
pub proof fn lemma_scan_width_code_roundtrip(w: ScanWidth)
    ensures
        ScanWidth::spec_from_u32(w.spec_to_u32()) == Some(w),
{
}

} // verus!
