//! Basic service sets: one access point's radio as seen in a scan.
pub mod basic_service_set;
pub mod bss;
pub mod capability_info;
pub mod nl80211;
pub mod scan_width;
pub mod utc;

pub use basic_service_set::Bss;
pub use capability_info::CapabilityInfo;
pub use scan_width::ScanWidth;
