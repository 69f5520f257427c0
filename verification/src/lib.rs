//! Wi-Fi scan data: bands, channel widths, information elements and basic service sets.
pub mod band;
pub mod bits;
pub mod bss;
pub mod channel;
pub mod channel_width;
pub mod field;
pub mod ies;
pub mod text;
pub mod utf8;

pub use band::Band;
pub use channel_width::{ChannelWidth, ChannelWidths};
