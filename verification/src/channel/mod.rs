//! Channel widths, including the non-HT and narrow OFDM widths.
pub mod channel_width;

pub use channel_width::{ChannelWidth, ChannelWidths};
