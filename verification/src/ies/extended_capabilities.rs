//! The Extended Capabilities element, also reachable under its earlier module path.
pub use crate::ies::elements::extended_capabilities::{ExtendedCapabilities, MaxMsdus};
