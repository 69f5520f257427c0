//! The Antenna element, also reachable under its earlier module path.
pub use crate::ies::elements::antenna::Antenna;
