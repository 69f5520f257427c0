//! The ApConfigurationSequenceNumber element, also reachable under its earlier module path.
pub use crate::ies::elements::ap_configuration_sequence_number::ApConfigurationSequenceNumber;
