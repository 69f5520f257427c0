//! The ErpInfo element, also reachable under its earlier module path.
pub use crate::ies::elements::erp_info::ErpInfo;
