//! The basic service set type, also reachable under its earlier module path.
pub use crate::bss::basic_service_set::{Bss, BssStatus};
