//! Information elements: the tagged records in beacon and probe response frames.
pub mod advertisement_protocol;
pub mod antenna;
pub mod ap_channel_report;
pub mod ap_configuration_sequence_number;
pub mod awake_window;
pub mod bss_load;
pub mod channel_switch_announcement;
pub mod country;
pub mod ds_parameter_set;
pub mod eht_operation;
pub mod elements;
pub mod erp_info;
pub mod extended_capabilities;
pub mod field;
pub mod fils_indication;
pub mod he_capabilities;
pub mod he_six_ghz_band_capabilities;
pub mod parse_error;
pub mod ssid;
pub mod ht_capabilities;
pub mod ie;
pub mod search;

pub use field::{BitRange, Field};
