//! Information elements of the current layout.
pub mod challenge_text;
pub mod extended_channel_switch_announcement;
pub mod ibss_parameter_set;
pub mod mesh_id;
pub mod mobility_domain;
pub mod tpc_report;
pub mod country;
pub mod ht_operation;
pub mod vht_capabilities;
pub mod vht_operation;
pub mod he_operation;
pub mod eht_capabilities;
pub mod rsn;
pub mod overlapping_bss_scan_params;
pub mod roaming_consortium;
pub mod rsn_extension;
pub mod tim;
pub mod extended_capabilities;
pub mod vendor_specific;
pub mod reduced_neighbor_report;
pub mod time_advertisement;
pub mod measurement_request;
pub mod erp_info;
pub mod antenna;
pub mod ap_configuration_sequence_number;
