//! A congestion-control algorithm for the portus CCP runtime that holds its
//! control parameters constant.
//!
//! The control plane installs a small measurement program into the datapath
//! for each new flow, then receives periodic telemetry reports; on every
//! report it decodes the measured fields and pushes the (fixed) parameter
//! set back through the flow's control channel.

mod controller;
mod datapath;
mod errors;
mod params;
mod programs;
mod report;

pub use controller::{lemma_reports_same_update, CcpConstAlg, CcpConstFlow};
pub use datapath::ControlChannel;
pub use errors::CcpError;
pub use params::{
    constant_params, lemma_params_deterministic, param_views, params_match, Constant,
};
pub use programs::{constant_program, constant_program_view, program_entries, CONSTANT_PROGRAM};
pub use report::{
    all_fields_present, decode_fields, decoded, field_val, ReportFields, ReportSummary,
};
