//! The trusted boundary to the portus datapath collaborator: type
//! declarations for the handles portus owns, an opaque control channel, and
//! one wrapper per portus call the control loop makes. Everything else in the
//! crate is verified against the contracts stated here.

use vstd::prelude::*;

use portus::DatapathTrait;

verus! {

/// portus's resolved field table for one flow's installed program; opaque
/// here, only handed back to portus calls.
#[verifier::external_type_specification]
#[verifier::external_body]
pub struct ExScope(portus::lang::Scope);

/// portus's error value (a message string); opaque here.
#[verifier::external_type_specification]
#[verifier::external_body]
pub struct ExError(portus::Error);

/// One telemetry delivery from the datapath; opaque here, read only through
/// `Report::get_field`.
#[verifier::external_type_specification]
#[verifier::external_body]
pub struct ExReport(portus::Report);

/// The connection facts portus hands over when a flow starts; this algorithm
/// does not read them.
#[verifier::external_type_specification]
#[verifier::external_body]
pub struct ExDatapathInfo(portus::DatapathInfo);

/// The per-flow handle into the datapath, behind portus's `DatapathTrait` so
/// the control loop is independent of the concrete transport. Exclusively
/// owned by one flow's controller; opaque to verification.
#[verifier::external_body]
pub struct ControlChannel {
    inner: Box<dyn DatapathTrait + 'static>,
}

impl ControlChannel {
    /// Wraps any portus datapath handle (for portus itself, a
    /// `portus::Datapath`) as this flow's control channel.
    #[verifier::external_body]
    pub fn from_datapath<D: DatapathTrait + 'static>(dp: D) -> ControlChannel {
        ControlChannel { inner: Box::new(dp) }
    }
}

/// Relies on portus's `Datapath::set_program`: asks the datapath to run the
/// named preinstalled program for this flow, seeded with the given control
/// field values; `Ok` carries the flow's resolved scope, `Err` means the flow
/// has no installed program.
#[verifier::external_body]
pub(crate) fn set_program_call(
    control: &mut ControlChannel,
    name: &'static str,
    params: &Vec<(&'static str, u32)>,
) -> (r: Result<portus::lang::Scope, portus::Error>) {
    control.inner.set_program(name, Some(&params[..]))
}

/// Relies on portus's `Datapath::update_field`: pushes new values for the
/// named control fields to the datapath; `Err` means the datapath keeps its
/// last-applied values.
#[verifier::external_body]
pub(crate) fn update_field_call(
    control: &ControlChannel,
    sc: &portus::lang::Scope,
    update: &Vec<(&'static str, u32)>,
) -> (r: Result<(), portus::Error>) {
    control.inner.update_field(sc, &update[..])
}

/// Relies on portus's `Report::get_field`: resolves one named field of the
/// report through the flow's scope; `Err` means the report does not carry the
/// field.
#[verifier::external_body]
pub(crate) fn get_field_call(
    m: &portus::Report,
    field: &str,
    sc: &portus::lang::Scope,
) -> (r: Result<u64, portus::Error>) {
    m.get_field(field, sc)
}

/// Relies on portus's `Error` holding its message as its only field.
#[verifier::external_body]
pub(crate) fn error_message(e: portus::Error) -> (r: String) {
    e.0
}

} // verus!
