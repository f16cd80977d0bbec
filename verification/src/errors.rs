//! The error kinds that the flow control loop can signal.

use vstd::prelude::*;

verus! {

/// What can go wrong in the flow control loop.
///
/// - `ProgramInstall`: the datapath rejected the measurement program at flow
///   admission; the flow is not admitted.
/// - `MissingReportField`: a report failed to resolve a field the installed
///   program guarantees to produce; no update is issued for that report.
/// - `UpdateDelivery`: pushing new parameters to the datapath failed; the
///   failure is local to one report cycle and the next report retries
///   implicitly.
#[derive(Clone, Debug)]
pub enum CcpError {
    ProgramInstall(String),
    MissingReportField,
    UpdateDelivery(String),
}

} // verus!
