//! The algorithm factory and the per-flow controller: program registration,
//! flow admission, and the report/update loop.

use vstd::prelude::*;

use std::collections::HashMap;

use crate::datapath::{
    error_message, get_field_call, set_program_call, update_field_call, ControlChannel,
};
use crate::errors::CcpError;
use crate::params::{constant_params, lemma_params_deterministic, param_views, params_match, Constant};
use crate::programs::program_entries;
use crate::report::{decode_fields, ReportSummary};

verus! {

/// The algorithm factory: knows the program text to install and constructs a
/// flow controller for each new flow, all of them sharing the configured
/// parameters.
pub struct CcpConstAlg {
    pub const_param: Constant,
}

/// The per-flow controller: owns the flow's resolved scope and control
/// channel, and handles every report for the flow in place.
pub struct CcpConstFlow {
    sc: portus::lang::Scope,
    control_channel: ControlChannel,
    const_param: Constant,
}

impl CcpConstAlg {
    /// The algorithm's stable identifier, used by the runtime for
    /// registration and dispatch.
    pub fn name() -> (r: &'static str)
        ensures
            r@ == "constant"@,
    {
        "constant"
    }

    /// The full set of program-name-to-source mappings this algorithm needs,
    /// keyed as the portus runtime expects. The same output on every call;
    /// its content is pinned by `program_entries`, which this merely re-keys
    /// (std's hash-map view is specified only for integer-like keys, so
    /// nothing further can be stated of the map itself).
    pub fn datapath_programs(&self) -> HashMap<&'static str, String> {
        let mut h: HashMap<&'static str, String> = HashMap::new();
        let mut entries = program_entries();
        while entries.len() > 0
            decreases entries.len(),
        {
            let (name, text) = entries.remove(0);
            h.insert(name, text);
        }
        h
    }

    /// Admit one new flow: derive the initial parameter list from the
    /// configured parameters, install the "constant" program on the flow's
    /// channel, and hand back the controller owning the resolved scope. If
    /// the datapath rejects the program, the flow is not admitted and the
    /// rejection is surfaced as `ProgramInstall`.
    pub fn new_flow(&self, control: ControlChannel, _info: portus::DatapathInfo) -> (r: Result<
        CcpConstFlow,
        CcpError,
    >)
        ensures
            r matches Ok(f) ==> f.spec_const_param() == self.const_param,
            r matches Err(e) ==> e matches CcpError::ProgramInstall(_),
    {
        let params = constant_params(self.const_param);
        let mut control = control;
        match set_program_call(&mut control, "constant", &params) {
            Ok(sc) => Ok(
                CcpConstFlow {
                    sc,
                    control_channel: control,
                    const_param: self.const_param,
                },
            ),
            Err(e) => Err(CcpError::ProgramInstall(error_message(e))),
        }
    }
}

impl CcpConstFlow {
    /// The parameters this controller holds every flow to.
    pub closed spec fn spec_const_param(&self) -> Constant {
        self.const_param
    }

    /// The parameters this controller holds every flow to.
    pub fn const_param(&self) -> (r: Constant)
        ensures
            r == self.spec_const_param(),
    {
        self.const_param
    }

    /// Compute the next parameter list from the configured parameters and
    /// push it through the control channel, referencing the stored scope.
    /// Returns the pushed list and the delivery outcome; a failed delivery is
    /// surfaced as `UpdateDelivery` and leaves the datapath under its
    /// last-applied parameters until the next report cycle.
    pub fn push_update(&self) -> (r: (Vec<(&'static str, u32)>, Result<(), CcpError>))
        ensures
            params_match(self.spec_const_param(), r.0@),
            r.1 matches Err(e) ==> e matches CcpError::UpdateDelivery(_),
    {
        let update = constant_params(self.const_param);
        let update_result = match update_field_call(&self.control_channel, &self.sc, &update) {
            Ok(u) => Ok(u),
            Err(e) => Err(CcpError::UpdateDelivery(error_message(e))),
        };
        (update, update_result)
    }

    /// Handle one telemetry report: resolve the four required fields through
    /// the flow's scope, compute the next parameter list from the configured
    /// parameters, and push it through the control channel.
    ///
    /// A report missing any required field is a contract violation: the call
    /// signals `MissingReportField` and pushes no update. A failed push is
    /// local to this report cycle: the call still completes, handing the
    /// delivery error back in the summary for the caller to log, and the
    /// controller is left ready for the next report.
    pub fn on_report(&mut self, _sock_id: u32, m: portus::Report) -> (r: Result<
        ReportSummary,
        CcpError,
    >)
        ensures
            *final(self) == *old(self),
            r matches Err(e) ==> e == CcpError::MissingReportField,
            r matches Ok(s) ==> params_match(old(self).spec_const_param(), s.update@),
            r matches Ok(s) ==> (s.update_result matches Err(e) ==> e matches
                CcpError::UpdateDelivery(_)),
    {
        let rtt = match get_field_call(&m, "Report.rtt", &self.sc) {
            Ok(v) => Some(v),
            Err(_) => None,
        };
        let rin = match get_field_call(&m, "Report.rin", &self.sc) {
            Ok(v) => Some(v),
            Err(_) => None,
        };
        let rout = match get_field_call(&m, "Report.rout", &self.sc) {
            Ok(v) => Some(v),
            Err(_) => None,
        };
        let loss = match get_field_call(&m, "Report.loss", &self.sc) {
            Ok(v) => Some(v),
            Err(_) => None,
        };
        let fields = match decode_fields(rtt, rin, rout, loss) {
            Ok(f) => f,
            Err(e) => {
                return Err(e);
            },
        };
        let (update, update_result) = self.push_update();
        Ok(ReportSummary { fields, update, update_result })
    }
}

/// Law: the policy is stateless given fixed parameters. Any two report
/// outcomes produced under the same configured parameters carry the same
/// outgoing update, whatever field values the two reports decoded to.
pub proof fn lemma_reports_same_update(c: Constant, s1: ReportSummary, s2: ReportSummary)
    requires
        params_match(c, s1.update@),
        params_match(c, s2.update@),
    ensures
        param_views(s1.update@) =~= param_views(s2.update@),
{
    lemma_params_deterministic(c, s1.update@, s2.update@);
}

} // verus!
