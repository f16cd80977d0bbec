//! Decoding the measured fields out of one telemetry report, and the outcome
//! handed back to the caller for each handled report.

use vstd::prelude::*;

use crate::errors::CcpError;

verus! {

/// The four measurements that the installed program reports on every cycle:
/// round-trip-time estimate (microseconds), incoming and outgoing byte rates,
/// and the cumulative lost-packet count.
#[derive(Clone, Copy, Debug, PartialEq, Eq, Structural)]
pub struct ReportFields {
    pub rtt_us: u32,
    pub rate_in_bps: u32,
    pub rate_out_bps: u32,
    pub loss_pkts: u32,
}

/// What handling one report produced: the decoded measurements, the parameter
/// list pushed to the datapath, and whether that push was delivered. An
/// undelivered update is local to this report cycle: the caller may log it,
/// and the next report retries implicitly.
#[derive(Debug)]
pub struct ReportSummary {
    pub fields: ReportFields,
    pub update: Vec<(&'static str, u32)>,
    pub update_result: Result<(), CcpError>,
}

/// A resolved report value, narrowed to the 32 bits the policy works with.
pub open spec fn field_val(o: Option<u64>) -> u32 {
    (match o {
        Option::Some(v) => v,
        Option::None => 0,
    }) as u32
}

/// Whether all four required fields resolved.
pub open spec fn all_fields_present(
    rtt: Option<u64>,
    rin: Option<u64>,
    rout: Option<u64>,
    loss: Option<u64>,
) -> bool {
    &&& rtt is Some
    &&& rin is Some
    &&& rout is Some
    &&& loss is Some
}

/// The measurements a fully resolved report decodes to.
pub open spec fn decoded(
    rtt: Option<u64>,
    rin: Option<u64>,
    rout: Option<u64>,
    loss: Option<u64>,
) -> ReportFields {
    ReportFields {
        rtt_us: field_val(rtt),
        rate_in_bps: field_val(rin),
        rate_out_bps: field_val(rout),
        loss_pkts: field_val(loss),
    }
}

/// Decode the four required fields from their resolved values. Succeeds if
/// and only if every field resolved; a report missing any field is an
/// unrecoverable contract violation and decodes to nothing.
pub fn decode_fields(
    rtt: Option<u64>,
    rin: Option<u64>,
    rout: Option<u64>,
    loss: Option<u64>,
) -> (r: Result<ReportFields, CcpError>)
    ensures
        all_fields_present(rtt, rin, rout, loss) ==> r == Ok::<ReportFields, CcpError>(
            decoded(rtt, rin, rout, loss),
        ),
        !all_fields_present(rtt, rin, rout, loss) ==> r == Err::<ReportFields, CcpError>(
            CcpError::MissingReportField,
        ),
{
    match (rtt, rin, rout, loss) {
        (Some(r), Some(i), Some(o), Some(l)) => Ok(
            ReportFields {
                rtt_us: #[verifier::truncate] (r as u32),
                rate_in_bps: #[verifier::truncate] (i as u32),
                rate_out_bps: #[verifier::truncate] (o as u32),
                loss_pkts: #[verifier::truncate] (l as u32),
            },
        ),
        _ => Err(CcpError::MissingReportField),
    }
}

} // verus!
