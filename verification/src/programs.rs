//! The datapath program that every flow runs, and the descriptor mapping
//! program names to program text.

use vstd::prelude::*;

verus! {

/// The measurement program installed for every flow. It declares a `Report`
/// record with four volatile fields, copies or accumulates the corresponding
/// flow and ack state on every event, and emits the report (resetting the
/// microsecond counter) once per measured round-trip time. Field and keyword
/// names are part of the contract with the datapath runtime and must match it
/// exactly.
pub const CONSTANT_PROGRAM: &'static str = "
            (def (Report
                (volatile rtt 0)
                (volatile rin 0)
                (volatile rout 0)
                (volatile loss 0)
            ))
            (when true
                (:= Report.rtt Flow.rtt_sample_us)
                (:= Report.rin Flow.rate_outgoing)
                (:= Report.rout Flow.rate_incoming)
                (:= Report.loss (+ Report.loss Ack.lost_pkts_sample))
                (fallthrough)
            )
            (when (> Micros Flow.rtt_sample_us)
                (report)
                (:= Micros 0)
            )";

/// The program text as a mathematical character sequence.
pub open spec fn constant_program_view() -> Seq<char> {
    CONSTANT_PROGRAM@
}

/// The program text every flow runs.
pub fn constant_program() -> (r: &'static str)
    ensures
        r@ == constant_program_view(),
{
    CONSTANT_PROGRAM
}

/// The algorithm's program descriptor: every (name, text) pair the datapath
/// must have installed before flows are admitted. This algorithm needs
/// exactly one program, named "constant".
pub fn program_entries() -> (r: Vec<(&'static str, String)>)
    ensures
        r@.len() == 1,
        r@[0].0@ == "constant"@,
        r@[0].1@ == constant_program_view(),
{
    vec![("constant", CONSTANT_PROGRAM.to_owned())]
}

} // verus!
