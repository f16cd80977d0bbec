//! The algorithm's tunable state and the parameter lists derived from it.

use vstd::prelude::*;

verus! {

/// The control policy's tunable state: either a fixed congestion window, or a
/// fixed pacing rate together with a cap on the congestion window. Exactly one
/// variant is active per flow, and it never changes for the flow's lifetime.
#[derive(Clone, Copy, Debug, PartialEq, Eq, Structural)]
pub enum Constant {
    Cwnd(u32),
    Rate { rate: u32, cwnd_cap: u32 },
}

/// The parameter list that a given `Constant` calls for: a fixed window maps
/// to `[("Cwnd", cwnd)]`, a fixed rate to `[("Cwnd", cwnd_cap), ("Rate", rate)]`.
pub open spec fn params_match(c: Constant, ps: Seq<(&'static str, u32)>) -> bool {
    match c {
        Constant::Cwnd(cwnd) => {
            &&& ps.len() == 1
            &&& ps[0].0@ == "Cwnd"@
            &&& ps[0].1 == cwnd
        },
        Constant::Rate { rate, cwnd_cap } => {
            &&& ps.len() == 2
            &&& ps[0].0@ == "Cwnd"@
            &&& ps[0].1 == cwnd_cap
            &&& ps[1].0@ == "Rate"@
            &&& ps[1].1 == rate
        },
    }
}

/// A parameter list as mathematical values: each field name replaced by its
/// character sequence.
pub open spec fn param_views(ps: Seq<(&'static str, u32)>) -> Seq<(Seq<char>, u32)> {
    ps.map(|i: int, p: (&'static str, u32)| (p.0@, p.1))
}

/// Derive the parameter list for the configured parameters. The same list is
/// installed with the datapath program at flow admission and pushed again on
/// every report.
pub fn constant_params(c: Constant) -> (r: Vec<(&'static str, u32)>)
    ensures
        params_match(c, r@),
{
    match c {
        Constant::Cwnd(cwnd) => vec![("Cwnd", cwnd)],
        Constant::Rate { rate, cwnd_cap } => vec![("Cwnd", cwnd_cap), ("Rate", rate)],
    }
}

/// Law: the outgoing parameter list is a function of the configured parameters
/// alone. Any two lists that the mapping admits for the same `Constant` are
/// the same list of (name, value) pairs, so repeated reports under fixed
/// parameters always produce an identical update.
pub proof fn lemma_params_deterministic(
    c: Constant,
    ps1: Seq<(&'static str, u32)>,
    ps2: Seq<(&'static str, u32)>,
)
    requires
        params_match(c, ps1),
        params_match(c, ps2),
    ensures
        param_views(ps1) =~= param_views(ps2),
{
}

} // verus!
