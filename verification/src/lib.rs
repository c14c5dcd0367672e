//! Krylov subspace iterative solvers: the verified core.
//!
//! This crate holds the parts of the GMRES(m) and BiCGSTAB solvers that are
//! not floating-point arithmetic: checking the shape of a linear system,
//! the control flow of each solver (restart cycles, iteration budget,
//! breakdown and convergence decisions, termination reasons) and the text of
//! the messages that the solvers report.
use vstd::prelude::*;

pub mod bicgstab_control;
pub mod gmres_control;
pub mod system;
pub mod text;

verus! {

/// Adds two numbers.
pub fn add(left: usize, right: usize) -> (sum: usize)
    requires
        left + right <= usize::MAX,
    ensures
        sum == left + right,
{
    left + right
}

/// Strict lexicographic order on triples of naturals, a well-founded order:
/// a measure that decreases in it at every step shows that a run ends.
pub open spec fn lex_lt(a: (nat, nat, nat), b: (nat, nat, nat)) -> bool {
    a.0 < b.0 || (a.0 == b.0 && (a.1 < b.1 || (a.1 == b.1 && a.2 < b.2)))
}

} // verus!
