//! Control flow of BiCGSTAB with optional right preconditioning.
//!
//! Each iteration of the solver makes a fixed sequence of floating-point
//! computations, each followed by a test that may end the run: the
//! breakdown tests on `rho = r_hat . r`, on `r_hat . v` and on `t . t`, and
//! the tests of `||s||` and of the updated residual `||r||` against the
//! tolerance. Those decisions live here, as a state machine:
//! [`BicgstabControl::action`] says what numeric work to do next, and
//! [`BicgstabControl::next`] takes what that work found.
//!
//! Whatever ends the run, the true residual `||b - A x||` of the returned
//! iterate is measured last: it is the residual reported and it alone
//! decides whether the run converged. When the updated residual meets the
//! tolerance but the true residual does not, the iteration goes on.
//!
//! The numeric work for each action:
//! - `MeasureInitialResidual`: `r0 = b - A x0`, `r_hat = r0`; answer whether
//!   `||r0|| <= tolerance * ||b||_eff` with [`BicgstabEvent::Residual`].
//! - `ComputeRho`: `rho = r_hat . r`; answer whether `|rho|` is below the
//!   breakdown threshold with [`BicgstabEvent::NearZero`].
//! - `ComputeDirection { first }`: `p = r` on the first iteration, else
//!   `p = r + beta (p - omega v)`; `p_hat = M^-1 p`, `v = A p_hat`; answer
//!   whether `|r_hat . v|` is below the breakdown threshold.
//! - `ComputeS`: `alpha = rho / (r_hat . v)`, `s = r - alpha v`; answer
//!   whether `||s||` is within tolerance.
//! - `ComputeT`: `s_hat = M^-1 s`, `t = A s_hat`; answer whether `|t . t|` is
//!   below the breakdown threshold.
//! - `UpdateOmega`: `omega = (t . s) / (t . t)`,
//!   `x = x + alpha p_hat + omega s_hat`, `r = s - omega t`,
//!   `rho_prev = rho`; answer whether `||r||` is within tolerance.
//! - `AdvanceAlpha`: `x = x + alpha p_hat`, `r = s`; answer
//!   [`BicgstabEvent::Updated`].
//! - `MeasureTrueResidual`: `||b - A x||`, answered with
//!   [`BicgstabEvent::Residual`].
//! - `Finish(outcome)`: stop; report the last true residual norm measured.
use vstd::prelude::*;

use crate::lex_lt;

verus! {

/// Where the BiCGSTAB control flow stands.
#[derive(Clone, Copy, Debug, PartialEq, Eq, Structural)]
pub enum BicgstabPhase {
    Initial,
    Rho,
    Direction,
    SCheck,
    TCheck,
    Omega,
    Advance,
    TrueCheck,
    Done,
}

/// Why BiCGSTAB stopped.
#[derive(Clone, Copy, Debug, PartialEq, Eq, Structural)]
pub enum BicgstabReason {
    /// The initial residual was already within tolerance.
    InitialGuess,
    /// `|r_hat . r|` fell below the breakdown threshold.
    RhoBreakdown,
    /// `|r_hat . v|` fell below the breakdown threshold.
    RhatVBreakdown,
    /// `||s||` was within tolerance; the iterate was advanced by
    /// `alpha p_hat`.
    SConverged,
    /// `|t . t|` fell below the breakdown threshold; the iterate was
    /// advanced by `alpha p_hat`.
    TBreakdown,
    /// The updated residual and the true residual were within tolerance.
    OmegaConverged,
    /// The iteration budget is spent.
    MaxIterations,
}

/// The full state of the BiCGSTAB control flow.
#[derive(Clone, Copy, Debug, PartialEq, Eq, Structural)]
pub struct BicgstabState {
    /// Maximum number of iterations.
    pub max_iterations: usize,
    /// Index of the current iteration (from 0).
    pub iter: usize,
    /// Iterations begun so far.
    pub iterations: usize,
    /// Whether the run converged (meaningful once finished).
    pub converged: bool,
    /// The reason the run is stopping (meaningful in `Advance`,
    /// `TrueCheck` and `Done`).
    pub reason: BicgstabReason,
    /// Whether the last true residual norm measured belongs to the current
    /// iterate `x`.
    pub residual_is_true: bool,
    /// Whether the last true residual norm measured was within tolerance.
    pub residual_within: bool,
    /// What the control flow waits for.
    pub phase: BicgstabPhase,
}

/// What the numeric work found.
#[derive(Clone, Copy, Debug, PartialEq, Eq, Structural)]
pub enum BicgstabEvent {
    /// A residual norm was measured: is it within `tolerance * ||b||_eff`?
    Residual { within_tolerance: bool },
    /// A breakdown test: is the quantity below the breakdown threshold?
    NearZero { near_zero: bool },
    /// The iterate was advanced.
    Updated,
}

/// How BiCGSTAB ended.
#[derive(Clone, Copy, Debug, PartialEq, Eq, Structural)]
pub struct BicgstabOutcome {
    /// Iterations performed.
    pub iterations: usize,
    /// Whether the run converged to the tolerance.
    pub converged: bool,
    /// Why the run stopped.
    pub reason: BicgstabReason,
}

/// The numeric work that BiCGSTAB asks for next.
#[derive(Clone, Copy, Debug, PartialEq, Eq, Structural)]
pub enum BicgstabAction {
    MeasureInitialResidual,
    ComputeRho,
    ComputeDirection { first: bool },
    ComputeS,
    ComputeT,
    UpdateOmega,
    AdvanceAlpha,
    MeasureTrueResidual,
    Finish(BicgstabOutcome),
}

/// The state before any numeric work.
pub open spec fn bicgstab_init(max_iterations: usize) -> BicgstabState {
    BicgstabState {
        max_iterations,
        iter: 0,
        iterations: 0,
        converged: false,
        reason: BicgstabReason::MaxIterations,
        residual_is_true: false,
        residual_within: false,
        phase: BicgstabPhase::Initial,
    }
}

/// Stop after measuring the true residual, for `reason`.
pub open spec fn bicgstab_true_check(s: BicgstabState, reason: BicgstabReason) -> BicgstabState {
    BicgstabState { reason, phase: BicgstabPhase::TrueCheck, ..s }
}

/// Whether `e` answers the work that `s` asked for.
pub open spec fn bicgstab_accepts(s: BicgstabState, e: BicgstabEvent) -> bool {
    match s.phase {
        BicgstabPhase::Initial => e is Residual,
        BicgstabPhase::Rho => e is NearZero,
        BicgstabPhase::Direction => e is NearZero,
        BicgstabPhase::SCheck => e is Residual,
        BicgstabPhase::TCheck => e is NearZero,
        BicgstabPhase::Omega => e is Residual,
        BicgstabPhase::Advance => e is Updated,
        BicgstabPhase::TrueCheck => e is Residual,
        BicgstabPhase::Done => false,
    }
}

/// After the iteration with index `s.iter`: begin the next one if the
/// budget allows it, else stop at the iteration limit (checking the true
/// residual).
pub open spec fn bicgstab_next_iteration(s: BicgstabState) -> BicgstabState {
    if s.iter + 1 < s.max_iterations {
        BicgstabState {
            iter: (s.iter + 1) as usize,
            iterations: (s.iter + 2) as usize,
            phase: BicgstabPhase::Rho,
            ..s
        }
    } else {
        bicgstab_true_check(s, BicgstabReason::MaxIterations)
    }
}

/// One transition of the BiCGSTAB control flow.
pub open spec fn bicgstab_step(s: BicgstabState, e: BicgstabEvent) -> BicgstabState {
    match (s.phase, e) {
        (BicgstabPhase::Initial, BicgstabEvent::Residual { within_tolerance }) => {
            let s1 = BicgstabState {
                residual_is_true: true,
                residual_within: within_tolerance,
                ..s
            };
            if within_tolerance {
                BicgstabState {
                    converged: true,
                    reason: BicgstabReason::InitialGuess,
                    phase: BicgstabPhase::Done,
                    ..s1
                }
            } else if 0 < s.max_iterations {
                BicgstabState { iter: 0, iterations: 1, phase: BicgstabPhase::Rho, ..s1 }
            } else {
                bicgstab_true_check(s1, BicgstabReason::MaxIterations)
            }
        },
        (BicgstabPhase::Rho, BicgstabEvent::NearZero { near_zero }) => {
            if near_zero {
                bicgstab_true_check(s, BicgstabReason::RhoBreakdown)
            } else {
                BicgstabState { phase: BicgstabPhase::Direction, ..s }
            }
        },
        (BicgstabPhase::Direction, BicgstabEvent::NearZero { near_zero }) => {
            if near_zero {
                bicgstab_true_check(s, BicgstabReason::RhatVBreakdown)
            } else {
                BicgstabState { phase: BicgstabPhase::SCheck, ..s }
            }
        },
        (BicgstabPhase::SCheck, BicgstabEvent::Residual { within_tolerance }) => {
            if within_tolerance {
                BicgstabState {
                    reason: BicgstabReason::SConverged,
                    phase: BicgstabPhase::Advance,
                    ..s
                }
            } else {
                BicgstabState { phase: BicgstabPhase::TCheck, ..s }
            }
        },
        (BicgstabPhase::TCheck, BicgstabEvent::NearZero { near_zero }) => {
            if near_zero {
                BicgstabState {
                    reason: BicgstabReason::TBreakdown,
                    phase: BicgstabPhase::Advance,
                    ..s
                }
            } else {
                BicgstabState { phase: BicgstabPhase::Omega, ..s }
            }
        },
        (BicgstabPhase::Omega, BicgstabEvent::Residual { within_tolerance }) => {
            let s1 = BicgstabState { residual_is_true: false, ..s };
            if within_tolerance {
                bicgstab_true_check(s1, BicgstabReason::OmegaConverged)
            } else {
                bicgstab_next_iteration(s1)
            }
        },
        (BicgstabPhase::Advance, BicgstabEvent::Updated) => {
            BicgstabState { residual_is_true: false, phase: BicgstabPhase::TrueCheck, ..s }
        },
        (BicgstabPhase::TrueCheck, BicgstabEvent::Residual { within_tolerance }) => {
            let s1 = BicgstabState {
                residual_is_true: true,
                residual_within: within_tolerance,
                ..s
            };
            if s.reason is OmegaConverged && !within_tolerance {
                // The updated residual met the tolerance but the true one did
                // not: go on iterating; at the iteration limit, stop with the
                // true residual just measured.
                if s.iter + 1 < s.max_iterations {
                    bicgstab_next_iteration(s1)
                } else {
                    BicgstabState {
                        converged: false,
                        reason: BicgstabReason::MaxIterations,
                        phase: BicgstabPhase::Done,
                        ..s1
                    }
                }
            } else {
                BicgstabState { converged: within_tolerance, phase: BicgstabPhase::Done, ..s1 }
            }
        },
        _ => s,
    }
}

/// How a finished run ended.
pub open spec fn bicgstab_outcome(s: BicgstabState) -> BicgstabOutcome {
    BicgstabOutcome { iterations: s.iterations, converged: s.converged, reason: s.reason }
}

/// The work that state `s` asks for.
pub open spec fn bicgstab_action(s: BicgstabState) -> BicgstabAction {
    match s.phase {
        BicgstabPhase::Initial => BicgstabAction::MeasureInitialResidual,
        BicgstabPhase::Rho => BicgstabAction::ComputeRho,
        BicgstabPhase::Direction => BicgstabAction::ComputeDirection { first: s.iter == 0 },
        BicgstabPhase::SCheck => BicgstabAction::ComputeS,
        BicgstabPhase::TCheck => BicgstabAction::ComputeT,
        BicgstabPhase::Omega => BicgstabAction::UpdateOmega,
        BicgstabPhase::Advance => BicgstabAction::AdvanceAlpha,
        BicgstabPhase::TrueCheck => BicgstabAction::MeasureTrueResidual,
        BicgstabPhase::Done => BicgstabAction::Finish(bicgstab_outcome(s)),
    }
}

/// Whether `s` is in the middle of an iteration.
pub open spec fn bicgstab_in_iteration(s: BicgstabState) -> bool {
    s.phase is Rho || s.phase is Direction || s.phase is SCheck || s.phase is TCheck
        || s.phase is Omega || s.phase is Advance
}

/// The invariant of every state that the control flow reaches.
pub open spec fn bicgstab_wf(s: BicgstabState) -> bool {
    &&& s.iterations <= s.max_iterations
    &&& (!(s.phase is Done) ==> !s.converged)
    &&& (s.phase is Initial ==> s.iterations == 0 && s.iter == 0)
    &&& (bicgstab_in_iteration(s) ==> s.iter < s.max_iterations && s.iterations == s.iter + 1)
    &&& (s.phase is Advance ==> s.reason is SConverged || s.reason is TBreakdown)
    &&& (s.phase is TrueCheck ==> {
        &&& !(s.reason is InitialGuess)
        &&& (s.reason is MaxIterations ==> s.iterations == s.max_iterations)
        &&& (!(s.reason is MaxIterations) ==> s.iter < s.max_iterations && s.iterations == s.iter
            + 1)
    })
    &&& (s.phase is Done ==> {
        &&& s.residual_is_true
        &&& s.converged == s.residual_within
        &&& (s.reason is InitialGuess ==> s.iterations == 0 && s.converged)
        &&& (s.reason is OmegaConverged ==> s.converged)
        &&& (s.reason is MaxIterations ==> s.iterations == s.max_iterations)
        &&& (s.iterations == 0 ==> s.reason is InitialGuess || s.reason is MaxIterations)
    })
}

/// Every transition keeps the invariant.
pub proof fn lemma_bicgstab_step_wf(s: BicgstabState, e: BicgstabEvent)
    requires
        bicgstab_wf(s),
        bicgstab_accepts(s, e),
    ensures
        bicgstab_wf(bicgstab_step(s, e)),
{
}

/// A measure of the work left, ordered lexicographically: the stage of the
/// run (before the loop, in it, after it), the iterations left, then the
/// position within the iteration.
pub open spec fn bicgstab_rank(s: BicgstabState) -> (nat, nat, nat) {
    let left = (s.max_iterations - s.iter) as nat;
    match s.phase {
        BicgstabPhase::Initial => (2, 0, 0),
        BicgstabPhase::Rho => (1, left, 7),
        BicgstabPhase::Direction => (1, left, 6),
        BicgstabPhase::SCheck => (1, left, 5),
        BicgstabPhase::TCheck => (1, left, 4),
        BicgstabPhase::Omega => (1, left, 3),
        BicgstabPhase::Advance => (0, 0, 2),
        BicgstabPhase::TrueCheck => if s.reason is OmegaConverged {
            (1, left, 0)
        } else {
            (0, 0, 1)
        },
        BicgstabPhase::Done => (0, 0, 0),
    }
}

/// The run never performs more than `max_iterations` iterations, and
/// reports at most that many.
pub proof fn lemma_bicgstab_iterations_within_budget(s: BicgstabState)
    requires
        bicgstab_wf(s),
    ensures
        s.iterations <= s.max_iterations,
        bicgstab_outcome(s).iterations <= s.max_iterations,
{
}

/// Every run finishes: each transition strictly decreases the
/// (well-founded) lexicographic measure of the work left.
pub proof fn lemma_bicgstab_progress(s: BicgstabState, e: BicgstabEvent)
    requires
        bicgstab_wf(s),
        bicgstab_accepts(s, e),
    ensures
        lex_lt(bicgstab_rank(bicgstab_step(s, e)), bicgstab_rank(s)),
{
}

/// If the initial residual is within tolerance, the run ends at once with
/// the initial guess: no iterations, converged.
pub proof fn lemma_bicgstab_initial_guess_is_solution(max_iterations: usize)
    ensures
        bicgstab_accepts(
            bicgstab_init(max_iterations),
            BicgstabEvent::Residual { within_tolerance: true },
        ),
        bicgstab_action(
            bicgstab_step(
                bicgstab_init(max_iterations),
                BicgstabEvent::Residual { within_tolerance: true },
            ),
        ) == BicgstabAction::Finish(
            BicgstabOutcome { iterations: 0, converged: true, reason: BicgstabReason::InitialGuess },
        ),
{
}

/// The iteration count goes up by one exactly when a new iteration begins
/// (with the computation of `rho`).
pub proof fn lemma_bicgstab_counts_iterations(s: BicgstabState, e: BicgstabEvent)
    requires
        bicgstab_wf(s),
        bicgstab_accepts(s, e),
    ensures
        bicgstab_step(s, e).iterations == s.iterations + if bicgstab_action(
            bicgstab_step(s, e),
        ) is ComputeRho {
            1int
        } else {
            0int
        },
{
}

/// A finished run: the residual measured last is the true residual
/// `||b - A x||` of the returned iterate, and the run reports convergence
/// exactly when that residual was within tolerance; the initial-guess and
/// omega-convergence reasons always come with convergence; the iteration
/// limit is reported only when all `max_iterations` iterations were begun;
/// and no iterations means the initial guess was a solution or the budget
/// was zero.
pub proof fn lemma_bicgstab_outcome(s: BicgstabState)
    requires
        bicgstab_wf(s),
        s.phase is Done,
    ensures
        s.residual_is_true,
        bicgstab_outcome(s).converged == s.residual_within,
        bicgstab_outcome(s).reason is InitialGuess || bicgstab_outcome(s).reason is OmegaConverged
            ==> bicgstab_outcome(s).converged,
        bicgstab_outcome(s).reason is MaxIterations ==> bicgstab_outcome(s).iterations
            == s.max_iterations,
        bicgstab_outcome(s).iterations == 0 ==> (bicgstab_outcome(s).reason is InitialGuess || (
        bicgstab_outcome(s).reason is MaxIterations && s.max_iterations == 0)),
{
}

/// A small updated residual is not convergence: when the updated residual
/// met the tolerance but the recomputed true residual does not, the run
/// does not stop as converged; it begins the next iteration while budget is
/// left.
pub proof fn lemma_bicgstab_true_residual_decides(s: BicgstabState)
    requires
        bicgstab_wf(s),
        s.phase is TrueCheck,
        s.reason is OmegaConverged,
        s.iter + 1 < s.max_iterations,
    ensures
        bicgstab_action(bicgstab_step(s, BicgstabEvent::Residual { within_tolerance: false }))
            == BicgstabAction::ComputeRho,
        !bicgstab_step(s, BicgstabEvent::Residual { within_tolerance: false }).converged,
{
}

/// The search direction is restarted (`p = r`) only in the first
/// iteration; every later iteration updates it with
/// `p = r + beta (p - omega v)`.
pub proof fn lemma_bicgstab_direction_restarts_only_first(s: BicgstabState)
    requires
        bicgstab_wf(s),
        s.phase is Direction,
    ensures
        bicgstab_action(s) == (BicgstabAction::ComputeDirection { first: s.iterations == 1 }),
        bicgstab_action(s) == (BicgstabAction::ComputeDirection { first: s.iter == 0 }),
{
}

/// The `rho` test: a breakdown stops the iteration and measures the true
/// residual of the unchanged iterate; otherwise the direction is computed.
pub proof fn lemma_bicgstab_rho_test(s: BicgstabState, near_zero: bool)
    requires
        bicgstab_wf(s),
        s.phase is Rho,
    ensures
        ({
            let t = bicgstab_step(s, BicgstabEvent::NearZero { near_zero });
            &&& near_zero ==> bicgstab_action(t) == BicgstabAction::MeasureTrueResidual
                && t.reason == BicgstabReason::RhoBreakdown && t.iterations == s.iterations
            &&& !near_zero ==> bicgstab_action(t) == (BicgstabAction::ComputeDirection {
                first: s.iterations == 1,
            })
        }),
{
}

/// The `r_hat . v` test: a breakdown stops the iteration and measures the
/// true residual of the unchanged iterate; otherwise `s` is computed.
pub proof fn lemma_bicgstab_direction_test(s: BicgstabState, near_zero: bool)
    requires
        bicgstab_wf(s),
        s.phase is Direction,
    ensures
        ({
            let t = bicgstab_step(s, BicgstabEvent::NearZero { near_zero });
            &&& near_zero ==> bicgstab_action(t) == BicgstabAction::MeasureTrueResidual
                && t.reason == BicgstabReason::RhatVBreakdown
            &&& !near_zero ==> bicgstab_action(t) == BicgstabAction::ComputeS
        }),
{
}

/// The `||s||` test, in every iteration: within tolerance, the iteration
/// ends by advancing the iterate by `alpha p_hat` for the `s`-norm
/// reason, then the true residual is measured; otherwise `t` is computed.
pub proof fn lemma_bicgstab_s_test(s: BicgstabState, within_tolerance: bool)
    requires
        bicgstab_wf(s),
        s.phase is SCheck,
    ensures
        ({
            let t = bicgstab_step(s, BicgstabEvent::Residual { within_tolerance });
            &&& within_tolerance ==> bicgstab_action(t) == BicgstabAction::AdvanceAlpha
                && t.reason == BicgstabReason::SConverged
                && bicgstab_action(bicgstab_step(t, BicgstabEvent::Updated))
                == BicgstabAction::MeasureTrueResidual
            &&& !within_tolerance ==> bicgstab_action(t) == BicgstabAction::ComputeT
        }),
{
}

/// The `t . t` test: a breakdown ends the iteration by advancing the iterate
/// by `alpha p_hat`, then the true residual is measured; otherwise the omega
/// update follows.
pub proof fn lemma_bicgstab_t_test(s: BicgstabState, near_zero: bool)
    requires
        bicgstab_wf(s),
        s.phase is TCheck,
    ensures
        ({
            let t = bicgstab_step(s, BicgstabEvent::NearZero { near_zero });
            &&& near_zero ==> bicgstab_action(t) == BicgstabAction::AdvanceAlpha && t.reason
                == BicgstabReason::TBreakdown && bicgstab_action(
                bicgstab_step(t, BicgstabEvent::Updated),
            ) == BicgstabAction::MeasureTrueResidual
            &&& !near_zero ==> bicgstab_action(t) == BicgstabAction::UpdateOmega
        }),
{
}

/// After the omega update: an updated residual within tolerance is checked
/// on the true residual; otherwise the next iteration begins while the
/// budget allows, else the run stops at the iteration limit after checking
/// the true residual.
pub proof fn lemma_bicgstab_omega_test(s: BicgstabState, within_tolerance: bool)
    requires
        bicgstab_wf(s),
        s.phase is Omega,
    ensures
        ({
            let t = bicgstab_step(s, BicgstabEvent::Residual { within_tolerance });
            &&& within_tolerance ==> bicgstab_action(t) == BicgstabAction::MeasureTrueResidual
                && t.reason == BicgstabReason::OmegaConverged
            &&& !within_tolerance && s.iterations < s.max_iterations ==> bicgstab_action(t)
                == BicgstabAction::ComputeRho && t.iterations == s.iterations + 1
            &&& !within_tolerance && s.iterations == s.max_iterations ==> bicgstab_action(t)
                == BicgstabAction::MeasureTrueResidual && t.reason == BicgstabReason::MaxIterations
        }),
{
}

/// The final true-residual check ends the run with convergence exactly when
/// that residual is within tolerance, except after an omega update that met
/// the tolerance on the updated residual only: then the next iteration
/// begins while the budget allows.
pub proof fn lemma_bicgstab_true_check(s: BicgstabState, within_tolerance: bool)
    requires
        bicgstab_wf(s),
        s.phase is TrueCheck,
    ensures
        ({
            let t = bicgstab_step(s, BicgstabEvent::Residual { within_tolerance });
            &&& (within_tolerance || !(s.reason is OmegaConverged) || s.iterations
                == s.max_iterations) ==> bicgstab_action(t) == BicgstabAction::Finish(
                BicgstabOutcome {
                    iterations: s.iterations,
                    converged: within_tolerance,
                    reason: t.reason,
                },
            )
            &&& !within_tolerance && s.reason is OmegaConverged && s.iterations
                < s.max_iterations ==> bicgstab_action(t) == BicgstabAction::ComputeRho
                && t.iterations == s.iterations + 1
        }),
{
}

/// The text that describes why BiCGSTAB stopped; `value` is the printed
/// value of the quantity whose breakdown test failed (used only for the
/// breakdown reasons).
pub open spec fn bicgstab_reason_message(r: BicgstabReason, value: Seq<char>) -> Seq<char> {
    match r {
        BicgstabReason::InitialGuess => "Initial guess is already a solution."@,
        BicgstabReason::RhoBreakdown => "Algorithm broke down: rho_curr is near zero (val="@ + value
            + ")."@,
        BicgstabReason::RhatVBreakdown => "Algorithm broke down: r_hat_dot_v is near zero (val="@
            + value + ")."@,
        BicgstabReason::SConverged => "Converged after alpha update (s_norm condition)."@,
        BicgstabReason::TBreakdown => "Algorithm broke down: t_dot_t is near zero (val="@ + value
            + "). Stabilized omega calculation avoided."@,
        BicgstabReason::OmegaConverged => "Converged after omega update."@,
        BicgstabReason::MaxIterations => "Reached maximum iterations."@,
    }
}

impl BicgstabReason {
    /// The message that BiCGSTAB reports for this reason; `value` is the
    /// printed value of the quantity whose breakdown test failed.
    pub fn message(&self, value: &str) -> (m: String)
        ensures
            m@ == bicgstab_reason_message(*self, value@),
    {
        match self {
            BicgstabReason::InitialGuess => String::from_str("Initial guess is already a solution."),
            BicgstabReason::RhoBreakdown => {
                let mut m = String::from_str("Algorithm broke down: rho_curr is near zero (val=");
                m.append(value);
                m.append(").");
                m
            },
            BicgstabReason::RhatVBreakdown => {
                let mut m = String::from_str(
                    "Algorithm broke down: r_hat_dot_v is near zero (val=",
                );
                m.append(value);
                m.append(").");
                m
            },
            BicgstabReason::SConverged => String::from_str(
                "Converged after alpha update (s_norm condition).",
            ),
            BicgstabReason::TBreakdown => {
                let mut m = String::from_str("Algorithm broke down: t_dot_t is near zero (val=");
                m.append(value);
                m.append("). Stabilized omega calculation avoided.");
                m
            },
            BicgstabReason::OmegaConverged => String::from_str("Converged after omega update."),
            BicgstabReason::MaxIterations => String::from_str("Reached maximum iterations."),
        }
    }
}

fn next_iteration(s: BicgstabState) -> (r: BicgstabState)
    requires
        s.iter < s.max_iterations,
    ensures
        r == bicgstab_next_iteration(s),
{
    if s.iter + 1 < s.max_iterations {
        BicgstabState { iter: s.iter + 1, iterations: s.iter + 2, phase: BicgstabPhase::Rho, ..s }
    } else {
        BicgstabState {
            reason: BicgstabReason::MaxIterations,
            phase: BicgstabPhase::TrueCheck,
            ..s
        }
    }
}

/// The BiCGSTAB control flow, driven by the numeric work of its caller.
pub struct BicgstabControl {
    state: BicgstabState,
}

impl View for BicgstabControl {
    type V = BicgstabState;

    closed spec fn view(&self) -> BicgstabState {
        self.state
    }
}

impl BicgstabControl {
    /// The control flow for a run with the given iteration budget, before
    /// any numeric work.
    pub fn new(max_iterations: usize) -> (c: BicgstabControl)
        ensures
            c@ == bicgstab_init(max_iterations),
            bicgstab_wf(c@),
    {
        BicgstabControl {
            state: BicgstabState {
                max_iterations,
                iter: 0,
                iterations: 0,
                converged: false,
                reason: BicgstabReason::MaxIterations,
                residual_is_true: false,
                residual_within: false,
                phase: BicgstabPhase::Initial,
            },
        }
    }

    /// The current state.
    pub fn state(&self) -> (s: BicgstabState)
        ensures
            s == self@,
    {
        self.state
    }

    /// The numeric work to do next.
    pub fn action(&self) -> (a: BicgstabAction)
        ensures
            a == bicgstab_action(self@),
    {
        let s = self.state;
        match s.phase {
            BicgstabPhase::Initial => BicgstabAction::MeasureInitialResidual,
            BicgstabPhase::Rho => BicgstabAction::ComputeRho,
            BicgstabPhase::Direction => BicgstabAction::ComputeDirection { first: s.iter == 0 },
            BicgstabPhase::SCheck => BicgstabAction::ComputeS,
            BicgstabPhase::TCheck => BicgstabAction::ComputeT,
            BicgstabPhase::Omega => BicgstabAction::UpdateOmega,
            BicgstabPhase::Advance => BicgstabAction::AdvanceAlpha,
            BicgstabPhase::TrueCheck => BicgstabAction::MeasureTrueResidual,
            BicgstabPhase::Done => BicgstabAction::Finish(
                BicgstabOutcome {
                    iterations: s.iterations,
                    converged: s.converged,
                    reason: s.reason,
                },
            ),
        }
    }

    /// Takes what the numeric work for the current action found.
    pub fn next(&mut self, event: BicgstabEvent)
        requires
            bicgstab_wf(old(self)@),
            bicgstab_accepts(old(self)@, event),
        ensures
            final(self)@ == bicgstab_step(old(self)@, event),
            bicgstab_wf(final(self)@),
    {
        proof {
            lemma_bicgstab_step_wf(self.state, event);
        }
        let s = self.state;
        let r = match (s.phase, event) {
            (BicgstabPhase::Initial, BicgstabEvent::Residual { within_tolerance }) => {
                let s1 = BicgstabState {
                    residual_is_true: true,
                    residual_within: within_tolerance,
                    ..s
                };
                if within_tolerance {
                    BicgstabState {
                        converged: true,
                        reason: BicgstabReason::InitialGuess,
                        phase: BicgstabPhase::Done,
                        ..s1
                    }
                } else if 0 < s.max_iterations {
                    BicgstabState { iter: 0, iterations: 1, phase: BicgstabPhase::Rho, ..s1 }
                } else {
                    BicgstabState {
                        reason: BicgstabReason::MaxIterations,
                        phase: BicgstabPhase::TrueCheck,
                        ..s1
                    }
                }
            },
            (BicgstabPhase::Rho, BicgstabEvent::NearZero { near_zero }) => {
                if near_zero {
                    BicgstabState {
                        reason: BicgstabReason::RhoBreakdown,
                        phase: BicgstabPhase::TrueCheck,
                        ..s
                    }
                } else {
                    BicgstabState { phase: BicgstabPhase::Direction, ..s }
                }
            },
            (BicgstabPhase::Direction, BicgstabEvent::NearZero { near_zero }) => {
                if near_zero {
                    BicgstabState {
                        reason: BicgstabReason::RhatVBreakdown,
                        phase: BicgstabPhase::TrueCheck,
                        ..s
                    }
                } else {
                    BicgstabState { phase: BicgstabPhase::SCheck, ..s }
                }
            },
            (BicgstabPhase::SCheck, BicgstabEvent::Residual { within_tolerance }) => {
                if within_tolerance {
                    BicgstabState {
                        reason: BicgstabReason::SConverged,
                        phase: BicgstabPhase::Advance,
                        ..s
                    }
                } else {
                    BicgstabState { phase: BicgstabPhase::TCheck, ..s }
                }
            },
            (BicgstabPhase::TCheck, BicgstabEvent::NearZero { near_zero }) => {
                if near_zero {
                    BicgstabState {
                        reason: BicgstabReason::TBreakdown,
                        phase: BicgstabPhase::Advance,
                        ..s
                    }
                } else {
                    BicgstabState { phase: BicgstabPhase::Omega, ..s }
                }
            },
            (BicgstabPhase::Omega, BicgstabEvent::Residual { within_tolerance }) => {
                let s1 = BicgstabState { residual_is_true: false, ..s };
                if within_tolerance {
                    BicgstabState {
                        reason: BicgstabReason::OmegaConverged,
                        phase: BicgstabPhase::TrueCheck,
                        ..s1
                    }
                } else {
                    next_iteration(s1)
                }
            },
            (BicgstabPhase::Advance, BicgstabEvent::Updated) => {
                BicgstabState { residual_is_true: false, phase: BicgstabPhase::TrueCheck, ..s }
            },
            (BicgstabPhase::TrueCheck, BicgstabEvent::Residual { within_tolerance }) => {
                let s1 = BicgstabState {
                    residual_is_true: true,
                    residual_within: within_tolerance,
                    ..s
                };
                let omega_stop = match s.reason {
                    BicgstabReason::OmegaConverged => true,
                    _ => false,
                };
                if omega_stop && !within_tolerance {
                    if s.iter + 1 < s.max_iterations {
                        next_iteration(s1)
                    } else {
                        BicgstabState {
                            converged: false,
                            reason: BicgstabReason::MaxIterations,
                            phase: BicgstabPhase::Done,
                            ..s1
                        }
                    }
                } else {
                    BicgstabState { converged: within_tolerance, phase: BicgstabPhase::Done, ..s1 }
                }
            },
            _ => s,
        };
        self.state = r;
    }
}

} // verus!
