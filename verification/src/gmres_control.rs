//! Control flow of restarted GMRES(m) with optional right preconditioning.
//!
//! The solver alternates floating-point work (residuals, Arnoldi steps with
//! Givens rotations, the triangular solve and the update of the iterate)
//! with decisions: when to start a restart cycle, when a cycle ends (the
//! basis is full, the iteration budget is spent, the rotated residual is
//! within tolerance, or the Arnoldi process breaks down), when to recheck
//! the true residual, and how the run ends. The decisions live here, as a
//! state machine: [`GmresControl::action`] says what numeric work to do
//! next, and [`GmresControl::next`] takes what that work found.
//!
//! Convergence is decided by the true residual `||b - A x||`: a rotated
//! residual within tolerance ends the cycle, but only the recomputed true
//! residual of the updated iterate decides whether the run has converged.
//!
//! The numeric work for each action:
//! - `MeasureInitialResidual`: `r0 = b - A x0`; answer whether
//!   `||r0|| <= tolerance * ||b||_eff` with [`GmresEvent::Residual`].
//! - `StartCycle`: `r = b - A x`; answer whether `||r||` is within tolerance
//!   and whether it is zero, with [`GmresEvent::CycleResidual`].
//! - `ArnoldiStep { j, extend_basis }`: for `j == 0` start a new basis from
//!   `r / ||r||`; otherwise, if `extend_basis`, first append the vector left
//!   by the previous step. Then do step `j` (precondition, apply `A`,
//!   orthogonalise, rotate) and answer with [`GmresEvent::StepResidual`].
//! - `SolveAndUpdate { dim }`: solve the leading `dim x dim` triangular
//!   system, `dim` being the number of Arnoldi steps taken in the cycle, and
//!   add the (preconditioned) combination of the first `dim` basis vectors
//!   to `x`; answer [`GmresEvent::Updated`].
//! - `MeasureTrueResidual`: `||b - A x||`, answered with
//!   [`GmresEvent::Residual`].
//! - `Finish(outcome)`: stop; the residual norm to report is the last one
//!   measured, which is always `||b - A x||` of the returned `x`.
use vstd::prelude::*;

use crate::lex_lt;
use crate::text::{decimal, push_decimal};

verus! {

/// Where the GMRES control flow stands.
#[derive(Clone, Copy, Debug, PartialEq, Eq, Structural)]
pub enum GmresPhase {
    /// Waiting for the initial residual.
    Initial,
    /// Waiting for the residual at the start of a restart cycle.
    CycleStart,
    /// Waiting for the result of an Arnoldi step.
    Step,
    /// Waiting for the triangular solve and the update of the iterate.
    Update,
    /// Waiting for the true residual at the end of a restart cycle.
    CycleCheck,
    /// Waiting for the true residual after the last restart cycle.
    FinalCheck,
    /// Finished.
    Done,
}

/// The full state of the GMRES control flow.
#[derive(Clone, Copy, Debug, PartialEq, Eq, Structural)]
pub struct GmresState {
    /// Maximum number of Arnoldi steps over all restart cycles.
    pub max_iterations: usize,
    /// Restart length `m`: Arnoldi steps per cycle.
    pub restart_length: usize,
    /// Number of restart cycles allowed, `ceil(max_iterations / m)`.
    pub cycles: usize,
    /// Index of the current restart cycle.
    pub cycle: usize,
    /// Index of the current (or next) Arnoldi step within the cycle.
    pub j: usize,
    /// Arnoldi steps performed so far in the current cycle.
    pub steps: usize,
    /// Arnoldi steps performed so far over all cycles.
    pub total: usize,
    /// Size of the triangular system solved at the end of the last cycle.
    pub j_final: usize,
    /// Whether the run has converged (during a cycle: whether the rotated
    /// residual met the tolerance, pending the true-residual recheck).
    pub converged: bool,
    /// Whether the vector left by the last Arnoldi step is to be appended
    /// to the basis before the pending step.
    pub extend: bool,
    /// Whether the initial guess was found to be a solution.
    pub solved_at_start: bool,
    /// Whether the last residual norm measured is `||b - A x||` for the
    /// current iterate `x`.
    pub residual_is_true: bool,
    /// Whether the last true residual measured passed its test (within
    /// tolerance; at a cycle start, within tolerance or exactly zero).
    pub residual_accepted: bool,
    /// What the control flow waits for.
    pub phase: GmresPhase,
}

/// What the numeric work found.
#[derive(Clone, Copy, Debug, PartialEq, Eq, Structural)]
pub enum GmresEvent {
    /// A residual norm was measured: is it within `tolerance * ||b||_eff`?
    Residual { within_tolerance: bool },
    /// The residual at the start of a cycle: within tolerance? exactly zero?
    CycleResidual { within_tolerance: bool, is_zero: bool },
    /// After an Arnoldi step: is the rotated residual `|g[j+1]|` within
    /// tolerance? Did the new basis vector's norm `h[j+1][j]` fall below the
    /// breakdown threshold?
    StepResidual { within_tolerance: bool, breakdown: bool },
    /// The solve and the update of the iterate are done.
    Updated,
}

/// Why GMRES stopped.
#[derive(Clone, Copy, Debug, PartialEq, Eq, Structural)]
pub enum GmresReason {
    /// The initial residual was already within tolerance.
    InitialGuess,
    /// The true residual met the tolerance.
    Converged,
    /// The iteration budget is spent.
    MaxIterations,
    /// The restart cycles ran out before the budget, after a breakdown or a
    /// stagnating cycle; `j_final` is the size of the last cycle's solve.
    Breakdown { j_final: usize, restart_length: usize },
}

/// How GMRES ended.
#[derive(Clone, Copy, Debug, PartialEq, Eq, Structural)]
pub struct GmresOutcome {
    /// Arnoldi steps performed over all restart cycles.
    pub iterations: usize,
    /// Whether the run converged to the tolerance.
    pub converged: bool,
    /// Why the run stopped.
    pub reason: GmresReason,
}

/// The numeric work that GMRES asks for next.
#[derive(Clone, Copy, Debug, PartialEq, Eq, Structural)]
pub enum GmresAction {
    MeasureInitialResidual,
    StartCycle,
    ArnoldiStep { j: usize, extend_basis: bool },
    SolveAndUpdate { dim: usize },
    MeasureTrueResidual,
    Finish(GmresOutcome),
}

/// The number of restart cycles: `max_iterations / m`, plus one for a
/// partial last cycle.
pub open spec fn restart_cycles(max_iterations: nat, m: nat) -> nat {
    if m == 0 {
        0
    } else {
        max_iterations / m + if max_iterations % m != 0 {
            1nat
        } else {
            0nat
        }
    }
}

/// The state before any numeric work.
pub open spec fn gmres_init(max_iterations: usize, restart_length: usize) -> GmresState {
    GmresState {
        max_iterations,
        restart_length,
        cycles: 0,
        cycle: 0,
        j: 0,
        steps: 0,
        total: 0,
        j_final: restart_length,
        converged: false,
        extend: false,
        solved_at_start: false,
        residual_is_true: false,
        residual_accepted: false,
        phase: GmresPhase::Initial,
    }
}

/// Leaving the restart loop: recheck the residual unless converged.
pub open spec fn gmres_after_loop(s: GmresState) -> GmresState {
    if s.converged {
        GmresState { phase: GmresPhase::Done, ..s }
    } else {
        GmresState { phase: GmresPhase::FinalCheck, ..s }
    }
}

/// At the end of a cycle: stop when converged or out of budget, else go to
/// the next cycle if there is one.
pub open spec fn gmres_after_cycle(s: GmresState) -> GmresState {
    if s.converged || s.total >= s.max_iterations {
        gmres_after_loop(s)
    } else if s.cycle + 1 < s.cycles {
        GmresState { cycle: (s.cycle + 1) as usize, phase: GmresPhase::CycleStart, ..s }
    } else {
        gmres_after_loop(GmresState { cycle: (s.cycle + 1) as usize, ..s })
    }
}

/// At step `j` of the inner loop (after `j` steps of the cycle): take the
/// step if `j < m` and the budget allows it (counting it), else end the
/// cycle with a solve of size `j`, the number of steps taken.
pub open spec fn gmres_enter_step(s: GmresState, j: usize, extend: bool) -> GmresState {
    if j < s.restart_length && s.total < s.max_iterations {
        GmresState {
            j,
            steps: (s.steps + 1) as usize,
            total: (s.total + 1) as usize,
            extend,
            phase: GmresPhase::Step,
            ..s
        }
    } else {
        GmresState { j, j_final: j, extend: false, phase: GmresPhase::Update, ..s }
    }
}

/// Whether `e` answers the work that `s` asked for (and is not the one
/// input on which the restart arithmetic would divide by zero).
pub open spec fn gmres_accepts(s: GmresState, e: GmresEvent) -> bool {
    match s.phase {
        GmresPhase::Initial => match e {
            GmresEvent::Residual { within_tolerance } => within_tolerance || s.restart_length > 0,
            _ => false,
        },
        GmresPhase::CycleStart => e is CycleResidual,
        GmresPhase::Step => e is StepResidual,
        GmresPhase::Update => e is Updated,
        GmresPhase::CycleCheck => e is Residual,
        GmresPhase::FinalCheck => e is Residual,
        GmresPhase::Done => false,
    }
}

/// One transition of the GMRES control flow.
pub open spec fn gmres_step(s: GmresState, e: GmresEvent) -> GmresState {
    match (s.phase, e) {
        (GmresPhase::Initial, GmresEvent::Residual { within_tolerance }) => {
            if within_tolerance {
                GmresState {
                    converged: true,
                    solved_at_start: true,
                    residual_is_true: true,
                    residual_accepted: true,
                    phase: GmresPhase::Done,
                    ..s
                }
            } else {
                let c = restart_cycles(s.max_iterations as nat, s.restart_length as nat) as usize;
                let s1 = GmresState {
                    cycles: c,
                    j_final: s.restart_length,
                    residual_is_true: true,
                    residual_accepted: false,
                    ..s
                };
                if 0 < c {
                    GmresState { phase: GmresPhase::CycleStart, ..s1 }
                } else {
                    gmres_after_loop(s1)
                }
            }
        },
        (GmresPhase::CycleStart, GmresEvent::CycleResidual { within_tolerance, is_zero }) => {
            if within_tolerance || is_zero {
                gmres_after_loop(
                    GmresState {
                        steps: 0,
                        converged: true,
                        residual_is_true: true,
                        residual_accepted: true,
                        ..s
                    },
                )
            } else {
                gmres_enter_step(
                    GmresState {
                        steps: 0,
                        residual_is_true: true,
                        residual_accepted: false,
                        ..s
                    },
                    0,
                    false,
                )
            }
        },
        (GmresPhase::Step, GmresEvent::StepResidual { within_tolerance, breakdown }) => {
            if within_tolerance {
                GmresState {
                    j_final: (s.j + 1) as usize,
                    converged: true,
                    extend: false,
                    residual_is_true: false,
                    phase: GmresPhase::Update,
                    ..s
                }
            } else if breakdown {
                GmresState {
                    j_final: (s.j + 1) as usize,
                    extend: false,
                    residual_is_true: false,
                    phase: GmresPhase::Update,
                    ..s
                }
            } else {
                gmres_enter_step(
                    GmresState { residual_is_true: false, ..s },
                    (s.j + 1) as usize,
                    s.j + 1 < s.restart_length,
                )
            }
        },
        (GmresPhase::Update, GmresEvent::Updated) => {
            let s1 = GmresState { residual_is_true: false, ..s };
            if s1.converged || s1.j_final < s1.restart_length || (s1.cycle + 1 == s1.cycles
                && s1.total >= s1.max_iterations) {
                GmresState { phase: GmresPhase::CycleCheck, ..s1 }
            } else {
                gmres_after_cycle(s1)
            }
        },
        (GmresPhase::CycleCheck, GmresEvent::Residual { within_tolerance }) => {
            gmres_after_cycle(
                GmresState {
                    converged: within_tolerance,
                    residual_is_true: true,
                    residual_accepted: within_tolerance,
                    ..s
                },
            )
        },
        (GmresPhase::FinalCheck, GmresEvent::Residual { within_tolerance }) => {
            GmresState {
                converged: within_tolerance,
                residual_is_true: true,
                residual_accepted: within_tolerance,
                phase: GmresPhase::Done,
                ..s
            }
        },
        _ => s,
    }
}

/// How a finished run ended.
pub open spec fn gmres_outcome(s: GmresState) -> GmresOutcome {
    GmresOutcome {
        iterations: s.total,
        converged: s.converged,
        reason: if s.solved_at_start {
            GmresReason::InitialGuess
        } else if s.converged {
            GmresReason::Converged
        } else if s.total >= s.max_iterations {
            GmresReason::MaxIterations
        } else {
            GmresReason::Breakdown { j_final: s.j_final, restart_length: s.restart_length }
        },
    }
}

/// The work that state `s` asks for.
pub open spec fn gmres_action(s: GmresState) -> GmresAction {
    match s.phase {
        GmresPhase::Initial => GmresAction::MeasureInitialResidual,
        GmresPhase::CycleStart => GmresAction::StartCycle,
        GmresPhase::Step => GmresAction::ArnoldiStep { j: s.j, extend_basis: s.extend },
        GmresPhase::Update => GmresAction::SolveAndUpdate { dim: s.j_final },
        GmresPhase::CycleCheck => GmresAction::MeasureTrueResidual,
        GmresPhase::FinalCheck => GmresAction::MeasureTrueResidual,
        GmresPhase::Done => GmresAction::Finish(gmres_outcome(s)),
    }
}

/// The invariant of every state that the control flow reaches.
pub open spec fn gmres_wf(s: GmresState) -> bool {
    &&& s.total <= s.max_iterations
    &&& (s.phase is Initial ==> {
        &&& s.total == 0
        &&& s.cycle == 0
        &&& !s.converged
        &&& !s.solved_at_start
        &&& s.j_final == s.restart_length
    })
    &&& (s.solved_at_start ==> s.phase is Done && s.total == 0 && s.converged)
    &&& (s.phase is Done ==> s.residual_is_true && s.converged == s.residual_accepted)
    &&& (s.phase is FinalCheck ==> !s.converged)
    &&& (!(s.phase is Initial) && !s.solved_at_start ==> {
        &&& s.restart_length > 0
        &&& s.cycles as nat == restart_cycles(s.max_iterations as nat, s.restart_length as nat)
        &&& 1 <= s.j_final <= s.restart_length
        &&& s.cycle <= s.cycles
        &&& ((s.phase is CycleStart || s.phase is Step || s.phase is Update
            || s.phase is CycleCheck) ==> s.cycle < s.cycles)
        &&& (s.phase is CycleStart ==> s.total < s.max_iterations)
        &&& (s.phase is Step ==> {
            &&& s.j < s.restart_length
            &&& s.steps == s.j + 1
            &&& 1 <= s.total
            &&& s.extend == (0 < s.j)
        })
        &&& (s.phase is Update ==> s.j_final == s.steps && !s.extend)
    })
}

/// The restart-cycle count fits the iteration budget, `ceil(max / m) <= max`,
/// and is zero only for a zero budget.
proof fn lemma_restart_cycles_bounded(max_iterations: nat, m: nat)
    requires
        m > 0,
    ensures
        restart_cycles(max_iterations, m) <= max_iterations,
        max_iterations == 0 ==> restart_cycles(max_iterations, m) == 0,
{
    if max_iterations == 0 {
        vstd::arithmetic::div_mod::lemma_small_mod(0, m);
        vstd::arithmetic::div_mod::lemma_basic_div(0, m as int);
    }
    if max_iterations % m != 0 {
        assert(m >= 2);
        assert(max_iterations / m <= max_iterations / 2) by {
            vstd::arithmetic::div_mod::lemma_div_is_ordered_by_denominator(
                max_iterations as int,
                2,
                m as int,
            );
        }
    } else {
        assert(max_iterations / m <= max_iterations / 1) by {
            vstd::arithmetic::div_mod::lemma_div_is_ordered_by_denominator(
                max_iterations as int,
                1,
                m as int,
            );
        }
    }
}

/// Every transition keeps the invariant.
pub proof fn lemma_gmres_step_wf(s: GmresState, e: GmresEvent)
    requires
        gmres_wf(s),
        gmres_accepts(s, e),
    ensures
        gmres_wf(gmres_step(s, e)),
{
    if s.phase is Initial {
        if s.restart_length > 0 {
            lemma_restart_cycles_bounded(s.max_iterations as nat, s.restart_length as nat);
        }
    }
}

/// A measure of the work left, ordered lexicographically: the stage of the
/// run (before the loop, in the restart loop, after it), the restart cycles
/// left, then the position within the cycle.
pub open spec fn gmres_rank(s: GmresState) -> (nat, nat, nat) {
    match s.phase {
        GmresPhase::Initial => (2, 0, 0),
        GmresPhase::CycleStart => (
            1,
            (s.cycles - s.cycle) as nat,
            (s.restart_length + 3) as nat,
        ),
        GmresPhase::Step => (
            1,
            (s.cycles - s.cycle) as nat,
            (s.restart_length - s.j + 2) as nat,
        ),
        GmresPhase::Update => (1, (s.cycles - s.cycle) as nat, 1),
        GmresPhase::CycleCheck => (1, (s.cycles - s.cycle) as nat, 0),
        GmresPhase::FinalCheck => (0, 0, 1),
        GmresPhase::Done => (0, 0, 0),
    }
}

/// The run never performs more Arnoldi steps than `max_iterations`, over
/// all restart cycles, and reports at most that many.
pub proof fn lemma_gmres_iterations_within_budget(s: GmresState)
    requires
        gmres_wf(s),
    ensures
        s.total <= s.max_iterations,
        gmres_outcome(s).iterations <= s.max_iterations,
{
}

/// Every run finishes: each transition strictly decreases the
/// (well-founded) lexicographic measure of the work left.
pub proof fn lemma_gmres_progress(s: GmresState, e: GmresEvent)
    requires
        gmres_wf(s),
        gmres_accepts(s, e),
    ensures
        lex_lt(gmres_rank(gmres_step(s, e)), gmres_rank(s)),
{
}

/// If the initial residual is within tolerance, the run ends at once with
/// the initial guess: no iterations, converged (whatever the restart
/// length and budget).
pub proof fn lemma_gmres_initial_guess_is_solution(max_iterations: usize, restart_length: usize)
    ensures
        gmres_accepts(
            gmres_init(max_iterations, restart_length),
            GmresEvent::Residual { within_tolerance: true },
        ),
        gmres_action(
            gmres_step(
                gmres_init(max_iterations, restart_length),
                GmresEvent::Residual { within_tolerance: true },
            ),
        ) == GmresAction::Finish(
            GmresOutcome { iterations: 0, converged: true, reason: GmresReason::InitialGuess },
        ),
{
}

/// A finished run: the residual measured last is the true residual
/// `||b - A x||` of the returned iterate, and the run reports convergence
/// exactly when that residual passed its tolerance test; convergence is
/// reported exactly with the initial-guess and converged reasons; the
/// iteration limit is reported exactly when the run did not converge and
/// took all `max_iterations` steps; and a breakdown only with budget left
/// and a solve size within `1..=m`.
pub proof fn lemma_gmres_outcome(s: GmresState)
    requires
        gmres_wf(s),
        s.phase is Done,
    ensures
        s.residual_is_true,
        gmres_outcome(s).converged == s.residual_accepted,
        gmres_outcome(s).converged <==> (gmres_outcome(s).reason is InitialGuess
            || gmres_outcome(s).reason is Converged),
        gmres_outcome(s).reason is MaxIterations <==> (!gmres_outcome(s).converged
            && gmres_outcome(s).iterations == s.max_iterations),
        gmres_outcome(s).reason matches GmresReason::Breakdown { j_final, restart_length } ==> {
            &&& gmres_outcome(s).iterations < s.max_iterations
            &&& restart_length == s.restart_length
            &&& 1 <= j_final <= restart_length
        },
{
}

/// The counts of Arnoldi steps: both the run's count and the cycle's count
/// go up by one exactly when an Arnoldi step is asked for, and the cycle's
/// count starts from zero at each cycle start. So the reported iterations
/// are the Arnoldi steps performed, and `steps` those of the current cycle.
pub proof fn lemma_gmres_counts_arnoldi_steps(s: GmresState, e: GmresEvent)
    requires
        gmres_wf(s),
        gmres_accepts(s, e),
    ensures
        ({
            let t = gmres_step(s, e);
            let d: int = if gmres_action(t) is ArnoldiStep {
                1int
            } else {
                0int
            };
            &&& t.total == s.total + d
            &&& s.phase is CycleStart ==> t.steps == d
            &&& !(s.phase is CycleStart) ==> t.steps == s.steps + d
        }),
{
}

/// Each restart cycle takes at most `m` Arnoldi steps (so the basis never
/// holds more than `m` vectors), and there are at most
/// `ceil(max_iterations / m)` cycles.
pub proof fn lemma_gmres_cycle_bounds(s: GmresState)
    requires
        gmres_wf(s),
        !(s.phase is Initial),
        !s.solved_at_start,
    ensures
        gmres_action(s) matches GmresAction::ArnoldiStep { j, .. } ==> j < s.restart_length,
        s.phase is Step || s.phase is Update ==> 1 <= s.steps <= s.restart_length,
        s.cycle <= s.cycles,
        s.cycles as nat == restart_cycles(s.max_iterations as nat, s.restart_length as nat),
{
}

/// The solve at the end of a cycle has exactly the size of the Arnoldi
/// basis built in the cycle: the number of steps taken in it, between 1 and
/// `m`, whether the cycle ended full, on a tolerance hit, on a breakdown or
/// cut short by the iteration budget.
pub proof fn lemma_gmres_solve_size(s: GmresState)
    requires
        gmres_wf(s),
        s.phase is Update,
    ensures
        gmres_action(s) == (GmresAction::SolveAndUpdate { dim: s.steps }),
        1 <= s.steps <= s.restart_length,
{
}

/// Restarts: after a full cycle of `m` Arnoldi steps that did not meet the
/// tolerance, with budget and cycles left, the run restarts from the
/// updated iterate with a new cycle, without a separate residual check.
pub proof fn lemma_gmres_restarts_after_full_cycle(s: GmresState)
    requires
        gmres_wf(s),
        s.phase is Update,
        s.steps == s.restart_length,
        !s.converged,
        s.total < s.max_iterations,
        s.cycle + 1 < s.cycles,
    ensures
        gmres_action(gmres_step(s, GmresEvent::Updated)) == GmresAction::StartCycle,
        gmres_step(s, GmresEvent::Updated).cycle == s.cycle + 1,
        gmres_step(s, GmresEvent::Updated).total == s.total,
{
}

/// A tolerance hit on the rotated residual is not convergence: if the
/// recomputed true residual misses the tolerance, the run does not stop as
/// converged but goes on with the next cycle while budget and cycles are
/// left.
pub proof fn lemma_gmres_true_residual_decides(s: GmresState)
    requires
        gmres_wf(s),
        s.phase is CycleCheck,
        s.total < s.max_iterations,
        s.cycle + 1 < s.cycles,
    ensures
        gmres_action(gmres_step(s, GmresEvent::Residual { within_tolerance: false }))
            == GmresAction::StartCycle,
        !gmres_step(s, GmresEvent::Residual { within_tolerance: false }).converged,
{
}

/// The number of restart cycles is `ceil(max_iterations / m)`: enough
/// cycles of `m` steps to cover the budget, and no more than needed.
pub proof fn lemma_restart_cycles_is_ceiling(max_iterations: nat, m: nat)
    requires
        m > 0,
    ensures
        restart_cycles(max_iterations, m) * m >= max_iterations,
        max_iterations > 0 ==> (restart_cycles(max_iterations, m) - 1) * m < max_iterations,
        max_iterations == 0 ==> restart_cycles(max_iterations, m) == 0,
{
    let q = max_iterations / m;
    let r = max_iterations % m;
    vstd::arithmetic::div_mod::lemma_fundamental_div_mod(max_iterations as int, m as int);
    vstd::arithmetic::div_mod::lemma_mod_bound(max_iterations as int, m as int);
    assert(max_iterations == m * q + r);
    if r != 0 {
        assert(restart_cycles(max_iterations, m) == q + 1);
        assert((q + 1) * m >= max_iterations && q * m < max_iterations) by (nonlinear_arith)
            requires
                max_iterations == m * q + r,
                0 < r < m,
        ;
    } else {
        assert(restart_cycles(max_iterations, m) == q);
        if max_iterations > 0 {
            assert(q >= 1) by (nonlinear_arith)
                requires
                    max_iterations == m * q,
                    max_iterations > 0,
                    m > 0,
            ;
            assert(q * m >= max_iterations && (q - 1) * m < max_iterations) by (nonlinear_arith)
                requires
                    max_iterations == m * q,
                    q >= 1,
                    m > 0,
            ;
        } else {
            assert(q == 0) by (nonlinear_arith)
                requires
                    0 == m * q + r,
                    r == 0,
                    m > 0,
            ;
        }
    }
}

/// A run whose initial guess is not a solution gets `ceil(max_iterations / m)`
/// restart cycles: together they can take every step of the budget, and the
/// last one is needed to do so. With a budget it starts the first cycle; with
/// none it only rechecks the residual.
pub proof fn lemma_gmres_cycle_count(max_iterations: usize, restart_length: usize)
    requires
        restart_length > 0,
    ensures
        ({
            let t = gmres_step(
                gmres_init(max_iterations, restart_length),
                GmresEvent::Residual { within_tolerance: false },
            );
            &&& t.cycles * restart_length >= max_iterations
            &&& max_iterations > 0 ==> (t.cycles - 1) * restart_length < max_iterations
            &&& max_iterations > 0 ==> gmres_action(t) == GmresAction::StartCycle
            &&& max_iterations == 0 ==> gmres_action(t) == GmresAction::MeasureTrueResidual
        }),
{
    lemma_restart_cycles_is_ceiling(max_iterations as nat, restart_length as nat);
    lemma_restart_cycles_bounded(max_iterations as nat, restart_length as nat);
}

/// A cycle whose starting residual is neither within tolerance nor zero
/// begins with Arnoldi step 0 on a fresh basis; one whose starting residual
/// is within tolerance or zero ends the run as converged.
pub proof fn lemma_gmres_cycle_start(s: GmresState, within_tolerance: bool, is_zero: bool)
    requires
        gmres_wf(s),
        s.phase is CycleStart,
    ensures
        ({
            let t = gmres_step(s, GmresEvent::CycleResidual { within_tolerance, is_zero });
            &&& !within_tolerance && !is_zero ==> gmres_action(t) == (GmresAction::ArnoldiStep {
                j: 0,
                extend_basis: false,
            }) && t.total == s.total + 1 && t.steps == 1
            &&& within_tolerance || is_zero ==> gmres_action(t) == GmresAction::Finish(
                GmresOutcome {
                    iterations: s.total,
                    converged: true,
                    reason: GmresReason::Converged,
                },
            )
        }),
{
}

/// Arnoldi step `j` of a cycle is its `(j + 1)`-th step, and every step but
/// the first of a cycle first extends the basis with the vector left by the
/// step before it.
pub proof fn lemma_gmres_step_extends_basis(s: GmresState)
    requires
        gmres_wf(s),
        s.phase is Step,
    ensures
        s.j + 1 == s.steps,
        gmres_action(s) == (GmresAction::ArnoldiStep { j: s.j, extend_basis: s.steps > 1 }),
        gmres_action(s) == (GmresAction::ArnoldiStep { j: s.j, extend_basis: s.j > 0 }),
{
}

/// After an Arnoldi step: a tolerance hit or a breakdown ends the cycle
/// with a solve over the steps taken; otherwise the next step follows
/// (extending the basis, counted against the budget) while the cycle has
/// fewer than `m` steps and budget is left, else the cycle ends with a
/// solve over the steps taken.
pub proof fn lemma_gmres_after_step(s: GmresState, within_tolerance: bool, breakdown: bool)
    requires
        gmres_wf(s),
        s.phase is Step,
    ensures
        ({
            let t = gmres_step(s, GmresEvent::StepResidual { within_tolerance, breakdown });
            &&& within_tolerance || breakdown ==> gmres_action(t) == (GmresAction::SolveAndUpdate {
                dim: s.steps,
            }) && t.total == s.total
            &&& !within_tolerance && !breakdown && s.steps < s.restart_length && s.total
                < s.max_iterations ==> gmres_action(t) == (GmresAction::ArnoldiStep {
                j: s.steps,
                extend_basis: true,
            }) && t.total == s.total + 1 && t.cycle == s.cycle
            &&& !within_tolerance && !breakdown && (s.steps == s.restart_length || s.total
                == s.max_iterations) ==> gmres_action(t) == (GmresAction::SolveAndUpdate {
                dim: s.steps,
            }) && t.total == s.total
        }),
{
}

/// After the solve and update that end a cycle, the true residual of the
/// updated iterate is measured next, unless the cycle was full (`m` steps),
/// had no tolerance hit and budget and cycles are left: then the next
/// cycle starts right away.
pub proof fn lemma_gmres_after_update(s: GmresState)
    requires
        gmres_wf(s),
        s.phase is Update,
    ensures
        ({
            let a = gmres_action(gmres_step(s, GmresEvent::Updated));
            &&& a == GmresAction::MeasureTrueResidual || a == GmresAction::StartCycle
            &&& a == GmresAction::StartCycle <==> (s.steps == s.restart_length && !s.converged
                && s.total < s.max_iterations && s.cycle + 1 < s.cycles)
        }),
{
}

/// The text that describes why GMRES stopped.
pub open spec fn gmres_reason_message(r: GmresReason) -> Seq<char> {
    match r {
        GmresReason::InitialGuess => "Initial guess is already a solution."@,
        GmresReason::Converged => "Converged to tolerance."@,
        GmresReason::MaxIterations => "Reached maximum iterations."@,
        GmresReason::Breakdown { j_final, restart_length } =>
            "Terminated due to breakdown or stagnation (j_final="@ + decimal(j_final as nat)
                + ", m="@ + decimal(restart_length as nat) + ")."@,
    }
}

impl GmresReason {
    /// The message that GMRES reports for this reason.
    pub fn message(&self) -> (m: String)
        ensures
            m@ == gmres_reason_message(*self),
    {
        match self {
            GmresReason::InitialGuess => String::from_str("Initial guess is already a solution."),
            GmresReason::Converged => String::from_str("Converged to tolerance."),
            GmresReason::MaxIterations => String::from_str("Reached maximum iterations."),
            GmresReason::Breakdown { j_final, restart_length } => {
                let mut m = String::from_str(
                    "Terminated due to breakdown or stagnation (j_final=",
                );
                push_decimal(&mut m, *j_final);
                m.append(", m=");
                push_decimal(&mut m, *restart_length);
                m.append(").");
                m
            },
        }
    }
}

fn restart_cycle_count(max_iterations: usize, restart_length: usize) -> (c: usize)
    requires
        restart_length > 0,
    ensures
        c as nat == restart_cycles(max_iterations as nat, restart_length as nat),
{
    proof {
        lemma_restart_cycles_bounded(max_iterations as nat, restart_length as nat);
    }
    let partial: usize = if max_iterations % restart_length != 0 {
        1
    } else {
        0
    };
    max_iterations / restart_length + partial
}

fn after_loop(s: GmresState) -> (r: GmresState)
    ensures
        r == gmres_after_loop(s),
{
    if s.converged {
        GmresState { phase: GmresPhase::Done, ..s }
    } else {
        GmresState { phase: GmresPhase::FinalCheck, ..s }
    }
}

fn after_cycle(s: GmresState) -> (r: GmresState)
    requires
        s.cycle < s.cycles,
    ensures
        r == gmres_after_cycle(s),
{
    if s.converged || s.total >= s.max_iterations {
        after_loop(s)
    } else if s.cycle + 1 < s.cycles {
        GmresState { cycle: s.cycle + 1, phase: GmresPhase::CycleStart, ..s }
    } else {
        after_loop(GmresState { cycle: s.cycle + 1, ..s })
    }
}

fn enter_step(s: GmresState, j: usize, extend: bool) -> (r: GmresState)
    requires
        s.steps <= j,
    ensures
        r == gmres_enter_step(s, j, extend),
{
    if j < s.restart_length && s.total < s.max_iterations {
        GmresState {
            j,
            steps: s.steps + 1,
            total: s.total + 1,
            extend,
            phase: GmresPhase::Step,
            ..s
        }
    } else {
        GmresState { j, j_final: j, extend: false, phase: GmresPhase::Update, ..s }
    }
}

/// The GMRES control flow, driven by the numeric work of its caller.
pub struct GmresControl {
    state: GmresState,
}

impl View for GmresControl {
    type V = GmresState;

    closed spec fn view(&self) -> GmresState {
        self.state
    }
}

impl GmresControl {
    /// The control flow for a run with the given iteration budget and
    /// restart length, before any numeric work.
    pub fn new(max_iterations: usize, restart_length: usize) -> (c: GmresControl)
        ensures
            c@ == gmres_init(max_iterations, restart_length),
            gmres_wf(c@),
    {
        GmresControl {
            state: GmresState {
                max_iterations,
                restart_length,
                cycles: 0,
                cycle: 0,
                j: 0,
                steps: 0,
                total: 0,
                j_final: restart_length,
                converged: false,
                extend: false,
                solved_at_start: false,
                residual_is_true: false,
                residual_accepted: false,
                phase: GmresPhase::Initial,
            },
        }
    }

    /// The current state.
    pub fn state(&self) -> (s: GmresState)
        ensures
            s == self@,
    {
        self.state
    }

    /// The numeric work to do next.
    pub fn action(&self) -> (a: GmresAction)
        ensures
            a == gmres_action(self@),
    {
        let s = self.state;
        match s.phase {
            GmresPhase::Initial => GmresAction::MeasureInitialResidual,
            GmresPhase::CycleStart => GmresAction::StartCycle,
            GmresPhase::Step => GmresAction::ArnoldiStep { j: s.j, extend_basis: s.extend },
            GmresPhase::Update => GmresAction::SolveAndUpdate { dim: s.j_final },
            GmresPhase::CycleCheck => GmresAction::MeasureTrueResidual,
            GmresPhase::FinalCheck => GmresAction::MeasureTrueResidual,
            GmresPhase::Done => {
                let reason = if s.solved_at_start {
                    GmresReason::InitialGuess
                } else if s.converged {
                    GmresReason::Converged
                } else if s.total >= s.max_iterations {
                    GmresReason::MaxIterations
                } else {
                    GmresReason::Breakdown { j_final: s.j_final, restart_length: s.restart_length }
                };
                GmresAction::Finish(
                    GmresOutcome { iterations: s.total, converged: s.converged, reason },
                )
            },
        }
    }

    /// Takes what the numeric work for the current action found.
    pub fn next(&mut self, event: GmresEvent)
        requires
            gmres_wf(old(self)@),
            gmres_accepts(old(self)@, event),
        ensures
            final(self)@ == gmres_step(old(self)@, event),
            gmres_wf(final(self)@),
    {
        proof {
            lemma_gmres_step_wf(self.state, event);
        }
        let s = self.state;
        let r = match (s.phase, event) {
            (GmresPhase::Initial, GmresEvent::Residual { within_tolerance }) => {
                if within_tolerance {
                    GmresState {
                        converged: true,
                        solved_at_start: true,
                        residual_is_true: true,
                        residual_accepted: true,
                        phase: GmresPhase::Done,
                        ..s
                    }
                } else {
                    let c = restart_cycle_count(s.max_iterations, s.restart_length);
                    let s1 = GmresState {
                        cycles: c,
                        j_final: s.restart_length,
                        residual_is_true: true,
                        residual_accepted: false,
                        ..s
                    };
                    if 0 < c {
                        GmresState { phase: GmresPhase::CycleStart, ..s1 }
                    } else {
                        after_loop(s1)
                    }
                }
            },
            (GmresPhase::CycleStart, GmresEvent::CycleResidual { within_tolerance, is_zero }) => {
                if within_tolerance || is_zero {
                    after_loop(
                        GmresState {
                            steps: 0,
                            converged: true,
                            residual_is_true: true,
                            residual_accepted: true,
                            ..s
                        },
                    )
                } else {
                    enter_step(
                        GmresState {
                            steps: 0,
                            residual_is_true: true,
                            residual_accepted: false,
                            ..s
                        },
                        0,
                        false,
                    )
                }
            },
            (GmresPhase::Step, GmresEvent::StepResidual { within_tolerance, breakdown }) => {
                if within_tolerance {
                    GmresState {
                        j_final: s.j + 1,
                        converged: true,
                        extend: false,
                        residual_is_true: false,
                        phase: GmresPhase::Update,
                        ..s
                    }
                } else if breakdown {
                    GmresState {
                        j_final: s.j + 1,
                        extend: false,
                        residual_is_true: false,
                        phase: GmresPhase::Update,
                        ..s
                    }
                } else {
                    enter_step(
                        GmresState { residual_is_true: false, ..s },
                        s.j + 1,
                        s.j + 1 < s.restart_length,
                    )
                }
            },
            (GmresPhase::Update, GmresEvent::Updated) => {
                let s1 = GmresState { residual_is_true: false, ..s };
                if s1.converged || s1.j_final < s1.restart_length || (s1.cycle + 1 == s1.cycles
                    && s1.total >= s1.max_iterations) {
                    GmresState { phase: GmresPhase::CycleCheck, ..s1 }
                } else {
                    after_cycle(s1)
                }
            },
            (GmresPhase::CycleCheck, GmresEvent::Residual { within_tolerance }) => {
                after_cycle(
                    GmresState {
                        converged: within_tolerance,
                        residual_is_true: true,
                        residual_accepted: within_tolerance,
                        ..s
                    },
                )
            },
            (GmresPhase::FinalCheck, GmresEvent::Residual { within_tolerance }) => {
                GmresState {
                    converged: within_tolerance,
                    residual_is_true: true,
                    residual_accepted: within_tolerance,
                    phase: GmresPhase::Done,
                    ..s
                }
            },
            _ => s,
        };
        self.state = r;
    }
}

} // verus!
