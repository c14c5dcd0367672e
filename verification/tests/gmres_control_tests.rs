use krylov_rs::gmres_control::{
    GmresAction, GmresControl, GmresEvent, GmresOutcome, GmresPhase, GmresReason,
};

fn residual(within_tolerance: bool) -> GmresEvent {
    GmresEvent::Residual { within_tolerance }
}

fn cycle(within_tolerance: bool) -> GmresEvent {
    GmresEvent::CycleResidual { within_tolerance, is_zero: false }
}

fn step(within_tolerance: bool, breakdown: bool) -> GmresEvent {
    GmresEvent::StepResidual { within_tolerance, breakdown }
}

/// Feeds the events in order; returns the actions asked for, the first
/// before any event and one after each event.
fn run(max_iterations: usize, restart_length: usize, events: &[GmresEvent]) -> Vec<GmresAction> {
    let mut c = GmresControl::new(max_iterations, restart_length);
    let mut actions = vec![c.action()];
    for e in events {
        c.next(*e);
        actions.push(c.action());
    }
    actions
}

fn finish(actions: &[GmresAction]) -> GmresOutcome {
    match actions.last() {
        Some(GmresAction::Finish(o)) => *o,
        other => panic!("run did not finish: {:?}", other),
    }
}

#[test]
fn gmres_initial_guess_is_a_solution() {
    let actions = run(5, 1, &[residual(true)]);
    assert_eq!(actions[0], GmresAction::MeasureInitialResidual);
    let o = finish(&actions);
    assert_eq!(o, GmresOutcome { iterations: 0, converged: true, reason: GmresReason::InitialGuess });
    assert_eq!(o.reason.message(), "Initial guess is already a solution.");
}

#[test]
fn initial_guess_with_zero_restart_length() {
    let o = finish(&run(5, 0, &[residual(true)]));
    assert_eq!(o.reason, GmresReason::InitialGuess);
}

#[test]
fn converges_inside_second_step() {
    let actions = run(
        10,
        3,
        &[residual(false), cycle(false), step(false, false), step(true, false), GmresEvent::Updated, residual(true)],
    );
    assert_eq!(
        actions,
        vec![
            GmresAction::MeasureInitialResidual,
            GmresAction::StartCycle,
            GmresAction::ArnoldiStep { j: 0, extend_basis: false },
            GmresAction::ArnoldiStep { j: 1, extend_basis: true },
            GmresAction::SolveAndUpdate { dim: 2 },
            GmresAction::MeasureTrueResidual,
            GmresAction::Finish(GmresOutcome {
                iterations: 2,
                converged: true,
                reason: GmresReason::Converged
            }),
        ]
    );
    assert_eq!(GmresReason::Converged.message(), "Converged to tolerance.");
}

#[test]
fn rotated_residual_hit_is_rechecked_on_the_true_residual() {
    // The rotated residual was within tolerance; the recomputed true
    // residual is not: the run goes on with the next cycle.
    let actions = run(
        10,
        3,
        &[residual(false), cycle(false), step(true, false), GmresEvent::Updated, residual(false)],
    );
    assert_eq!(actions[4], GmresAction::MeasureTrueResidual);
    assert_eq!(actions[5], GmresAction::StartCycle);
    let mut c = GmresControl::new(10, 3);
    for e in &[residual(false), cycle(false), step(true, false), GmresEvent::Updated, residual(false)] {
        c.next(*e);
    }
    assert!(!c.state().converged);
    assert_eq!(c.state().cycle, 1);
}

#[test]
fn failed_recheck_in_last_cycle_ends_unconverged() {
    // m = 2, max = 2: one cycle; the rotated residual hits the tolerance at
    // the second step but the true residual misses it.
    let o = finish(&run(
        2,
        2,
        &[
            residual(false),
            cycle(false),
            step(false, false),
            step(true, false),
            GmresEvent::Updated,
            residual(false),
            residual(false),
        ],
    ));
    assert_eq!(o, GmresOutcome { iterations: 2, converged: false, reason: GmresReason::MaxIterations });
}

#[test]
fn full_cycles_then_restart() {
    let actions = run(
        4,
        2,
        &[
            residual(false),
            cycle(false),
            step(false, false),
            step(false, false),
            GmresEvent::Updated,
        ],
    );
    assert_eq!(actions[4], GmresAction::SolveAndUpdate { dim: 2 });
    // A full cycle that neither converged nor spent the budget restarts
    // without a true residual check.
    assert_eq!(actions[5], GmresAction::StartCycle);
}

#[test]
fn gmres_reaches_maximum_iterations() {
    // m = 2, max = 4: two full cycles, then the final check.
    let o = finish(&run(
        4,
        2,
        &[
            residual(false),
            cycle(false),
            step(false, false),
            step(false, false),
            GmresEvent::Updated,
            cycle(false),
            step(false, false),
            step(false, false),
            GmresEvent::Updated,
            residual(false),
            residual(false),
        ],
    ));
    assert_eq!(o, GmresOutcome { iterations: 4, converged: false, reason: GmresReason::MaxIterations });
    assert_eq!(o.reason.message(), "Reached maximum iterations.");
}

#[test]
fn partial_last_cycle_solves_over_the_steps_taken() {
    // m = 3, max = 4: the second cycle has one step, then the budget ends
    // the cycle and the solve has the size of the one step taken.
    let actions = run(
        4,
        3,
        &[
            residual(false),
            cycle(false),
            step(false, false),
            step(false, false),
            step(false, false),
            GmresEvent::Updated,
            cycle(false),
            step(false, false),
        ],
    );
    assert_eq!(actions.last(), Some(&GmresAction::SolveAndUpdate { dim: 1 }));
    // The cut cycle is rechecked, then the run ends at the budget.
    let mut c = GmresControl::new(4, 3);
    for e in &[
        residual(false),
        cycle(false),
        step(false, false),
        step(false, false),
        step(false, false),
        GmresEvent::Updated,
        cycle(false),
        step(false, false),
        GmresEvent::Updated,
    ] {
        c.next(*e);
    }
    assert_eq!(c.action(), GmresAction::MeasureTrueResidual);
    c.next(residual(true));
    assert_eq!(
        c.action(),
        GmresAction::Finish(GmresOutcome { iterations: 4, converged: true, reason: GmresReason::Converged })
    );
}

#[test]
fn breakdown_in_every_cycle() {
    // Each cycle breaks down after one step: the cycles run out first.
    let o = finish(&run(
        4,
        2,
        &[
            residual(false),
            cycle(false),
            step(false, true),
            GmresEvent::Updated,
            residual(false),
            cycle(false),
            step(false, true),
            GmresEvent::Updated,
            residual(false),
            residual(false),
        ],
    ));
    assert_eq!(
        o,
        GmresOutcome {
            iterations: 2,
            converged: false,
            reason: GmresReason::Breakdown { j_final: 1, restart_length: 2 }
        }
    );
    assert_eq!(
        o.reason.message(),
        "Terminated due to breakdown or stagnation (j_final=1, m=2)."
    );
}

#[test]
fn zero_residual_at_cycle_start_converges() {
    let o = finish(&run(
        6,
        3,
        &[residual(false), GmresEvent::CycleResidual { within_tolerance: false, is_zero: true }],
    ));
    assert_eq!(o, GmresOutcome { iterations: 0, converged: true, reason: GmresReason::Converged });
}

#[test]
fn zero_budget_checks_residual_once() {
    let actions = run(0, 3, &[residual(false), residual(true)]);
    assert_eq!(actions[1], GmresAction::MeasureTrueResidual);
    assert_eq!(
        finish(&actions),
        GmresOutcome { iterations: 0, converged: true, reason: GmresReason::Converged }
    );
}

#[test]
fn restart_cycle_count_rounds_up() {
    let mut c = GmresControl::new(10, 3);
    c.next(residual(false));
    assert_eq!(c.state().cycles, 4);
    assert_eq!(c.state().phase, GmresPhase::CycleStart);
    let mut c = GmresControl::new(9, 3);
    c.next(residual(false));
    assert_eq!(c.state().cycles, 3);
}

#[test]
fn breakdown_message_with_large_numbers() {
    let r = GmresReason::Breakdown { j_final: 17, restart_length: 250 };
    assert_eq!(r.message(), "Terminated due to breakdown or stagnation (j_final=17, m=250).");
}
