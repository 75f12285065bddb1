//! Tests of the solver's verified control logic: seed policy, per-iteration
//! decisions, and state commitment.

use fourbar::FourBar;
use fourbar::FourBarState;
use fourbar::IterEval;
use fourbar::SeedChoice;
use fourbar::SolveError;
use fourbar::StepDecision;
use fourbar::choose_seed;

#[test]
fn warm_start_is_always_reused() {
    assert_eq!(choose_seed(false, true), SeedChoice::Warm);
    assert_eq!(choose_seed(false, false), SeedChoice::Warm);
}

#[test]
fn cold_start_prefers_analytic_estimate() {
    assert_eq!(choose_seed(true, true), SeedChoice::Analytic);
    assert_eq!(choose_seed(true, false), SeedChoice::Fallback);
}

#[test]
fn converged_iterate_is_accepted() {
    let linkage = FourBar::new();
    assert_eq!(linkage.solve_step(0, IterEval::Converged), StepDecision::Accept);
    assert_eq!(linkage.solve_step(99, IterEval::Converged), StepDecision::Accept);
}

#[test]
fn singular_iterate_aborts_at_once() {
    let linkage = FourBar::new();
    assert_eq!(
        linkage.solve_step(5, IterEval::Singular),
        StepDecision::Fail(SolveError::Singularity)
    );
}

#[test]
fn stepped_iterate_continues_until_budget() {
    let linkage = FourBar::new();
    assert_eq!(linkage.solve_step(0, IterEval::Stepped), StepDecision::Continue);
    assert_eq!(linkage.solve_step(42, IterEval::Stepped), StepDecision::Continue);
    assert_eq!(linkage.solve_step(98, IterEval::Stepped), StepDecision::Continue);
    assert_eq!(
        linkage.solve_step(99, IterEval::Stepped),
        StepDecision::Fail(SolveError::MaxIterations { limit: 100 })
    );
}

#[test]
fn successful_solve_commits_all_angles() {
    let before = FourBarState { theta2: 0.1_f64, theta3: 1.2, theta4: 2.3 };
    let after = before.after_solve(0.2, Some((1.25, 2.35)));
    assert_eq!(after.theta2, 0.2);
    assert_eq!(after.theta3, 1.25);
    assert_eq!(after.theta4, 2.35);
}

#[test]
fn failed_solve_keeps_dependent_angles() {
    // Only the input angle moves; the dependent angles stay stale.
    let before = FourBarState { theta2: 0.1_f64, theta3: 1.2, theta4: 2.3 };
    let after = before.after_solve(0.2, None);
    assert_eq!(after.theta2, 0.2);
    assert_eq!(after.theta3, before.theta3);
    assert_eq!(after.theta4, before.theta4);
}

#[test]
fn recommitting_converged_state_is_identity() {
    // A successful re-solve at the same input angle that returns the seed
    // angles reproduces the state exactly.
    let state = FourBarState { theta2: 0.75_f64, theta3: 1.5, theta4: 2.25 };
    let again = state.after_solve(state.theta2, Some((state.theta3, state.theta4)));
    assert_eq!(again.theta2, state.theta2);
    assert_eq!(again.theta3, state.theta3);
    assert_eq!(again.theta4, state.theta4);
}
