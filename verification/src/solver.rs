//! Control logic of the Newton-Raphson position solver, verified as a
//! state machine.
//!
//! The numerical work of one iteration — evaluating the loop-closure
//! residuals, testing them against the tolerance, testing the Jacobian
//! determinant, and taking the Newton step — happens on floating-point
//! numbers in the unverified shell.  The shell reports each iteration's
//! outcome as an [`IterEval`], and everything the solver *decides* is
//! verified here: how the initial guess is seeded ([`choose_seed`]), what
//! each outcome means for the run ([`crate::FourBar::solve_step`]), and
//! how the finished run is committed to the mechanism state
//! ([`FourBarState::after_solve`]) so that a failed solve never disturbs
//! the last converged dependent angles.

use vstd::prelude::*;
use crate::mechanism::FourBar;

verus! {

/// The three joint angles of the linkage, generic over the angle scalar so
/// that the floating-point shell can instantiate it with its own number
/// type: `theta2` is the driven crank angle, `theta3` the coupler angle,
/// and `theta4` the rocker angle.
#[derive(Clone, Copy, Debug)]
pub struct FourBarState<A> {
    /// Input (crank) angle.
    pub theta2: A,
    /// Coupler angle, solved.
    pub theta3: A,
    /// Output (rocker) angle, solved.
    pub theta4: A,
}

/// Why a position solve failed.  Both failures are recoverable: the caller
/// keeps the last converged state and may try another input angle.
#[derive(Clone, Copy, PartialEq, Eq, Structural, Debug)]
pub enum SolveError {
    /// The Jacobian determinant collapsed below its threshold: the linkage
    /// is at (or numerically indistinguishable from) a folded or aligned
    /// configuration.
    Singularity,
    /// The iteration budget was exhausted without meeting the convergence
    /// tolerance; `limit` is that budget.
    MaxIterations {
        /// The iteration budget that was exhausted.
        limit: u32,
    },
}

/// What the numerical evaluation of one iteration found, in the order the
/// tests are made: the residuals are tested against the tolerance first,
/// so an iterate that is both converged and singular reports `Converged`;
/// only a non-converged iterate with a collapsed Jacobian determinant
/// reports `Singular`; otherwise a Newton step was taken and the outcome
/// is `Stepped`.
#[derive(Clone, Copy, PartialEq, Eq, Structural, Debug)]
pub enum IterEval {
    /// Both residuals are within the convergence tolerance.
    Converged,
    /// Not converged, and the Jacobian determinant is below its threshold.
    Singular,
    /// Not converged and not singular; the iterate was advanced by one
    /// Newton step.
    Stepped,
}

/// What the solver does after one iteration's evaluation.
#[derive(Clone, Copy, PartialEq, Eq, Structural, Debug)]
pub enum StepDecision {
    /// Commit the current iterate as the converged solution.
    Accept,
    /// Abort the run and report the error; the previous state stands.
    Fail(SolveError),
    /// Run another iteration.
    Continue,
}

/// Which initial guess seeds the iteration.
#[derive(Clone, Copy, PartialEq, Eq, Structural, Debug)]
pub enum SeedChoice {
    /// Reuse the previously converged dependent angles, preserving the
    /// assembly branch across small input steps.
    Warm,
    /// Use the analytical half-angle estimate for the open branch.
    Analytic,
    /// Fall back to the fixed 45-degree geometric seed.
    Fallback,
}

/// The seed policy of the solver: a prior converged solution (a warm
/// start) is always reused; on a cold start the analytical estimate is
/// used when it exists, that is when neither half-angle discriminant is
/// negative, and the fixed geometric seed otherwise.
pub fn choose_seed(cold_start: bool, analytic_available: bool) -> (c: SeedChoice)
    ensures
        !cold_start ==> c == SeedChoice::Warm,
        cold_start && analytic_available ==> c == SeedChoice::Analytic,
        cold_start && !analytic_available ==> c == SeedChoice::Fallback,
{
    if !cold_start {
        SeedChoice::Warm
    } else if analytic_available {
        SeedChoice::Analytic
    } else {
        SeedChoice::Fallback
    }
}

impl FourBar {
    /// Decide the fate of the solve after iteration `iter` (counted from
    /// zero) was evaluated: a converged iterate is accepted, a singular
    /// one aborts the run at once, and a plain Newton step continues the
    /// run unless it was the last iteration in the budget.
    pub fn solve_step(&self, iter: u32, eval: IterEval) -> (d: StepDecision)
        requires
            iter < self.max_iterations,
        ensures
            eval is Converged ==> d == StepDecision::Accept,
            eval is Singular ==> d == StepDecision::Fail(SolveError::Singularity),
            eval is Stepped && iter + 1 < self.max_iterations ==> d == StepDecision::Continue,
            eval is Stepped && iter + 1 == self.max_iterations ==> d == StepDecision::Fail(
                SolveError::MaxIterations { limit: self.max_iterations },
            ),
    {
        match eval {
            IterEval::Converged => StepDecision::Accept,
            IterEval::Singular => StepDecision::Fail(SolveError::Singularity),
            IterEval::Stepped => {
                if iter + 1 < self.max_iterations {
                    StepDecision::Continue
                } else {
                    StepDecision::Fail(SolveError::MaxIterations { limit: self.max_iterations })
                }
            },
        }
    }
}

/// The state a solve run leaves behind: the new input angle always takes
/// effect, and the dependent angles move only when the run converged.
pub open spec fn spec_after_solve<A>(
    prev: FourBarState<A>,
    theta2: A,
    solved: Option<(A, A)>,
) -> FourBarState<A> {
    match solved {
        Some((t3, t4)) => FourBarState { theta2: theta2, theta3: t3, theta4: t4 },
        None => FourBarState { theta2: theta2, theta3: prev.theta3, theta4: prev.theta4 },
    }
}

impl<A> FourBarState<A> {
    /// Commit the outcome of a solve run at input angle `theta2`:
    /// `solved` carries the converged `(theta3, theta4)` of a successful
    /// run and is `None` for a failed one.  The input angle always takes
    /// effect, while on failure the dependent angles keep their previous
    /// values — the state is "partially updated": input moved, output
    /// stale.
    pub fn after_solve(self, theta2: A, solved: Option<(A, A)>) -> (s: Self)
        ensures
            s == spec_after_solve(self, theta2, solved),
            s.theta2 == theta2,
            solved matches Some((t3, t4)) ==> s.theta3 == t3 && s.theta4 == t4,
            solved is None ==> s.theta3 == self.theta3 && s.theta4 == self.theta4,
    {
        match solved {
            Some((t3, t4)) => FourBarState { theta2, theta3: t3, theta4: t4 },
            None => FourBarState { theta2, theta3: self.theta3, theta4: self.theta4 },
        }
    }
}

/// Re-solving an already-converged state is idempotent: when a successful
/// run at the same input angle returns the very angles it was seeded with
/// — as happens when the warm-started residuals already meet the
/// tolerance — committing it reproduces the state unchanged.
pub proof fn lemma_recommit_converged_state<A>(state: FourBarState<A>)
    ensures
        spec_after_solve(state, state.theta2, Some((state.theta3, state.theta4))) == state,
{
}

} // verus!
