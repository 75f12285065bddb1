//! Verified core of a planar four-bar linkage simulator.
//!
//! A four-bar linkage is a closed chain of four rigid links: a fixed ground
//! link, a driven crank, a coupler, and a rocker.  Given the four link
//! lengths and the crank angle, the two dependent angles are found by a
//! Newton-Raphson iteration on the loop-closure equations.  That iteration
//! runs on floating-point numbers and therefore lives in the unverified
//! shell around this crate; everything discrete about the mechanism is
//! verified here:
//!
//! - [`mechanism`]: the link-length configuration in fixed-point units,
//!   the Grashof criterion, and the mechanism-type classification with its
//!   deterministic shortest-link tie-breaking;
//! - [`solver`]: the solver's control logic as a state machine — how the
//!   initial guess is seeded, what each iteration's outcome means for the
//!   run (accept, fail, continue), and how a finished solve is committed
//!   to the mechanism state so that a failed solve never disturbs the last
//!   converged angles.

pub mod mechanism;
pub mod solver;

pub use mechanism::FourBar;
pub use mechanism::FourBarConfig;
pub use mechanism::Link;
pub use solver::FourBarState;
pub use solver::IterEval;
pub use solver::SeedChoice;
pub use solver::SolveError;
pub use solver::StepDecision;
pub use solver::choose_seed;
