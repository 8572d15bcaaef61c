//! Gaussian-process hyperparameter fitting: the verified core.
//!
//! The crate verifies the parts of a Gaussian-process regression fitter that
//! carry algorithmic bookkeeping rather than raw floating-point arithmetic:
//!
//! - [`extendable_matrix`]: amortized-growth containers for the training
//!   data, whose logical view, growth policy and replacement operation are
//!   specified exactly;
//! - [`float_bits`]: exact bit-level predicates on IEEE-754 double-precision
//!   values carried as `u64` bit patterns (zero test, absolute value,
//!   ordering), against which the optimizer's decisions are verified;
//! - [`optimizer`]: the decision core of the adaptive gradient-ascent loop:
//!   parameter-vector setup, the significant-progress test, and the
//!   stopping rule with its wall-clock deadline;
//! - [`prior`]: the prior means whose output is independent of the inputs'
//!   values, stated exactly over bit patterns.
//!
//! The floating-point arithmetic itself (gradient formulas, moment updates,
//! covariance factorization) cannot be carried by verified code and lives
//! with the unverified caller, which drives the loop by handing each
//! iteration's numeric results to the decision core.

pub mod extendable_matrix;
pub mod float_bits;
pub mod optimizer;
pub mod prior;
