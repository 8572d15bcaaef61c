//! Decision core of the adaptive gradient-ascent parameter fit.
//!
//! The fit maximizes the marginal log-likelihood with an adaptive
//! per-parameter step (running first and second moment estimates, bias
//! correction, a multiplicative update `parameter *= 1 + delta`).  The
//! floating-point arithmetic of one iteration cannot be carried by verified
//! code; the caller computes it and drives this module, which decides:
//!
//! - how the parameter vector is set up before the first iteration
//!   ([`prepare_parameters`]: an exactly-zero kernel parameter is replaced
//!   by the epsilon constant, since the multiplicative update would leave it
//!   stuck at zero forever, and for the variant that fits the noise in
//!   log-space the log-noise is appended as the final entry);
//! - the moment-state arrays for a fresh fit ([`initial_moments`]: all
//!   zeros, one pair of entries per parameter);
//! - whether an iteration made significant progress
//!   ([`significant_progress`]: some step `delta` has `|delta|` strictly
//!   above the convergence fraction);
//! - whether the loop goes on ([`FitController::should_continue`]: stop
//!   when no parameter made significant progress, when the wall clock has
//!   run past the deadline, or when the iteration bound is reached).
//!
//! The numeric constants of the procedure live here as double-precision bit
//! patterns, so the caller and the contracts speak of the same values.

use vstd::prelude::*;
use crate::float_bits::{abs_spec, gt_spec, is_zero_spec, abs_bits, gt_bits, is_zero_bits};

verus! {

/// Bit pattern of 0.9, the decay rate of the first-moment estimate.
pub const BETA1_BITS: u64 = 0x3fec_cccc_cccc_cccd;

/// Bit pattern of 0.999, the decay rate of the second-moment estimate.
pub const BETA2_BITS: u64 = 0x3fef_f7ce_d916_872b;

/// Bit pattern of 1e-8: the epsilon that guards divisions and replaces
/// exactly-zero parameters.
pub const EPSILON_BITS: u64 = 0x3e45_798e_e230_8c3a;

/// Bit pattern of 0.1, the learning rate.
pub const LEARNING_RATE_BITS: u64 = 0x3fb9_9999_9999_999a;

/// Bit pattern of 0.0.
pub const ZERO_BITS: u64 = 0;

/// Bit pattern of 1.0.
pub const ONE_BITS: u64 = 0x3ff0_0000_0000_0000;

/// A kernel parameter as the fit uses it: an exactly-zero value is replaced
/// by epsilon, every other value is kept.
pub open spec fn prepared_parameter(p: u64) -> u64 {
    if is_zero_spec(p) {
        EPSILON_BITS
    } else {
        p
    }
}

/// The parameter vector an optimization starts from: each kernel parameter
/// with exact zeros replaced by epsilon, followed, when the noise is fitted
/// in log-space, by the logarithm of the noise as the final entry.
pub fn prepare_parameters(kernel_parameters: &Vec<u64>, log_noise: Option<u64>) -> (r: Vec<u64>)
    ensures
        log_noise is Some ==> r@.len() == kernel_parameters@.len() + 1,
        log_noise is None ==> r@.len() == kernel_parameters@.len(),
        forall|i: int| 0 <= i < kernel_parameters@.len() ==> r@[i] == prepared_parameter(
            kernel_parameters@[i],
        ),
        forall|v: u64| log_noise == Some(v) ==> r@.last() == v,
{
    let mut r: Vec<u64> = Vec::new();
    let mut i: usize = 0;
    while i < kernel_parameters.len()
        invariant
            i <= kernel_parameters@.len(),
            r@.len() == i,
            forall|k: int| 0 <= k < i ==> r@[k] == prepared_parameter(kernel_parameters@[k]),
        decreases kernel_parameters@.len() - i,
    {
        let p = kernel_parameters[i];
        if is_zero_bits(p) {
            r.push(EPSILON_BITS);
        } else {
            r.push(p);
        }
        i += 1;
    }
    match log_noise {
        Some(v) => r.push(v),
        None => (),
    }
    r
}

/// The moment state at the start of a fit: first and second moment
/// estimates all zero, one entry per parameter.
pub fn initial_moments(n: usize) -> (r: (Vec<u64>, Vec<u64>))
    ensures
        r.0@.len() == n,
        r.1@.len() == n,
        forall|i: int| 0 <= i < n ==> r.0@[i] == ZERO_BITS,
        forall|i: int| 0 <= i < n ==> r.1@[i] == ZERO_BITS,
{
    let mut mean: Vec<u64> = Vec::new();
    let mut var: Vec<u64> = Vec::new();
    let mut i: usize = 0;
    while i < n
        invariant
            i <= n,
            mean@.len() == i,
            var@.len() == i,
            forall|k: int| 0 <= k < i ==> mean@[k] == ZERO_BITS,
            forall|k: int| 0 <= k < i ==> var@[k] == ZERO_BITS,
        decreases n - i,
    {
        mean.push(ZERO_BITS);
        var.push(ZERO_BITS);
        i += 1;
    }
    (mean, var)
}

/// Whether some step in `deltas` has an absolute value strictly greater
/// than the convergence fraction.
pub open spec fn significant_spec(deltas: Seq<u64>, convergence_fraction: u64) -> bool {
    exists|i: int| 0 <= i < deltas.len() && gt_spec(#[trigger] abs_spec(deltas[i]),
    convergence_fraction)
}

/// Whether an iteration made significant progress: some parameter's step
/// `delta` satisfies `|delta| > convergence_fraction`.
pub fn significant_progress(deltas: &Vec<u64>, convergence_fraction: u64) -> (r: bool)
    ensures
        r == significant_spec(deltas@, convergence_fraction),
{
    let mut i: usize = 0;
    while i < deltas.len()
        invariant
            i <= deltas@.len(),
            !significant_spec(deltas@.take(i as int), convergence_fraction),
        decreases deltas@.len() - i,
    {
        if gt_bits(abs_bits(deltas[i]), convergence_fraction) {
            proof {
                assert(gt_spec(abs_spec(deltas@[i as int]), convergence_fraction));
            }
            return true;
        }
        proof {
            assert(deltas@.take(i + 1int) =~= deltas@.take(i as int).push(deltas@[i as int]));
        }
        i += 1;
    }
    proof {
        assert(deltas@.take(deltas@.len() as int) =~= deltas@);
    }
    false
}

/// An instant of the wall clock, opaque to the verifier.  It holds a
/// `chrono::DateTime<chrono::Utc>`, whose declaration the verifier refuses
/// (its type parameter is bounded by an outside trait), so the whole struct
/// stands behind `external_body`.
#[verifier::external_body]
pub struct StartInstant {
    instant: chrono::DateTime<chrono::Utc>,
}

/// Relies on `chrono::Utc::now`: the current instant of the wall clock.
/// Nothing is assumed of the value; the clock is outside the program.
#[verifier::external_body]
fn utc_now() -> StartInstant {
    StartInstant { instant: chrono::Utc::now() }
}

/// Relies on `chrono::DateTime::signed_duration_since` and the derived
/// ordering of `chrono::TimeDelta`: true when the wall clock stands more
/// than `max_time` past `started`.  Nothing is assumed of the result; the
/// clock is outside the program, so the stopping rule states what holds
/// whichever way it answers.
#[verifier::external_body]
fn time_exceeded(started: &StartInstant, max_time: &chrono::TimeDelta) -> bool {
    chrono::Utc::now().signed_duration_since(started.instant) > *max_time
}

/// Declares `chrono::TimeDelta` (the `chrono::Duration` alias) so that a
/// deadline can cross the verified boundary; the value stays opaque.
#[verifier::external_type_specification]
#[verifier::external_body]
pub struct ExTimeDelta(chrono::TimeDelta);

/// The stopping rule of one fit call: counts iterations against the bound,
/// holds the convergence fraction, and watches the wall clock against the
/// deadline taken when the fit started.
pub struct FitController {
    iteration: usize,
    max_iter: usize,
    convergence_fraction: u64,
    started: StartInstant,
    max_time: chrono::TimeDelta,
}

impl FitController {
    /// Completed iterations.
    pub closed spec fn iterations(&self) -> int {
        self.iteration as int
    }

    /// The iteration bound the fit was started with.
    pub closed spec fn max_iterations(&self) -> int {
        self.max_iter as int
    }

    /// The convergence fraction the fit was started with, as double bits.
    pub closed spec fn fraction(&self) -> u64 {
        self.convergence_fraction
    }

    /// Starts the stopping rule: no iteration done yet, the wall-clock
    /// deadline running from now.
    pub fn start(max_iter: usize, convergence_fraction: u64, max_time: chrono::TimeDelta) -> (r:
        Self)
        ensures
            r.iterations() == 0,
            r.max_iterations() == max_iter,
            r.fraction() == convergence_fraction,
    {
        FitController {
            iteration: 0,
            max_iter,
            convergence_fraction,
            started: utc_now(),
            max_time,
        }
    }

    /// Completed iterations, for the caller's reporting.
    pub fn iterations_done(&self) -> (r: usize)
        ensures
            r == self.iterations(),
    {
        self.iteration
    }

    /// Records one completed iteration whose per-parameter steps were
    /// `deltas`, and decides whether the loop goes on.  It goes on only if
    /// some step was significant and the iteration bound is not reached;
    /// it never goes on past the bound or without significant progress,
    /// and may stop earlier still when the wall clock has run past the
    /// deadline.
    pub fn should_continue(&mut self, deltas: &Vec<u64>) -> (r: bool)
        requires
            old(self).iterations() < old(self).max_iterations(),
        ensures
            final(self).iterations() == old(self).iterations() + 1,
            final(self).iterations() <= final(self).max_iterations(),
            final(self).max_iterations() == old(self).max_iterations(),
            final(self).fraction() == old(self).fraction(),
            r ==> significant_spec(deltas@, old(self).fraction()),
            r ==> final(self).iterations() < final(self).max_iterations(),
            !significant_spec(deltas@, old(self).fraction()) ==> !r,
    {
        self.iteration = self.iteration + 1;
        if self.iteration >= self.max_iter {
            return false;
        }
        if !significant_progress(deltas, self.convergence_fraction) {
            return false;
        }
        if time_exceeded(&self.started, &self.max_time) {
            return false;
        }
        true
    }
}

} // verus!
