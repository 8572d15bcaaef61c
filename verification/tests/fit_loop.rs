// An adaptive gradient-ascent fit of one parameter, run the way a caller
// drives the library: the caller supplies the floating-point arithmetic of
// each iteration, the library supplies the constants, the starting
// parameter vector and the stopping rule.

use friedrich::optimizer::{
    initial_moments, prepare_parameters, FitController, BETA1_BITS, BETA2_BITS, EPSILON_BITS,
    LEARNING_RATE_BITS, ONE_BITS,
};

/// Maximizes `ln(p) - p` (optimum at `p = 1`) by the adaptive multiplicative
/// update; returns the fitted parameter and the iterations used.
fn fit_one_parameter(start: f64, max_iter: usize, convergence_fraction: f64) -> (f64, usize) {
    let beta1 = f64::from_bits(BETA1_BITS);
    let beta2 = f64::from_bits(BETA2_BITS);
    let epsilon = f64::from_bits(EPSILON_BITS);
    let learning_rate = f64::from_bits(LEARNING_RATE_BITS);
    let one = f64::from_bits(ONE_BITS);

    let prepared = prepare_parameters(&vec![start.to_bits()], None);
    let mut p = f64::from_bits(prepared[0]);
    let (mean0, var0) = initial_moments(prepared.len());
    let mut mean = f64::from_bits(mean0[0]);
    let mut var = f64::from_bits(var0[0]);

    let mut controller = FitController::start(
        max_iter,
        convergence_fraction.to_bits(),
        chrono::Duration::hours(1),
    );
    loop {
        let i = controller.iterations_done() + 1;
        let gradient = one / p - one;
        mean = beta1 * mean + (one - beta1) * gradient;
        var = beta2 * var + (one - beta2) * gradient.powi(2);
        let bias_corrected_mean = mean / (one - beta1.powi(i as i32));
        let bias_corrected_variance = var / (one - beta2.powi(i as i32));
        let delta = learning_rate * bias_corrected_mean / (bias_corrected_variance.sqrt()
            + epsilon);
        p *= one + delta;
        if !controller.should_continue(&vec![delta.to_bits()]) {
            break;
        }
    }
    (p, controller.iterations_done())
}

#[test]
fn fit_converges_before_the_iteration_bound() {
    let (p, iterations) = fit_one_parameter(0.2, 100, 0.05);
    assert!(iterations < 100, "no convergence in {iterations} iterations");
    assert!(iterations >= 1);
    assert!(p > 0.5 && p < 2.0, "fitted parameter {p} far from the optimum");
}

#[test]
fn fit_started_at_zero_leaves_zero() {
    // The epsilon substitution keeps a parameter starting at exactly zero
    // from being locked there by the multiplicative update.
    let (p, _) = fit_one_parameter(0.0, 1, 0.05);
    assert!(p != 0.0);
}
