use rand::thread_rng;
use rand_distr::{Distribution, Normal};
use rust_options_pricing::{Double, MonteCarloSimulator, OptionType, SimulationResult};
use statrs::distribution::ContinuousCDF;

fn d(x: f64) -> Double {
    Double::from_bits(x.to_bits())
}

fn f(x: Double) -> f64 {
    f64::from_bits(x.to_bits())
}

fn simulator(n: usize) -> MonteCarloSimulator {
    MonteCarloSimulator::new(d(100.0), d(100.0), d(1.0), d(0.05), d(0.2), n, OptionType::Call)
}

/// Discounted mean payoff over fresh draws, with its 95% interval.
fn price_with_confidence(mc: &MonteCarloSimulator) -> Option<SimulationResult> {
    let divisor = mc.degrees_of_freedom()?;
    let c = mc.contract();
    let (s, k, t) = (f(c.spot_price), f(c.strike_price), f(c.time_to_expiry));
    let (r, v) = (f(c.risk_free_rate), f(c.volatility));
    let n = mc.num_simulations();
    let mut rng = thread_rng();
    let normal = Normal::new(0.0, 1.0).unwrap();
    let payoffs: Vec<f64> = (0..n)
        .map(|_| {
            let z: f64 = normal.sample(&mut rng);
            let terminal = s * ((r - 0.5 * v.powi(2)) * t + v * t.sqrt() * z).exp();
            match c.option_type {
                OptionType::Call => (terminal - k).max(0.0),
                OptionType::Put => (k - terminal).max(0.0),
            }
        })
        .collect();
    let mean = payoffs.iter().sum::<f64>() / n as f64;
    let variance = payoffs.iter().map(|p| (p - mean).powi(2)).sum::<f64>() / divisor as f64;
    let std_error = variance.sqrt() / (n as f64).sqrt();
    let discount = (-r * t).exp();
    let price = mean * discount;
    let half_width = 1.96 * std_error * discount;
    SimulationResult::new(d(price), d(price - half_width), d(price + half_width))
}

#[test]
fn test_confidence_interval() {
    let mc = simulator(10000);

    let result = price_with_confidence(&mc).unwrap();
    let (price, lower, upper) = (f(result.price()), f(result.lower()), f(result.upper()));

    assert!(lower < price);
    assert!(price < upper);
    assert!(lower > 0.0);
}

#[test]
fn estimate_is_near_the_closed_form_price() {
    let mc = simulator(100_000);
    let result = price_with_confidence(&mc).unwrap();

    let normal = statrs::distribution::Normal::new(0.0, 1.0).unwrap();
    let (s, k, t, r, v) = (100.0f64, 100.0f64, 1.0f64, 0.05f64, 0.2f64);
    let d1 = ((s / k).ln() + (r + 0.5 * v.powi(2)) * t) / (v * t.sqrt());
    let d2 = d1 - v * t.sqrt();
    let closed_form = s * normal.cdf(d1) - k * (-r * t).exp() * normal.cdf(d2);
    assert!((closed_form - 10.450583572185565).abs() < 1e-9);

    let standard_error = (f(result.upper()) - f(result.price())) / 1.96;
    assert!((f(result.price()) - closed_form).abs() < 6.0 * standard_error);
}

#[test]
fn interval_narrows_with_more_samples() {
    let small = price_with_confidence(&simulator(1_000)).unwrap();
    let large = price_with_confidence(&simulator(100_000)).unwrap();
    let small_width = f(small.upper()) - f(small.lower());
    let large_width = f(large.upper()) - f(large.lower());
    // A hundred times the samples: about a tenth of the width.
    assert!(large_width < small_width / 5.0);
    assert!(large_width > small_width / 20.0);
}

#[test]
fn fewer_than_two_samples_give_no_interval() {
    assert!(price_with_confidence(&simulator(0)).is_none());
    assert!(price_with_confidence(&simulator(1)).is_none());
    assert!(price_with_confidence(&simulator(2)).is_some());
}

#[test]
fn degrees_of_freedom_are_one_less_than_the_samples() {
    assert_eq!(simulator(0).degrees_of_freedom(), None);
    assert_eq!(simulator(1).degrees_of_freedom(), None);
    assert_eq!(simulator(2).degrees_of_freedom(), Some(1));
    assert_eq!(simulator(10000).degrees_of_freedom(), Some(9999));
    assert_eq!(simulator(usize::MAX).degrees_of_freedom(), Some(usize::MAX - 1));
}

#[test]
fn new_keeps_the_configuration() {
    let mc =
        MonteCarloSimulator::new(d(100.0), d(95.0), d(1.5), d(0.05), d(0.2), 5000, OptionType::Put);
    let c = mc.contract();
    assert_eq!(f(c.spot_price), 100.0);
    assert_eq!(f(c.strike_price), 95.0);
    assert_eq!(f(c.time_to_expiry), 1.5);
    assert_eq!(f(c.risk_free_rate), 0.05);
    assert_eq!(f(c.volatility), 0.2);
    assert_eq!(c.option_type, OptionType::Put);
    assert_eq!(mc.num_simulations(), 5000);
}

#[test]
fn neighbour_differs_in_the_spot_only() {
    let mc =
        MonteCarloSimulator::new(d(100.0), d(95.0), d(1.5), d(0.05), d(0.2), 5000, OptionType::Put);
    let up = mc.with_spot_price(d(101.0));
    let c = up.contract();
    assert_eq!(f(c.spot_price), 101.0);
    assert_eq!(f(c.strike_price), 95.0);
    assert_eq!(f(c.time_to_expiry), 1.5);
    assert_eq!(f(c.risk_free_rate), 0.05);
    assert_eq!(f(c.volatility), 0.2);
    assert_eq!(c.option_type, OptionType::Put);
    assert_eq!(up.num_simulations(), 5000);
    assert_eq!(f(mc.contract().spot_price), 100.0);
}

#[test]
fn result_holds_what_it_was_given() {
    let r = SimulationResult::new(d(10.4), d(10.1), d(10.7)).unwrap();
    assert_eq!(f(r.price()), 10.4);
    assert_eq!(f(r.lower()), 10.1);
    assert_eq!(f(r.upper()), 10.7);
}

#[test]
fn interval_of_no_width_is_a_result() {
    let r = SimulationResult::new(d(0.0), d(-0.0), d(0.0)).unwrap();
    assert_eq!(f(r.price()), 0.0);
    assert!(SimulationResult::new(d(3.0), d(3.0), d(3.0)).is_some());
    assert!(SimulationResult::new(d(3.0), d(f64::NEG_INFINITY), d(f64::INFINITY)).is_some());
}

#[test]
fn price_outside_the_bounds_is_no_result() {
    assert!(SimulationResult::new(d(10.0), d(10.1), d(10.7)).is_none());
    assert!(SimulationResult::new(d(10.8), d(10.1), d(10.7)).is_none());
    assert!(SimulationResult::new(d(10.4), d(10.7), d(10.1)).is_none());
}

#[test]
fn bounds_that_are_no_numbers_are_no_result() {
    assert!(SimulationResult::new(d(f64::NAN), d(10.1), d(10.7)).is_none());
    assert!(SimulationResult::new(d(10.4), d(f64::NAN), d(10.7)).is_none());
    assert!(SimulationResult::new(d(10.4), d(10.1), d(f64::NAN)).is_none());
}
