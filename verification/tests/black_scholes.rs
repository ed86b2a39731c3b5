use rust_options_pricing::{BlackScholes, Double, OptionContract, OptionType};

fn d(x: f64) -> Double {
    Double::from_bits(x.to_bits())
}

fn contract(spot: f64, strike: f64, time: f64, rate: f64, vol: f64) -> OptionContract {
    BlackScholes::new(d(spot), d(strike), d(time), d(rate), d(vol), OptionType::Call).contract()
}

#[test]
fn new_keeps_the_terms() {
    let bs = BlackScholes::new(d(100.0), d(95.0), d(1.5), d(0.05), d(0.2), OptionType::Put);
    let c = bs.contract();
    assert_eq!(c.spot_price.to_bits(), 100.0f64.to_bits());
    assert_eq!(c.strike_price.to_bits(), 95.0f64.to_bits());
    assert_eq!(c.time_to_expiry.to_bits(), 1.5f64.to_bits());
    assert_eq!(c.risk_free_rate.to_bits(), 0.05f64.to_bits());
    assert_eq!(c.volatility.to_bits(), 0.2f64.to_bits());
    assert_eq!(c.option_type, OptionType::Put);
}

#[test]
fn ordinary_contract_is_valid() {
    assert!(contract(100.0, 100.0, 1.0, 0.05, 0.2).is_valid());
    assert!(contract(1e-300, 1e300, 1e-9, -0.01, 4.9).is_valid());
    assert!(contract(100.0, 100.0, 1.0, 0.0, 0.2).is_valid());
}

#[test]
fn zero_or_negative_terms_are_invalid() {
    assert!(!contract(0.0, 100.0, 1.0, 0.05, 0.2).is_valid());
    assert!(!contract(100.0, 0.0, 1.0, 0.05, 0.2).is_valid());
    assert!(!contract(100.0, 100.0, 0.0, 0.05, 0.2).is_valid());
    assert!(!contract(100.0, 100.0, 1.0, 0.05, 0.0).is_valid());
    assert!(!contract(-100.0, 100.0, 1.0, 0.05, 0.2).is_valid());
    assert!(!contract(100.0, -100.0, 1.0, 0.05, 0.2).is_valid());
    assert!(!contract(100.0, 100.0, -1.0, 0.05, 0.2).is_valid());
    assert!(!contract(100.0, 100.0, 1.0, 0.05, -0.2).is_valid());
    assert!(!contract(-0.0, 100.0, 1.0, 0.05, 0.2).is_valid());
}

#[test]
fn terms_that_are_no_numbers_are_invalid() {
    assert!(!contract(f64::NAN, 100.0, 1.0, 0.05, 0.2).is_valid());
    assert!(!contract(100.0, f64::INFINITY, 1.0, 0.05, 0.2).is_valid());
    assert!(!contract(100.0, 100.0, f64::NAN, 0.05, 0.2).is_valid());
    assert!(!contract(100.0, 100.0, 1.0, f64::NAN, 0.2).is_valid());
    assert!(!contract(100.0, 100.0, 1.0, f64::NEG_INFINITY, 0.2).is_valid());
    assert!(!contract(100.0, 100.0, 1.0, 0.05, f64::INFINITY).is_valid());
}

#[test]
fn option_types_differ() {
    assert_ne!(OptionType::Call, OptionType::Put);
    assert_eq!(OptionType::Call, OptionType::Call);
}
