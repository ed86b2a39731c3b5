//! Pricing of vanilla European options: the parts that decide.
//!
//! Numbers are binary64 values held by their bit patterns (`double`). The
//! crate holds the option contract and its validity (`black_scholes`), the
//! Newton-Raphson iteration that recovers an implied volatility from a market
//! price (`implied_volatility`), and the bookkeeping of the simulation engine
//! (`monte_carlo`). Evaluating the pricing formulas and drawing random
//! numbers is the caller's part.
pub mod black_scholes;
pub mod double;
pub mod implied_volatility;
pub mod monte_carlo;

pub use black_scholes::{BlackScholes, OptionContract, OptionType};
pub use double::Double;
pub use implied_volatility::{Observation, SolverFailure, SolverStep, VolatilitySolver};
pub use monte_carlo::{MonteCarloSimulator, SimulationResult};
