//! The simulation engine: its parameters and the shape of its results.
//!
//! The engine estimates a price as the discounted mean payoff over a number
//! of simulated terminal prices. Drawing the samples and averaging them is
//! the caller's part. This module holds the configuration, says when a
//! sample is large enough for a variance, builds the neighbouring
//! simulators that finite differences need, and keeps the one promise that
//! every estimate with a confidence interval makes: the price lies inside
//! the interval.
use crate::black_scholes::{OptionContract, OptionType};
use crate::double::Double;
use vstd::prelude::*;

verus! {

/// What a simulator is made of.
pub struct Simulation {
    pub contract: OptionContract,
    pub num_simulations: nat,
}

/// The simulation engine: an option contract and the number of terminal
/// prices to draw for it.
#[derive(Debug, Clone, Copy)]
pub struct MonteCarloSimulator {
    contract: OptionContract,
    num_simulations: usize,
}

impl View for MonteCarloSimulator {
    type V = Simulation;

    closed spec fn view(&self) -> Simulation {
        Simulation { contract: self.contract, num_simulations: self.num_simulations as nat }
    }
}

impl MonteCarloSimulator {
    /// A simulator for the contract with the given terms, drawing
    /// `num_simulations` terminal prices for each estimate.
    pub fn new(
        spot_price: Double,
        strike_price: Double,
        time_to_expiry: Double,
        risk_free_rate: Double,
        volatility: Double,
        num_simulations: usize,
        option_type: OptionType,
    ) -> (r: Self)
        ensures
            r@ == (Simulation {
                contract: OptionContract {
                    spot_price,
                    strike_price,
                    time_to_expiry,
                    risk_free_rate,
                    volatility,
                    option_type,
                },
                num_simulations: num_simulations as nat,
            }),
    {
        MonteCarloSimulator {
            contract: OptionContract {
                spot_price,
                strike_price,
                time_to_expiry,
                risk_free_rate,
                volatility,
                option_type,
            },
            num_simulations,
        }
    }

    /// The contract that the simulator prices.
    pub fn contract(&self) -> (r: OptionContract)
        ensures
            r == self@.contract,
    {
        self.contract
    }

    /// The number of terminal prices drawn for each estimate.
    pub fn num_simulations(&self) -> (r: usize)
        ensures
            r == self@.num_simulations,
    {
        self.num_simulations
    }

    /// The same simulator at another spot price: the neighbour that a finite
    /// difference in the spot is taken against.
    pub fn with_spot_price(&self, spot_price: Double) -> (r: Self)
        ensures
            r@ == (Simulation {
                contract: OptionContract {
                    spot_price,
                    strike_price: self@.contract.strike_price,
                    time_to_expiry: self@.contract.time_to_expiry,
                    risk_free_rate: self@.contract.risk_free_rate,
                    volatility: self@.contract.volatility,
                    option_type: self@.contract.option_type,
                },
                num_simulations: self@.num_simulations,
            }),
    {
        MonteCarloSimulator {
            contract: OptionContract {
                spot_price,
                strike_price: self.contract.strike_price,
                time_to_expiry: self.contract.time_to_expiry,
                risk_free_rate: self.contract.risk_free_rate,
                volatility: self.contract.volatility,
                option_type: self.contract.option_type,
            },
            num_simulations: self.num_simulations,
        }
    }

    /// The divisor of the unbiased sample variance: one less than the number
    /// of samples. There is none for fewer than two samples, and so no
    /// confidence interval either.
    pub fn degrees_of_freedom(&self) -> (r: Option<usize>)
        ensures
            r == if self@.num_simulations >= 2 {
                Some((self@.num_simulations - 1) as usize)
            } else {
                None
            },
    {
        if self.num_simulations >= 2 {
            Some(self.num_simulations - 1)
        } else {
            None
        }
    }
}

/// A price estimate and the bounds of its confidence interval.
pub struct Estimate {
    pub price: Double,
    pub lower: Double,
    pub upper: Double,
}

impl Estimate {
    /// The bounds enclose the price: `lower <= price <= upper`, none of them
    /// a NaN.
    pub open spec fn contained(self) -> bool {
        self.lower.at_most(self.price) && self.price.at_most(self.upper)
    }
}

/// A price estimate with its two-sided confidence interval. The price lies
/// inside the interval: no value of this type holds anything else.
#[derive(Debug, Clone, Copy)]
pub struct SimulationResult {
    price: Double,
    lower: Double,
    upper: Double,
}

impl View for SimulationResult {
    type V = Estimate;

    closed spec fn view(&self) -> Estimate {
        Estimate { price: self.price, lower: self.lower, upper: self.upper }
    }
}

impl SimulationResult {
    #[verifier::type_invariant]
    spec fn inv(self) -> bool {
        self@.contained()
    }

    /// The result with the given price and bounds, if the bounds enclose the
    /// price; nothing if they do not, or if any of the three is a NaN.
    pub fn new(price: Double, lower: Double, upper: Double) -> (r: Option<SimulationResult>)
        ensures
            match r {
                Some(result) => {
                    &&& result@ == (Estimate { price, lower, upper })
                    &&& result@.contained()
                },
                None => !(Estimate { price, lower, upper }).contained(),
            },
    {
        if lower.le(price) && price.le(upper) {
            Some(SimulationResult { price, lower, upper })
        } else {
            None
        }
    }

    /// The estimated price.
    pub fn price(&self) -> (r: Double)
        ensures
            r == self@.price,
            self@.contained(),
    {
        proof {
            use_type_invariant(self);
        }
        self.price
    }

    /// The lower bound of the confidence interval.
    pub fn lower(&self) -> (r: Double)
        ensures
            r == self@.lower,
            self@.contained(),
    {
        proof {
            use_type_invariant(self);
        }
        self.lower
    }

    /// The upper bound of the confidence interval.
    pub fn upper(&self) -> (r: Double)
        ensures
            r == self@.upper,
            self@.contained(),
    {
        proof {
            use_type_invariant(self);
        }
        self.upper
    }
}

} // verus!
