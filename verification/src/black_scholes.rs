//! The option contract and the parameters of the analytic engine.
use crate::double::Double;
use vstd::prelude::*;

verus! {

/// The side of an option contract.
#[derive(Debug, Clone, Copy, PartialEq, Eq, Structural)]
pub enum OptionType {
    Call,
    Put,
}

/// The terms of a vanilla European option.
///
/// Nothing is checked when a contract is built: any six values make a
/// contract. Whether the pricing formulas mean anything on it is what
/// `valid` says.
#[derive(Debug, Clone, Copy)]
pub struct OptionContract {
    /// Current price of the underlying.
    pub spot_price: Double,
    /// Price at which the option may be exercised.
    pub strike_price: Double,
    /// Years until expiry.
    pub time_to_expiry: Double,
    /// Annual rate, continuously compounded.
    pub risk_free_rate: Double,
    /// Annual standard deviation of the log-returns.
    pub volatility: Double,
    /// Call or put.
    pub option_type: OptionType,
}

impl OptionContract {
    /// Spot, strike, time to expiry and volatility are positive reals, and the
    /// rate is a real.
    pub open spec fn valid(self) -> bool {
        &&& self.spot_price.positive()
        &&& self.strike_price.positive()
        &&& self.time_to_expiry.positive()
        &&& self.volatility.positive()
        &&& self.risk_free_rate.finite()
    }

    /// Whether the contract is one that the formulas can price.
    pub fn is_valid(&self) -> (r: bool)
        ensures
            r == self.valid(),
    {
        self.spot_price.is_positive() && self.strike_price.is_positive()
            && self.time_to_expiry.is_positive() && self.volatility.is_positive()
            && self.risk_free_rate.is_finite()
    }
}

/// The analytic engine: an option contract to be priced in closed form.
#[derive(Debug, Clone, Copy)]
pub struct BlackScholes {
    contract: OptionContract,
}

impl View for BlackScholes {
    type V = OptionContract;

    closed spec fn view(&self) -> OptionContract {
        self.contract
    }
}

impl BlackScholes {
    /// An engine for the contract with the given terms.
    pub fn new(
        spot_price: Double,
        strike_price: Double,
        time_to_expiry: Double,
        risk_free_rate: Double,
        volatility: Double,
        option_type: OptionType,
    ) -> (r: Self)
        ensures
            r@ == (OptionContract {
                spot_price,
                strike_price,
                time_to_expiry,
                risk_free_rate,
                volatility,
                option_type,
            }),
    {
        BlackScholes {
            contract: OptionContract {
                spot_price,
                strike_price,
                time_to_expiry,
                risk_free_rate,
                volatility,
                option_type,
            },
        }
    }

    /// The contract that the engine prices.
    pub fn contract(&self) -> (r: OptionContract)
        ensures
            r == self@,
    {
        self.contract
    }
}

} // verus!
