//! Implied volatility by Newton-Raphson: the rules of the iteration.
//!
//! The volatility that makes the pricing formula reproduce a market price is
//! the root of `price(v) - market_price`. Newton's method walks towards it:
//! price a trial contract at the current guess, and move the guess by the
//! price difference divided by the slope (the vega).
//!
//! The solver here holds the problem, the guess and the count of moves made.
//! It does not evaluate anything. The caller prices the trial contract,
//! reports what came out as an `Observation`, and `step` decides: the guess is
//! good enough, the search has broken down, or there is a next guess to try.
use crate::black_scholes::{BlackScholes, OptionContract, OptionType};
use crate::double::{lemma_magnitude_order, unit, Double, FRACTION_SPAN};
use vstd::arithmetic::power2::{lemma2_to64, lemma2_to64_rest, lemma_pow2_adds, lemma_pow2_pos, pow2};
use vstd::prelude::*;

verus! {

/// The first guess: one half.
pub const INITIAL_VOLATILITY_BITS: u64 = 0x3fe0_0000_0000_0000;

/// A price difference below this counts as none: the binary64 nearest to
/// one millionth.
pub const PRICE_TOLERANCE_BITS: u64 = 0x3eb0_c6f7_a0b5_ed8d;

/// A vega below this is too flat to divide by: the binary64 nearest to
/// ten to the minus tenth.
pub const VEGA_FLOOR_BITS: u64 = 0x3ddb_7cdf_d9d7_bdbb;

/// The largest volatility that the search accepts: five.
pub const MAX_VOLATILITY_BITS: u64 = 0x4014_0000_0000_0000;

/// The number of trial contracts that one search may price.
pub const MAX_ITERATIONS: u32 = 100;

/// What pricing the trial contract gave.
#[derive(Debug, Clone, Copy)]
pub struct Observation {
    /// The market price minus the price of the trial contract.
    pub diff: Double,
    /// The slope of the price along the volatility, per unit of volatility.
    pub vega: Double,
    /// The trial volatility plus `diff / vega`: where Newton's method goes
    /// next.
    pub updated: Double,
}

/// Why a search ended without a volatility.
#[derive(Debug, Clone, Copy, PartialEq, Eq, Structural)]
pub enum SolverFailure {
    /// The vega is too near zero to divide by.
    FlatVega,
    /// The next guess is not in the range from zero, exclusive, to five.
    OutOfRange,
    /// A hundred trial contracts were priced and none matched.
    Exhausted,
}

/// A search in progress: the contract at the current guess, the price to
/// match, and the number of moves made so far.
pub struct SolverState {
    pub trial: OptionContract,
    pub market_price: Double,
    pub iteration: nat,
}

/// Where a search stands after an observation.
pub enum Outcome {
    /// There is a next guess to price.
    Continue(SolverState),
    /// The trial price matched: this is the implied volatility.
    Converged(Double),
    /// There is no implied volatility to report.
    Failed(SolverFailure),
}

/// The trial price is within the tolerance of the market price.
pub open spec fn price_matched(o: Observation) -> bool {
    o.diff.magnitude_value().below(Double { bits: PRICE_TOLERANCE_BITS })
}

/// The vega is within the floor of zero.
pub open spec fn vega_flat(o: Observation) -> bool {
    o.vega.magnitude_value().below(Double { bits: VEGA_FLOOR_BITS })
}

/// A volatility that the search accepts: above zero and at most five.
pub open spec fn admissible(v: Double) -> bool {
    (Double { bits: 0 }).below(v) && v.at_most(Double { bits: MAX_VOLATILITY_BITS })
}

/// The constants of the search are the numbers that they are named after:
/// one half and five exactly, and the binary64 numbers next to one millionth
/// and to ten to the minus tenth, each no further from it than half the
/// distance between neighbouring binary64 numbers there.
pub proof fn lemma_solver_constants()
    ensures
        (Double { bits: INITIAL_VOLATILITY_BITS }).is_ratio(1, 2),
        (Double { bits: MAX_VOLATILITY_BITS }).is_ratio(5, 1),
        (Double { bits: PRICE_TOLERANCE_BITS }).is_near_ratio(1, 1_000_000, 73),
        (Double { bits: VEGA_FLOOR_BITS }).is_near_ratio(1, 10_000_000_000, 87),
{
    lemma2_to64();
    lemma2_to64_rest();
    let half = Double { bits: INITIAL_VOLATILITY_BITS };
    assert(half.is_ratio(1, 2)) by {
        assert(INITIAL_VOLATILITY_BITS / FRACTION_SPAN == 1022);
        assert(INITIAL_VOLATILITY_BITS % FRACTION_SPAN == 0);
        assert(half.scaled() == FRACTION_SPAN * pow2(1021));
        lemma_pow2_adds(53, 1021);
    }
    let five = Double { bits: MAX_VOLATILITY_BITS };
    assert(five.is_ratio(5, 1)) by {
        assert(MAX_VOLATILITY_BITS / FRACTION_SPAN == 1025);
        assert(MAX_VOLATILITY_BITS % FRACTION_SPAN == 0x4_0000_0000_0000);
        assert(five.scaled() == (FRACTION_SPAN + 0x4_0000_0000_0000) * pow2(1024));
        lemma_pow2_adds(50, 1024);
    }
    let tolerance = Double { bits: PRICE_TOLERANCE_BITS };
    assert(tolerance.is_near_ratio(1, 1_000_000, 73)) by {
        let p = pow2(1002) as int;
        assert(PRICE_TOLERANCE_BITS / FRACTION_SPAN == 1003);
        assert(PRICE_TOLERANCE_BITS % FRACTION_SPAN == 0xc6f7_a0b5_ed8d);
        assert(tolerance.scaled() == 0x10_c6f7_a0b5_ed8d * p);
        lemma_pow2_adds(64, 8);
        lemma_pow2_adds(64, 9);
        lemma_pow2_adds(72, 1002);
        lemma_pow2_pos(1002);
        assert(pow2(72) == 0x100_0000_0000_0000_0000);
        assert(pow2(73) == 0x200_0000_0000_0000_0000);
        assert(unit() == 0x100_0000_0000_0000_0000 * p);
        let error = tolerance.scaled() * 1_000_000 - 1 * unit();
        assert(error == -213696 * p);
        let u = unit();
        let q = pow2(73) as int;
        assert(-(1_000_000 * u) <= error * q <= 1_000_000 * u) by (nonlinear_arith)
            requires
                error == -213696 * p,
                q == 0x200_0000_0000_0000_0000int,
                u == 0x100_0000_0000_0000_0000int * p,
                p > 0,
        ;
    }
    let floor = Double { bits: VEGA_FLOOR_BITS };
    assert(floor.is_near_ratio(1, 10_000_000_000, 87)) by {
        let p = pow2(988) as int;
        assert(VEGA_FLOOR_BITS / FRACTION_SPAN == 989);
        assert(VEGA_FLOOR_BITS % FRACTION_SPAN == 0xb_7cdf_d9d7_bdbb);
        assert(floor.scaled() == 0x1b_7cdf_d9d7_bdbb * p);
        lemma_pow2_adds(64, 22);
        lemma_pow2_adds(64, 23);
        lemma_pow2_adds(86, 988);
        lemma_pow2_pos(988);
        assert(pow2(86) == 0x40_0000_0000_0000_0000_0000);
        assert(pow2(87) == 0x80_0000_0000_0000_0000_0000);
        assert(unit() == 0x40_0000_0000_0000_0000_0000 * p);
        let error = floor.scaled() * 10_000_000_000 - 1 * unit();
        assert(error == 2818804736 * p);
        let u = unit();
        let q = pow2(87) as int;
        assert(-(10_000_000_000 * u) <= error * q <= 10_000_000_000 * u) by (nonlinear_arith)
            requires
                error == 2818804736 * p,
                q == 0x80_0000_0000_0000_0000_0000int,
                u == 0x40_0000_0000_0000_0000_0000int * p,
                p > 0,
        ;
    }
}

impl SolverState {
    /// The guess is admissible and the budget is not used up.
    pub open spec fn wf(self) -> bool {
        admissible(self.trial.volatility) && self.iteration < MAX_ITERATIONS
    }

    /// The same search at another guess, one move later.
    pub open spec fn moved_to(self, v: Double) -> SolverState {
        SolverState {
            trial: OptionContract {
                spot_price: self.trial.spot_price,
                strike_price: self.trial.strike_price,
                time_to_expiry: self.trial.time_to_expiry,
                risk_free_rate: self.trial.risk_free_rate,
                volatility: v,
                option_type: self.trial.option_type,
            },
            market_price: self.market_price,
            iteration: self.iteration + 1,
        }
    }
}

/// The search for the volatility at which a contract with the given terms has
/// the given price, before any move.
pub open spec fn initial_state(
    spot_price: Double,
    strike_price: Double,
    time_to_expiry: Double,
    risk_free_rate: Double,
    market_price: Double,
    option_type: OptionType,
) -> SolverState {
    SolverState {
        trial: OptionContract {
            spot_price,
            strike_price,
            time_to_expiry,
            risk_free_rate,
            volatility: Double { bits: INITIAL_VOLATILITY_BITS },
            option_type,
        },
        market_price,
        iteration: 0,
    }
}

/// One round of the iteration. In this order: a matching price ends the
/// search with the current guess; a flat vega, a next guess that is not
/// admissible, or a used-up budget end it with nothing; otherwise the search
/// moves to the next guess.
pub open spec fn advance(s: SolverState, o: Observation) -> Outcome {
    if price_matched(o) {
        Outcome::Converged(s.trial.volatility)
    } else if vega_flat(o) {
        Outcome::Failed(SolverFailure::FlatVega)
    } else if !admissible(o.updated) {
        Outcome::Failed(SolverFailure::OutOfRange)
    } else if s.iteration + 1 >= MAX_ITERATIONS {
        Outcome::Failed(SolverFailure::Exhausted)
    } else {
        Outcome::Continue(s.moved_to(o.updated))
    }
}

/// A whole search: the observations taken one after the other, up to the one
/// that ends it. `Continue` means that they ran out first.
pub open spec fn run(s: SolverState, observations: Seq<Observation>) -> Outcome
    decreases observations.len(),
{
    if observations.len() == 0 {
        Outcome::Continue(s)
    } else {
        match advance(s, observations[0]) {
            Outcome::Continue(next) => run(next, observations.subrange(1, observations.len() as int)),
            ended => ended,
        }
    }
}

/// A search that is still open after some observations has made one move for
/// each, on the same problem, and is well formed; one that converged reports
/// an admissible volatility.
pub proof fn lemma_run_keeps_well_formed(s: SolverState, observations: Seq<Observation>)
    requires
        s.wf(),
    ensures
        match run(s, observations) {
            Outcome::Continue(t) => {
                &&& t.wf()
                &&& t.iteration == s.iteration + observations.len()
                &&& t.market_price == s.market_price
                &&& t.trial.spot_price == s.trial.spot_price
                &&& t.trial.strike_price == s.trial.strike_price
                &&& t.trial.time_to_expiry == s.trial.time_to_expiry
                &&& t.trial.risk_free_rate == s.trial.risk_free_rate
                &&& t.trial.option_type == s.trial.option_type
            },
            Outcome::Converged(v) => admissible(v),
            Outcome::Failed(_) => true,
        },
    decreases observations.len(),
{
    if observations.len() > 0 {
        match advance(s, observations[0]) {
            Outcome::Continue(next) => {
                lemma_run_keeps_well_formed(
                    next,
                    observations.subrange(1, observations.len() as int),
                );
            },
            _ => {},
        }
    }
}

/// An admissible volatility is a positive real.
pub proof fn lemma_admissible_is_positive(v: Double)
    requires
        admissible(v),
    ensures
        v.positive(),
{
    lemma_magnitude_order(v.magnitude_bits(), MAX_VOLATILITY_BITS);
}

/// A search on valid terms prices valid contracts only: as long as it is
/// open, its trial contract is one that the formulas can price.
pub proof fn lemma_trials_stay_valid(s: SolverState, observations: Seq<Observation>)
    requires
        s.wf(),
        s.trial.valid(),
    ensures
        run(s, observations) matches Outcome::Continue(t) ==> t.trial.valid(),
{
    lemma_run_keeps_well_formed(s, observations);
    if let Outcome::Continue(t) = run(s, observations) {
        lemma_admissible_is_positive(t.trial.volatility);
    }
}

/// No search outlasts its budget: once the moves made and the observations
/// to come add up to a hundred, the search has ended.
pub proof fn lemma_run_ends_within_budget(s: SolverState, observations: Seq<Observation>)
    requires
        s.wf(),
        s.iteration + observations.len() >= MAX_ITERATIONS,
    ensures
        !(run(s, observations) is Continue),
{
    lemma_run_keeps_well_formed(s, observations);
}

/// A volatility is reported only if it lies above zero and at or below five.
pub proof fn lemma_reported_volatility_is_in_range(
    s: SolverState,
    observations: Seq<Observation>,
)
    requires
        s.wf(),
    ensures
        run(s, observations) matches Outcome::Converged(v) ==> {
            &&& !v.nan()
            &&& 0 < v.scaled()
            &&& v.scaled() <= (Double { bits: MAX_VOLATILITY_BITS }).scaled()
        },
{
    lemma_run_keeps_well_formed(s, observations);
}

/// The solver: a search in progress.
#[derive(Debug, Clone, Copy)]
pub struct VolatilitySolver {
    trial: OptionContract,
    market_price: Double,
    iteration: u32,
}

impl View for VolatilitySolver {
    type V = SolverState;

    closed spec fn view(&self) -> SolverState {
        SolverState {
            trial: self.trial,
            market_price: self.market_price,
            iteration: self.iteration as nat,
        }
    }
}

/// What `VolatilitySolver::step` hands back.
#[derive(Debug, Clone, Copy)]
pub enum SolverStep {
    /// Price the trial contract of this solver next.
    Continue(VolatilitySolver),
    /// The implied volatility.
    Converged(Double),
    /// There is none to report.
    Failed(SolverFailure),
}

impl View for SolverStep {
    type V = Outcome;

    open spec fn view(&self) -> Outcome {
        match *self {
            SolverStep::Continue(s) => Outcome::Continue(s@),
            SolverStep::Converged(v) => Outcome::Converged(v),
            SolverStep::Failed(f) => Outcome::Failed(f),
        }
    }
}

/// Whether a volatility is above zero and at most five.
pub fn is_admissible(v: Double) -> (r: bool)
    ensures
        r == admissible(v),
{
    Double::from_bits(0).lt(v) && v.le(Double::from_bits(MAX_VOLATILITY_BITS))
}

impl VolatilitySolver {
    #[verifier::type_invariant]
    spec fn inv(self) -> bool {
        self@.wf()
    }

    /// The contract to price next: the terms of the problem at the current
    /// guess.
    pub fn trial(&self) -> (r: OptionContract)
        ensures
            r == self@.trial,
    {
        self.trial
    }

    /// The current guess.
    pub fn volatility(&self) -> (r: Double)
        ensures
            r == self@.trial.volatility,
            admissible(r),
    {
        proof {
            use_type_invariant(self);
        }
        self.trial.volatility
    }

    /// The price that the search tries to match.
    pub fn market_price(&self) -> (r: Double)
        ensures
            r == self@.market_price,
    {
        self.market_price
    }

    /// The number of moves made so far.
    pub fn iteration(&self) -> (r: u32)
        ensures
            r == self@.iteration,
            r < MAX_ITERATIONS,
    {
        proof {
            use_type_invariant(self);
        }
        self.iteration
    }

    /// Takes what pricing the trial contract gave and decides how the search
    /// goes on.
    pub fn step(self, observation: Observation) -> (r: SolverStep)
        ensures
            r@ == advance(self@, observation),
    {
        proof {
            use_type_invariant(self);
        }
        if observation.diff.abs().lt(Double::from_bits(PRICE_TOLERANCE_BITS)) {
            SolverStep::Converged(self.trial.volatility)
        } else if observation.vega.abs().lt(Double::from_bits(VEGA_FLOOR_BITS)) {
            SolverStep::Failed(SolverFailure::FlatVega)
        } else if !is_admissible(observation.updated) {
            SolverStep::Failed(SolverFailure::OutOfRange)
        } else if self.iteration + 1 >= MAX_ITERATIONS {
            SolverStep::Failed(SolverFailure::Exhausted)
        } else {
            SolverStep::Continue(
                VolatilitySolver {
                    trial: OptionContract {
                        spot_price: self.trial.spot_price,
                        strike_price: self.trial.strike_price,
                        time_to_expiry: self.trial.time_to_expiry,
                        risk_free_rate: self.trial.risk_free_rate,
                        volatility: observation.updated,
                        option_type: self.trial.option_type,
                    },
                    market_price: self.market_price,
                    iteration: self.iteration + 1,
                },
            )
        }
    }
}

impl BlackScholes {
    /// Opens the search for the volatility at which a contract with the given
    /// terms has the given market price. The search starts at one half.
    pub fn implied_volatility(
        spot_price: Double,
        strike_price: Double,
        time_to_expiry: Double,
        risk_free_rate: Double,
        market_price: Double,
        option_type: OptionType,
    ) -> (r: VolatilitySolver)
        ensures
            r@ == initial_state(
                spot_price,
                strike_price,
                time_to_expiry,
                risk_free_rate,
                market_price,
                option_type,
            ),
            r@.wf(),
    {
        proof {
            lemma_magnitude_order(0, INITIAL_VOLATILITY_BITS);
            lemma_magnitude_order(INITIAL_VOLATILITY_BITS, MAX_VOLATILITY_BITS);
        }
        VolatilitySolver {
            trial: OptionContract {
                spot_price,
                strike_price,
                time_to_expiry,
                risk_free_rate,
                volatility: Double::from_bits(INITIAL_VOLATILITY_BITS),
                option_type,
            },
            market_price,
            iteration: 0,
        }
    }
}

} // verus!
