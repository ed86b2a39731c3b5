//! Binary64 numbers, held by their bit patterns.
//!
//! Prices, rates and volatilities travel through this crate as IEEE-754
//! binary64 values. Arithmetic on them is left to the caller; what this module
//! offers is exactly what the pricing rules need in order to *decide*: which of
//! two numbers is the smaller, whether a number is a number at all, and its
//! absolute value.
//!
//! The model of a number is `Double::scaled`: its value multiplied by 2^1074.
//! Every finite binary64 is a whole multiple of 2^-1074, so this is an exact
//! integer and comparisons of values are comparisons of integers.
use vstd::arithmetic::mul::lemma_mul_strict_inequality;
use vstd::arithmetic::power2::{lemma_pow2_pos, lemma_pow2_strictly_increases, lemma_pow2_unfold, pow2};
use vstd::prelude::*;

verus! {

/// The sign bit of a binary64.
pub const SIGN_BIT: u64 = 0x8000_0000_0000_0000;

/// The bit pattern of positive infinity: exponent field all ones, fraction zero.
pub const INFINITY_BITS: u64 = 0x7ff0_0000_0000_0000;

/// Two to the 52nd: one more than the largest fraction field.
pub const FRACTION_SPAN: u64 = 0x10_0000_0000_0000;

/// A binary64 number, by its bit pattern.
#[derive(Clone, Copy, Debug)]
pub struct Double {
    pub bits: u64,
}

/// What the 63 bits below the sign bit stand for, in units of 2^-1074.
///
/// With exponent field `e` and fraction field `f`, a subnormal (`e == 0`) is
/// `f` units and a normal number is `(2^52 + f) * 2^(e - 1)` units. The pattern
/// of infinity comes out as 2^2098, above every finite number.
pub open spec fn magnitude_of(m: u64) -> nat {
    let e = m / FRACTION_SPAN;
    let f = m % FRACTION_SPAN;
    if e == 0 {
        f as nat
    } else {
        ((FRACTION_SPAN + f) * pow2((e - 1) as nat)) as nat
    }
}

/// The number one in units of 2^-1074.
pub open spec fn unit() -> int {
    pow2(1074) as int
}

/// A larger pattern below the sign bit stands for a larger magnitude.
pub proof fn lemma_magnitude_increases(x: u64, y: u64)
    requires
        x < y,
    ensures
        magnitude_of(x) < magnitude_of(y),
{
    let t = FRACTION_SPAN as int;
    let ex = (x / FRACTION_SPAN) as int;
    let fx = (x % FRACTION_SPAN) as int;
    let ey = (y / FRACTION_SPAN) as int;
    let fy = (y % FRACTION_SPAN) as int;
    assert(ex <= ey);
    if ex == ey {
        assert(fx < fy);
        if ex != 0 {
            let p = pow2((ex - 1) as nat) as int;
            lemma_pow2_pos((ex - 1) as nat);
            lemma_mul_strict_inequality(t + fx, t + fy, p);
        }
    } else {
        // Every number with exponent field `ex` lies below 2^52 * 2^ex, and
        // every number with a larger exponent field at or above it.
        let low = pow2((ey - 1) as nat) as int;
        lemma_pow2_pos((ey - 1) as nat);
        assert(t * low <= (t + fy) * low) by (nonlinear_arith)
            requires
                0 <= fy,
                0 < low,
        ;
        if ex == 0 {
            assert(t * 1 <= t * low) by (nonlinear_arith)
                requires
                    1 <= low,
                    0 < t,
            ;
        } else {
            let p = pow2((ex - 1) as nat) as int;
            lemma_pow2_pos((ex - 1) as nat);
            lemma_pow2_unfold(ex as nat);
            lemma_mul_strict_inequality(t + fx, 2 * t, p);
            assert((2 * t) * p == t * (2 * p)) by (nonlinear_arith);
            if ex < ey - 1 {
                lemma_pow2_strictly_increases(ex as nat, (ey - 1) as nat);
            }
            assert(t * (2 * p) <= t * low) by (nonlinear_arith)
                requires
                    2 * p <= low,
                    0 < t,
            ;
        }
    }
}

impl Double {
    /// Whether the sign bit is set. True of negative numbers, of negative zero
    /// and of some NaNs.
    pub open spec fn is_negative(self) -> bool {
        self.bits >= SIGN_BIT
    }

    /// The bits below the sign bit.
    pub open spec fn magnitude_bits(self) -> u64 {
        if self.bits >= SIGN_BIT {
            (self.bits - SIGN_BIT) as u64
        } else {
            self.bits
        }
    }

    /// Not a number: exponent field all ones and a fraction that is not zero.
    pub open spec fn nan(self) -> bool {
        self.magnitude_bits() > INFINITY_BITS
    }

    /// Zero, subnormal or normal: neither an infinity nor a NaN.
    pub open spec fn finite(self) -> bool {
        self.magnitude_bits() < INFINITY_BITS
    }

    /// The absolute value in units of 2^-1074.
    pub open spec fn magnitude(self) -> nat {
        magnitude_of(self.magnitude_bits())
    }

    /// The value in units of 2^-1074. Both zeros are 0; the infinities are
    /// plus and minus 2^2098. Meaningless for a NaN.
    pub open spec fn scaled(self) -> int {
        if self.is_negative() {
            -(self.magnitude() as int)
        } else {
            self.magnitude() as int
        }
    }

    /// The absolute value: the same bits with the sign bit cleared.
    pub open spec fn magnitude_value(self) -> Double {
        Double { bits: self.magnitude_bits() }
    }

    /// A positive real number: finite and above zero.
    pub open spec fn positive(self) -> bool {
        self.finite() && self.scaled() > 0
    }

    /// The number is exactly `num / den`.
    pub open spec fn is_ratio(self, num: int, den: int) -> bool {
        self.finite() && self.scaled() * den == num * unit()
    }

    /// The number is within `2^-precision` of `num / den`.
    pub open spec fn is_near_ratio(self, num: int, den: int, precision: nat) -> bool {
        let error = self.scaled() * den - num * unit();
        self.finite() && -(den * unit()) <= error * pow2(precision) <= den * unit()
    }

    /// `self < other` as IEEE-754 orders them: false when either is a NaN.
    pub open spec fn below(self, other: Double) -> bool {
        !self.nan() && !other.nan() && self.scaled() < other.scaled()
    }

    /// `self <= other` as IEEE-754 orders them: false when either is a NaN.
    pub open spec fn at_most(self, other: Double) -> bool {
        !self.nan() && !other.nan() && self.scaled() <= other.scaled()
    }

    /// The number with the given bit pattern.
    pub fn from_bits(bits: u64) -> (r: Double)
        ensures
            r.bits == bits,
    {
        Double { bits }
    }

    /// The bit pattern of the number.
    pub fn to_bits(self) -> (r: u64)
        ensures
            r == self.bits,
    {
        self.bits
    }

    /// Whether the number is a NaN.
    pub fn is_nan(self) -> (r: bool)
        ensures
            r == self.nan(),
    {
        self.abs().bits > INFINITY_BITS
    }

    /// Whether the number is finite.
    pub fn is_finite(self) -> (r: bool)
        ensures
            r == self.finite(),
    {
        self.abs().bits < INFINITY_BITS
    }

    /// The absolute value: the same number with the sign bit cleared. A NaN
    /// stays a NaN.
    pub fn abs(self) -> (r: Double)
        ensures
            r == self.magnitude_value(),
            !r.is_negative(),
            r.nan() == self.nan(),
            r.finite() == self.finite(),
            r.scaled() == self.magnitude(),
            r.scaled() == if self.scaled() < 0 { -self.scaled() } else { self.scaled() },
    {
        if self.bits >= SIGN_BIT {
            Double { bits: self.bits - SIGN_BIT }
        } else {
            self
        }
    }

    /// Whether the number is a positive real: finite and above zero.
    pub fn is_positive(self) -> (r: bool)
        ensures
            r == self.positive(),
    {
        proof {
            lemma_magnitude_order(self.magnitude_bits(), 0);
        }
        self.bits < INFINITY_BITS && self.bits != 0
    }

    /// Strict comparison of two numbers by value.
    pub fn lt(self, other: Double) -> (r: bool)
        ensures
            r == self.below(other),
    {
        if self.is_nan() || other.is_nan() {
            return false;
        }
        let a: u64 = self.abs().bits;
        let b: u64 = other.abs().bits;
        proof {
            lemma_magnitude_order(a, b);
            lemma_magnitude_order(a, 0);
            lemma_magnitude_order(b, 0);
        }
        if self.bits >= SIGN_BIT {
            if other.bits >= SIGN_BIT {
                b < a
            } else {
                a != 0 || b != 0
            }
        } else {
            if other.bits >= SIGN_BIT {
                false
            } else {
                a < b
            }
        }
    }

    /// Comparison of two numbers by value.
    pub fn le(self, other: Double) -> (r: bool)
        ensures
            r == self.at_most(other),
    {
        if self.is_nan() || other.is_nan() {
            return false;
        }
        let a: u64 = self.abs().bits;
        let b: u64 = other.abs().bits;
        proof {
            lemma_magnitude_order(a, b);
            lemma_magnitude_order(a, 0);
            lemma_magnitude_order(b, 0);
        }
        if self.bits >= SIGN_BIT {
            if other.bits >= SIGN_BIT {
                b <= a
            } else {
                true
            }
        } else {
            if other.bits >= SIGN_BIT {
                a == 0 && b == 0
            } else {
                a <= b
            }
        }
    }
}

/// Patterns below the sign bit are ordered as the magnitudes they stand for.
pub proof fn lemma_magnitude_order(x: u64, y: u64)
    ensures
        x < y <==> magnitude_of(x) < magnitude_of(y),
        x == y <==> magnitude_of(x) == magnitude_of(y),
{
    if x < y {
        lemma_magnitude_increases(x, y);
    } else if y < x {
        lemma_magnitude_increases(y, x);
    }
}

} // verus!
