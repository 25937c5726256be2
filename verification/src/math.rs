//! Fixed-point arithmetic with six fractional digits, and the option premium
//! computed in it.
//!
//! A fixed-point value is an unsigned integer that stands for itself divided
//! by [`SCALE`]. Every operation is carried out in 128 bits. An operation
//! whose exact intermediate value cannot be represented (a product above the
//! 128-bit range, a difference below zero, a division by zero) ends in
//! [`ProtocolError::ArithmeticFault`]; none wraps and none panics.

use vstd::prelude::*;
use crate::errors::ProtocolError;
use crate::roots::{
    babylonian_step, floor_sqrt, is_floor_sqrt, lemma_babylonian_fixpoint_is_below,
    lemma_babylonian_step_stays_above, lemma_floor_sqrt_exists, lemma_floor_sqrt_is,
};

verus! {

/// The fixed-point scale: one unit is a millionth.
pub const SCALE: u128 = 1_000_000;

/// The length of a year in seconds (365 days; not calendar-accurate).
pub const SECONDS_PER_YEAR: u128 = 31_536_000;

/// The square root of two pi, in fixed point.
pub const SQRT_TWO_PI: u128 = 2_506_628;

/// Whether an exact intermediate value can be held in 128 bits.
pub open spec fn representable(v: int) -> bool {
    0 <= v <= u128::MAX
}

/// `res` is the outcome of a fixed-point operation whose exact value is
/// `value` and which is defined only where `defined` holds: the value where
/// it is defined, and an arithmetic fault where it is not.
pub open spec fn is_fixed_outcome(res: Result<u128, ProtocolError>, defined: bool, value: int) -> bool {
    match res {
        Ok(v) => defined && v == value,
        Err(e) => !defined && e == ProtocolError::ArithmeticFault,
    }
}

/// The first-order logarithm of `x` around one: the distance of `x` from one.
/// It is exact only at one and degrades as `x` departs from it.
pub open spec fn ln_value(x: int) -> int {
    x - SCALE
}

/// The exponential series of `x` cut after the cubic term, each term
/// truncated to fixed point: `1 + x + x^2/2! + x^3/3!`.
pub open spec fn exp_value(x: int) -> int {
    SCALE + x + (x * x / (SCALE as int)) / 2 + ((x * x / (SCALE as int)) * x / (SCALE as int)) / 6
}

/// The exponential series is defined where its widest product, the square
/// term times `x`, is representable.
pub open spec fn exp_defined(x: int) -> bool {
    representable(x * x) && representable((x * x / (SCALE as int)) * x)
}

/// The exponential series of `-x` cut after the cubic term, each term
/// truncated to fixed point as in [`exp_value`]:
/// `1 - x + x^2/2! - x^3/3!`. The two terms that add are summed first and
/// the two that subtract are taken from them.
pub open spec fn exp_neg_value(x: int) -> int {
    (SCALE + (x * x / (SCALE as int)) / 2) - (x + ((x * x / (SCALE as int)) * x / (SCALE as int)) / 6)
}

/// The series at `-x` is defined where its products are representable and
/// its value is not negative.
pub open spec fn exp_neg_defined(x: int) -> bool {
    exp_defined(x) && exp_neg_value(x) >= 0
}

/// The fixed-point square root of `x`: the integer square root of
/// `x * SCALE`, which is the limit of the Babylonian iteration from
/// `(x + 1) / 2`.
pub open spec fn sqrt_value(x: int) -> int {
    floor_sqrt(x * SCALE)
}

/// The square root is defined where `x * SCALE` is representable.
pub open spec fn sqrt_defined(x: int) -> bool {
    representable(x * SCALE)
}

/// The linear form of the standard normal distribution function,
/// `1/2 + d / sqrt(2 pi)`, capped at one. It is a crude stand-in that is
/// close only for `d` near zero.
pub open spec fn cdf_value(d: int) -> int {
    let linear = SCALE / 2 + d * SCALE / (SQRT_TWO_PI as int);
    if linear > SCALE {
        SCALE as int
    } else {
        linear
    }
}

/// The linear form is defined where `d * SCALE` is representable.
pub open spec fn cdf_defined(d: int) -> bool {
    representable(d * SCALE)
}

/// Approximates the natural logarithm of a fixed-point value by its distance
/// from one. Values below one have no representable logarithm.
pub fn ln_fp(x_fp: u128) -> (res: Result<u128, ProtocolError>)
    ensures
        is_fixed_outcome(res, x_fp >= SCALE, ln_value(x_fp as int)),
{
    match x_fp.checked_sub(SCALE) {
        Some(delta) => Ok(delta),
        None => Err(ProtocolError::ArithmeticFault),
    }
}

/// Approximates the exponential of a fixed-point value by the series cut
/// after the cubic term.
pub fn exp_fp(x_fp: u128) -> (res: Result<u128, ProtocolError>)
    ensures
        is_fixed_outcome(res, exp_defined(x_fp as int), exp_value(x_fp as int)),
{
    let square = match x_fp.checked_mul(x_fp) {
        Some(v) => v,
        None => {
            return Err(ProtocolError::ArithmeticFault);
        },
    };
    let x2 = square / SCALE;
    let cube = match x2.checked_mul(x_fp) {
        Some(v) => v,
        None => {
            return Err(ProtocolError::ArithmeticFault);
        },
    };
    let x3 = cube / SCALE;
    assert(x_fp < 0x1_0000_0000_0000_0000) by (nonlinear_arith)
        requires
            0 <= x_fp,
            x_fp * x_fp <= 0xffff_ffff_ffff_ffff_ffff_ffff_ffff_ffff,
    ;
    Ok(SCALE + x_fp + x2 / 2 + x3 / 6)
}

/// Approximates the exponential of the negated fixed-point value by the
/// series cut after the cubic term. From a little above one and a half the
/// series is negative, and the result is a fault.
pub fn exp_neg_fp(x_fp: u128) -> (res: Result<u128, ProtocolError>)
    ensures
        is_fixed_outcome(res, exp_neg_defined(x_fp as int), exp_neg_value(x_fp as int)),
{
    let square = match x_fp.checked_mul(x_fp) {
        Some(v) => v,
        None => {
            return Err(ProtocolError::ArithmeticFault);
        },
    };
    let x2 = square / SCALE;
    let cube = match x2.checked_mul(x_fp) {
        Some(v) => v,
        None => {
            return Err(ProtocolError::ArithmeticFault);
        },
    };
    let x3 = cube / SCALE;
    assert(x_fp < 0x1_0000_0000_0000_0000) by (nonlinear_arith)
        requires
            0 <= x_fp,
            x_fp * x_fp <= 0xffff_ffff_ffff_ffff_ffff_ffff_ffff_ffff,
    ;
    match (SCALE + x2 / 2).checked_sub(x_fp + x3 / 6) {
        Some(v) => Ok(v),
        None => Err(ProtocolError::ArithmeticFault),
    }
}

/// Computes the fixed-point square root by the Babylonian method: from the
/// estimate `(x + 1) / 2` it steps to `(x / y + y) / 2` for as long as the
/// estimate goes down. The estimates decrease strictly, so the iteration
/// ends, and it ends at the integer square root of `x * SCALE`.
pub fn sqrt_fp(x_fp: u128) -> (res: Result<u128, ProtocolError>)
    ensures
        is_fixed_outcome(res, sqrt_defined(x_fp as int), sqrt_value(x_fp as int)),
{
    if x_fp == 0 {
        proof {
            lemma_floor_sqrt_is(0, 0);
        }
        return Ok(0);
    }
    let n = match x_fp.checked_mul(SCALE) {
        Some(v) => v,
        None => {
            return Err(ProtocolError::ArithmeticFault);
        },
    };
    let mut z = (x_fp + SCALE) / 2;
    proof {
        assert(4 * (x_fp * SCALE) <= (x_fp + SCALE) * (x_fp + SCALE)) by (nonlinear_arith);
        assert((z + 1) * (z + 1) > n) by (nonlinear_arith)
            requires
                2 * (z + 1) >= x_fp + SCALE + 1,
                4 * n <= (x_fp + SCALE) * (x_fp + SCALE),
                0 <= x_fp,
        ;
        lemma_babylonian_step_stays_above(n as int, z as int);
    }
    let mut y = (n / z + z) / 2;
    while y < z
        invariant
            1 <= n,
            n == x_fp * SCALE,
            1 <= y,
            1 <= z <= (x_fp + SCALE) / 2,
            y == babylonian_step(n as int, z as int),
            (y + 1) * (y + 1) > n,
            (z + 1) * (z + 1) > n,
        decreases z,
    {
        proof {
            lemma_babylonian_step_stays_above(n as int, y as int);
        }
        z = y;
        y = (n / y + y) / 2;
    }
    proof {
        lemma_babylonian_fixpoint_is_below(n as int, z as int);
        assert(is_floor_sqrt(n as int, z as int));
        lemma_floor_sqrt_is(n as int, z as int);
    }
    Ok(z)
}

/// Approximates the standard normal distribution function by its linear
/// form, capped at one.
pub fn standard_normal_cdf(d_fp: u128) -> (res: Result<u128, ProtocolError>)
    ensures
        is_fixed_outcome(res, cdf_defined(d_fp as int), cdf_value(d_fp as int)),
{
    let scaled = match d_fp.checked_mul(SCALE) {
        Some(v) => v,
        None => {
            return Err(ProtocolError::ArithmeticFault);
        },
    };
    let linear = SCALE / 2 + scaled / SQRT_TWO_PI;
    if linear > SCALE {
        Ok(SCALE)
    } else {
        Ok(linear)
    }
}

/// The time to expiry in fixed-point years, from whole seconds.
pub open spec fn years_value(t: int) -> int {
    t * SCALE / (SECONDS_PER_YEAR as int)
}

/// The ratio of spot to strike in fixed point.
pub open spec fn moneyness_value(s: int, k: int) -> int {
    (s * SCALE * SCALE) / (k * SCALE)
}

/// The drift rate `r + sigma^2 / 2`.
pub open spec fn drift_value(r: int, sigma: int) -> int {
    r + (sigma * sigma / (SCALE as int)) / 2
}

/// The numerator of `d1`: `ln(s / k) + (r + sigma^2 / 2) * t`.
pub open spec fn numerator_value(s: int, k: int, t: int, r: int, sigma: int) -> int {
    ln_value(moneyness_value(s, k)) + drift_value(r, sigma) * years_value(t) / (SCALE as int)
}

/// The denominator of `d1`: `sigma * sqrt(t)`.
pub open spec fn spread_value(t: int, sigma: int) -> int {
    sigma * sqrt_value(years_value(t)) / (SCALE as int)
}

/// `d1 = [ln(s / k) + (r + sigma^2 / 2) * t] / (sigma * sqrt(t))`.
pub open spec fn d1_value(s: int, k: int, t: int, r: int, sigma: int) -> int {
    numerator_value(s, k, t, r, sigma) * SCALE / spread_value(t, sigma)
}

/// `d2 = d1 - sigma * sqrt(t)`.
pub open spec fn d2_value(s: int, k: int, t: int, r: int, sigma: int) -> int {
    d1_value(s, k, t, r, sigma) - spread_value(t, sigma)
}

/// The rate accrued over the time to expiry, `r * t`.
pub open spec fn rate_time_value(t: int, r: int) -> int {
    r * years_value(t) / (SCALE as int)
}

/// The discount factor applied to the strike, `e^(-r * t)`: the exponential
/// series at `-r * t`.
pub open spec fn discount_value(t: int, r: int) -> int {
    exp_neg_value(rate_time_value(t, r))
}

/// The spot leg of the call value, `s * N(d1)`, in fixed point.
pub open spec fn spot_leg_value(s: int, k: int, t: int, r: int, sigma: int) -> int {
    (s * SCALE) * cdf_value(d1_value(s, k, t, r, sigma)) / (SCALE as int)
}

/// The strike leg of the call value, `k * e^(-r * t) * N(d2)`, in fixed point.
pub open spec fn strike_leg_value(s: int, k: int, t: int, r: int, sigma: int) -> int {
    ((k * SCALE) * discount_value(t, r) / (SCALE as int)) * cdf_value(d2_value(s, k, t, r, sigma))
        / (SCALE as int)
}

/// The premium of a call: nothing where `sigma * sqrt(t)` is zero, else the
/// spot leg less the strike leg, floored at zero and truncated to whole units.
pub open spec fn premium_value(s: int, k: int, t: int, r: int, sigma: int) -> int {
    if spread_value(t, sigma) == 0 {
        0
    } else {
        let spot_leg = spot_leg_value(s, k, t, r, sigma);
        let strike_leg = strike_leg_value(s, k, t, r, sigma);
        if spot_leg >= strike_leg {
            (spot_leg - strike_leg) / (SCALE as int)
        } else {
            0
        }
    }
}

/// The premium is defined for a positive strike and, unless
/// `sigma * sqrt(t)` is zero, where every step of the formula is: the spot is
/// not below the strike (the logarithm of a ratio under one is not
/// representable), the drift times the time and the scaled numerator are
/// representable, `d1` is not below `sigma * sqrt(t)`, and the distribution
/// function at `d1` and the discount are defined.
pub open spec fn premium_defined(s: int, k: int, t: int, r: int, sigma: int) -> bool {
    &&& k > 0
    &&& spread_value(t, sigma) != 0 ==> {
        &&& moneyness_value(s, k) >= SCALE
        &&& representable(drift_value(r, sigma) * years_value(t))
        &&& representable(numerator_value(s, k, t, r, sigma) * SCALE)
        &&& d1_value(s, k, t, r, sigma) >= spread_value(t, sigma)
        &&& cdf_defined(d1_value(s, k, t, r, sigma))
        &&& exp_neg_defined(rate_time_value(t, r))
    }
}

/// What [`black_scholes_approx`] returns: the premium where it is defined,
/// an arithmetic fault where it is not.
pub open spec fn black_scholes_spec(s: u64, k: u64, t: u64, r: u64, sigma: u64) -> Result<
    u64,
    ProtocolError,
> {
    if premium_defined(s as int, k as int, t as int, r as int, sigma as int) {
        Ok(premium_value(s as int, k as int, t as int, r as int, sigma as int) as u64)
    } else {
        Err(ProtocolError::ArithmeticFault)
    }
}

/// The integer square root falls short of its argument by less than a
/// hundredth of it, from an argument of forty thousand upward.
pub proof fn lemma_floor_sqrt_accuracy(n: int)
    requires
        40_000 <= n,
    ensures
        is_floor_sqrt(n, floor_sqrt(n)),
        100 * (n - floor_sqrt(n) * floor_sqrt(n)) <= n,
{
    lemma_floor_sqrt_exists(n);
    let r = floor_sqrt(n);
    assert(r >= 200) by (nonlinear_arith)
        requires
            0 <= r,
            n < (r + 1) * (r + 1),
            n >= 40_000,
    ;
    assert(100 * (n - r * r) <= n) by (nonlinear_arith)
        requires
            r >= 200,
            r * r <= n,
            n < (r + 1) * (r + 1),
    ;
}

/// The square of the fixed-point square root is the value itself up to one
/// step of the root, over the whole range: it does not exceed the value and
/// falls short of it by less than a hundredth.
pub proof fn lemma_sqrt_accuracy(x: int)
    requires
        0 <= x,
    ensures
        is_floor_sqrt(x * SCALE, sqrt_value(x)),
        sqrt_value(x) * sqrt_value(x) <= x * SCALE,
        100 * (x * SCALE - sqrt_value(x) * sqrt_value(x)) <= x * SCALE,
{
    if x == 0 {
        lemma_floor_sqrt_is(0, 0);
    } else {
        lemma_floor_sqrt_accuracy(x * SCALE);
    }
}

/// The fixed-point square root of a value lies between zero and the value
/// plus one.
pub proof fn lemma_sqrt_value_bounds(x: int)
    requires
        0 <= x,
    ensures
        0 <= sqrt_value(x) <= x + SCALE,
        x == 0 ==> sqrt_value(x) == 0,
{
    lemma_sqrt_accuracy(x);
    if x == 0 {
        lemma_floor_sqrt_is(0, 0);
    }
    let r = sqrt_value(x);
    assert(r <= x + SCALE) by (nonlinear_arith)
        requires
            0 <= r,
            0 <= x,
            r * r <= x * 1_000_000,
    ;
}

/// Where the series at `-x` is defined, `x` is below three and the value
/// is at most five and a half.
pub proof fn lemma_exp_neg_value_bounds(x: int)
    requires
        0 <= x,
        exp_neg_defined(x),
    ensures
        x < 3 * SCALE,
        0 <= exp_neg_value(x) <= 5_500_000,
{
    let x2 = x * x / (SCALE as int);
    let x3 = x2 * x / (SCALE as int);
    assert(0 <= x * x) by (nonlinear_arith);
    if x >= 3 * SCALE {
        assert(x2 * x >= (3 * x2) * 1_000_000) by (nonlinear_arith)
            requires
                0 <= x2,
                x >= 3_000_000,
        ;
        vstd::arithmetic::div_mod::lemma_div_is_ordered((3 * x2) * 1_000_000, x2 * x, 1_000_000);
        assert(((3 * x2) * 1_000_000) / 1_000_000 == 3 * x2);
        assert(x3 >= 3 * x2);
        assert(exp_neg_value(x) < 0);
    }
    assert(x * x < 9_000_000_000_000) by (nonlinear_arith)
        requires
            0 <= x < 3_000_000,
    ;
}

/// The linear form of the distribution function lies between a half and one,
/// and does not decrease.
pub proof fn lemma_cdf_value_bounds(d: int, e: int)
    requires
        0 <= d <= e,
    ensures
        SCALE / 2 <= cdf_value(d) <= cdf_value(e) <= SCALE,
{
}

/// Where the premium is defined it lies between zero and the spot.
pub proof fn lemma_premium_value_bounds(s: int, k: int, t: int, r: int, sigma: int)
    requires
        0 <= s,
        0 <= k,
        0 <= t,
        0 <= r,
        0 <= sigma,
        premium_defined(s, k, t, r, sigma),
    ensures
        0 <= premium_value(s, k, t, r, sigma) <= s,
{
    let spread = spread_value(t, sigma);
    if spread != 0 {
        let years = years_value(t);
        lemma_sqrt_value_bounds(years);
        assert(0 <= sigma * sqrt_value(years)) by (nonlinear_arith)
            requires
                0 <= sigma,
                0 <= sqrt_value(years),
        ;
        assert(spread > 0);
        let numerator = numerator_value(s, k, t, r, sigma);
        assert(0 <= drift_value(r, sigma) * years) by (nonlinear_arith)
            requires
                0 <= drift_value(r, sigma),
                0 <= years,
        ;
        assert(0 <= numerator);
        let d1 = d1_value(s, k, t, r, sigma);
        let d2 = d2_value(s, k, t, r, sigma);
        vstd::arithmetic::div_mod::lemma_div_pos_is_pos(numerator * SCALE, spread);
        lemma_cdf_value_bounds(d2, d1);
        let nd1 = cdf_value(d1);
        let nd2 = cdf_value(d2);
        let discount = discount_value(t, r);
        assert(0 <= (s * SCALE) * nd1 <= (s * SCALE) * SCALE) by (nonlinear_arith)
            requires
                0 <= s,
                0 <= nd1 <= SCALE,
        ;
        assert(0 <= (k * SCALE) * discount) by (nonlinear_arith)
            requires
                0 <= k,
                0 <= discount,
        ;
        let discounted = (k * SCALE) * discount / (SCALE as int);
        assert(0 <= discounted * nd2) by (nonlinear_arith)
            requires
                0 <= discounted,
                0 <= nd2,
        ;
    }
}

/// The premium is never negative and never exceeds the spot: whatever the
/// inputs, the outcome is either such a premium or an arithmetic fault.
pub proof fn lemma_premium_is_bounded(s: u64, k: u64, t: u64, r: u64, sigma: u64)
    ensures
        match black_scholes_spec(s, k, t, r, sigma) {
            Ok(premium) => 0 <= premium <= s && premium == premium_value(
                s as int,
                k as int,
                t as int,
                r as int,
                sigma as int,
            ),
            Err(e) => e == ProtocolError::ArithmeticFault,
        },
{
    if premium_defined(s as int, k as int, t as int, r as int, sigma as int) {
        lemma_premium_value_bounds(s as int, k as int, t as int, r as int, sigma as int);
    }
}

/// Where `sigma * sqrt(t)` is zero the premium is exactly zero, for every
/// positive strike, whatever the spot and the rate.
pub proof fn lemma_premium_zero_without_spread(s: u64, k: u64, t: u64, r: u64, sigma: u64)
    requires
        k > 0,
        spread_value(t as int, sigma as int) == 0,
    ensures
        black_scholes_spec(s, k, t, r, sigma) == Ok::<u64, ProtocolError>(0),
{
}

/// The spread `sigma * sqrt(t)` is zero for a zero volatility and for a time
/// to expiry under one fixed-point unit of a year.
pub proof fn lemma_spread_zero_cases(t: int, sigma: int)
    requires
        0 <= t,
        0 <= sigma,
        sigma == 0 || years_value(t) == 0,
    ensures
        spread_value(t, sigma) == 0,
{
    let root = sqrt_value(years_value(t));
    lemma_sqrt_value_bounds(years_value(t));
    assert(sigma * root == 0) by (nonlinear_arith)
        requires
            sigma == 0 || root == 0,
    ;
}

/// The spot is not below the strike exactly where the logarithm of their
/// ratio is representable.
pub proof fn lemma_moneyness_at_least_one(s: int, k: int)
    requires
        0 <= s,
        0 < k,
    ensures
        moneyness_value(s, k) >= SCALE <==> s >= k,
{
    let n = s * SCALE * SCALE;
    let d = k * SCALE;
    vstd::arithmetic::div_mod::lemma_fundamental_div_mod(n, d);
    let q = n / d;
    if s >= k {
        assert(q >= 1_000_000) by (nonlinear_arith)
            requires
                n == d * q + n % d,
                n % d < d,
                d == k * 1_000_000,
                n == s * 1_000_000 * 1_000_000,
                s >= k,
                k > 0,
        ;
    } else {
        assert(q < 1_000_000) by (nonlinear_arith)
            requires
                n == d * q + n % d,
                0 <= n % d,
                d == k * 1_000_000,
                n == s * 1_000_000 * 1_000_000,
                s < k,
                k > 0,
        ;
    }
}

/// Prices a call option by the fixed-point approximation of the
/// Black-Scholes formula,
/// `max(0, s * N(d1) - k * e^(-r * t) * N(d2))`.
///
/// `s` and `k` are the spot and the strike in whole asset units, `t` the time
/// to expiry in seconds, `r` and `sigma` the risk-free rate and the
/// volatility in fixed point. The result is the premium in whole units. For
/// a positive strike it is zero where `sigma * sqrt(t)` is zero, and it
/// never exceeds the spot. A zero strike is a fault.
pub fn black_scholes_approx(s: u64, k: u64, t: u64, r: u64, sigma: u64) -> (res: Result<
    u64,
    ProtocolError,
>)
    ensures
        res == black_scholes_spec(s, k, t, r, sigma),
{
    let s_fp = s as u128 * SCALE;
    let k_fp = k as u128 * SCALE;
    let t_fp = t as u128 * SCALE / SECONDS_PER_YEAR;
    let r_fp = r as u128;
    let sigma_fp = sigma as u128;

    if k_fp == 0 {
        return Err(ProtocolError::ArithmeticFault);
    }
    proof {
        lemma_sqrt_value_bounds(t_fp as int);
    }
    let root = match sqrt_fp(t_fp) {
        Ok(v) => v,
        Err(e) => {
            return Err(e);
        },
    };
    assert(sigma_fp * root <= 0xffff_ffff_ffff_ffff * 0xffff_ffff_ffff_ffff)
        by (nonlinear_arith)
        requires
            0 <= sigma_fp <= 0xffff_ffff_ffff_ffff,
            0 <= root <= 0xffff_ffff_ffff_ffff,
    ;
    let sigma_sqrt_t = (sigma_fp * root) / SCALE;
    if sigma_sqrt_t == 0 {
        return Ok(0);
    }
    let ln_s_div_k = match ln_fp((s_fp * SCALE) / k_fp) {
        Ok(v) => v,
        Err(e) => {
            return Err(e);
        },
    };
    assert(sigma_fp * sigma_fp <= 0xffff_ffff_ffff_ffff * 0xffff_ffff_ffff_ffff)
        by (nonlinear_arith)
        requires
            0 <= sigma_fp <= 0xffff_ffff_ffff_ffff,
    ;
    let sigma_squared = (sigma_fp * sigma_fp) / SCALE;
    let half_sigma_squared = sigma_squared / 2;
    let drift = r_fp + half_sigma_squared;
    let growth = match drift.checked_mul(t_fp) {
        Some(v) => v,
        None => {
            return Err(ProtocolError::ArithmeticFault);
        },
    };
    proof {
        vstd::arithmetic::div_mod::lemma_div_is_ordered_by_denominator(
            (s_fp * SCALE) as int,
            1,
            k_fp as int,
        );
    }
    let numerator = ln_s_div_k + growth / SCALE;
    let scaled_numerator = match numerator.checked_mul(SCALE) {
        Some(v) => v,
        None => {
            return Err(ProtocolError::ArithmeticFault);
        },
    };
    let d1 = scaled_numerator / sigma_sqrt_t;
    let d2 = match d1.checked_sub(sigma_sqrt_t) {
        Some(v) => v,
        None => {
            return Err(ProtocolError::ArithmeticFault);
        },
    };
    let nd1 = match standard_normal_cdf(d1) {
        Ok(v) => v,
        Err(e) => {
            return Err(e);
        },
    };
    proof {
        lemma_cdf_value_bounds(d2 as int, d1 as int);
    }
    let nd2 = match standard_normal_cdf(d2) {
        Ok(v) => v,
        Err(e) => {
            return Err(e);
        },
    };
    assert(s_fp * nd1 <= s_fp * SCALE) by (nonlinear_arith)
        requires
            0 <= s_fp,
            0 <= nd1 <= SCALE,
    ;
    let s_nd1 = (s_fp * nd1) / SCALE;
    assert(r_fp * t_fp <= 0xffff_ffff_ffff_ffff * 0xffff_ffff_ffff_ffff) by (nonlinear_arith)
        requires
            0 <= r_fp <= 0xffff_ffff_ffff_ffff,
            0 <= t_fp <= 0xffff_ffff_ffff_ffff,
    ;
    let r_t = (r_fp * t_fp) / SCALE;
    let e_minus_rt = match exp_neg_fp(r_t) {
        Ok(v) => v,
        Err(e) => {
            return Err(e);
        },
    };
    proof {
        lemma_exp_neg_value_bounds(r_t as int);
    }
    assert(k_fp * e_minus_rt <= k_fp * 5_500_000) by (nonlinear_arith)
        requires
            0 <= k_fp,
            0 <= e_minus_rt <= 5_500_000,
    ;
    let k_e_minus_rt = (k_fp * e_minus_rt) / SCALE;
    assert(k_e_minus_rt * nd2 <= k_e_minus_rt * SCALE) by (nonlinear_arith)
        requires
            0 <= k_e_minus_rt,
            0 <= nd2 <= SCALE,
    ;
    let k_e_minus_rt_nd2 = (k_e_minus_rt * nd2) / SCALE;

    let c_fp = if s_nd1 >= k_e_minus_rt_nd2 {
        s_nd1 - k_e_minus_rt_nd2
    } else {
        0
    };
    Ok((c_fp / SCALE) as u64)
}

} // verus!
