//! The stable-swap invariant calculator.
//!
//! The invariant `D` for two assets with an amplification coefficient is
//! approximated by a fixed-point iteration with a hard cap on the number of
//! rounds, stopping early once the estimate stops changing.  All arithmetic
//! runs at the 256-bit intermediate width, wide enough for the squared
//! estimate over the full amount range.

use crate::wide::U256;
use crate::wide::u256_limit;
use vstd::prelude::*;

verus! {

/// Number of token types priced by the curve.
pub const N_COINS: u8 = 2;

/// Cap on the invariant iteration rounds.
pub const ITERATIONS: u8 = 32;

/// The curve with the stable-swap invariant.
#[derive(Clone, Copy, Debug, Default, PartialEq, Eq, Structural)]
pub struct StableCurve {
    /// Amplifier constant
    pub amp: u64,
}

/// Leverage for deriving `D`: the stored amplification already carries a
/// factor for the coin count, so only the count itself is applied here.
pub fn compute_a(amp: u64) -> (r: Option<u64>)
    ensures
        r is Some <==> amp * N_COINS <= u64::MAX,
        r is Some ==> r->Some_0 == amp * N_COINS,
{
    amp.checked_mul(N_COINS as u64)
}

/// What repeated addition computes: the value scaled by a small factor,
/// where a factor of zero or one leaves the value unchanged.
pub open spec fn spec_checked_u8_mul(a: nat, b: nat) -> Option<nat> {
    if b <= 1 {
        Some(a)
    } else if a * b < u256_limit() {
        Some(a * b)
    } else {
        None
    }
}

/// The value multiplied by a small factor, by repeated addition.
pub fn checked_u8_mul(a: &U256, b: u8) -> (r: Option<U256>)
    ensures
        r is Some <==> spec_checked_u8_mul(a.as_nat(), b as nat) is Some,
        r is Some ==> r->Some_0.as_nat() == spec_checked_u8_mul(a.as_nat(), b as nat)->Some_0,
{
    let mut result = *a;
    if b <= 1 {
        return Some(result);
    }
    let mut i: u8 = 1;
    while i < b
        invariant
            1 <= i <= b,
            2 <= b,
            result.as_nat() == a.as_nat() * i,
            result.as_nat() < u256_limit(),
        ensures
            i == b,
            result.as_nat() == a.as_nat() * b,
        decreases b - i,
    {
        proof {
            vstd::arithmetic::mul::lemma_mul_is_distributive_add(a.as_nat() as int, i as int, 1);
            vstd::arithmetic::mul::lemma_mul_inequality(
                i as int + 1,
                b as int,
                a.as_nat() as int,
            );
            vstd::arithmetic::mul::lemma_mul_is_commutative(a.as_nat() as int, i as int + 1);
            vstd::arithmetic::mul::lemma_mul_is_commutative(a.as_nat() as int, b as int);
        }
        let next = result.checked_add(a);
        match next {
            Some(next_value) => {
                result = next_value;
                i = i + 1;
            },
            None => {
                return None;
            },
        }
    }
    Some(result)
}

/// What repeated multiplication computes: the value raised to a small
/// power, where an exponent of zero or one leaves the value unchanged, and
/// any overflowing intermediate power fails.
pub open spec fn spec_checked_u8_power(a: nat, b: nat) -> Option<nat>
    decreases b,
{
    if b <= 1 {
        Some(a)
    } else {
        match spec_checked_u8_power(a, (b - 1) as nat) {
            None => None,
            Some(partial) => {
                if partial * a < u256_limit() {
                    Some(partial * a)
                } else {
                    None
                }
            },
        }
    }
}

/// The value raised to a small power, by repeated multiplication.
pub fn checked_u8_power(a: &U256, b: u8) -> (r: Option<U256>)
    ensures
        r is Some <==> spec_checked_u8_power(a.as_nat(), b as nat) is Some,
        r is Some ==> r->Some_0.as_nat() == spec_checked_u8_power(a.as_nat(), b as nat)->Some_0,
{
    let mut result = *a;
    if b <= 1 {
        return Some(result);
    }
    let mut i: u8 = 1;
    while i < b
        invariant
            1 <= i <= b,
            2 <= b,
            spec_checked_u8_power(a.as_nat(), i as nat) == Some(result.as_nat()),
        ensures
            i == b,
            spec_checked_u8_power(a.as_nat(), b as nat) == Some(result.as_nat()),
        decreases b - i,
    {
        let next = result.checked_mul(a);
        match next {
            Some(next_value) => {
                result = next_value;
                i = i + 1;
            },
            None => {
                proof {
                    lemma_power_failure_sticks(a.as_nat(), (i + 1) as nat, b as nat);
                }
                return None;
            },
        }
    }
    Some(result)
}

/// Once an intermediate power overflows, every later power fails too.
proof fn lemma_power_failure_sticks(a: nat, i: nat, b: nat)
    requires
        spec_checked_u8_power(a, i) is None,
        i <= b,
    ensures
        spec_checked_u8_power(a, b) is None,
    decreases b - i,
{
    if i < b {
        lemma_power_failure_sticks(a, i + 1 as nat, b);
    }
}

/// What one update step of the invariant iteration computes:
/// `d = (leverage * sum_x + d_product * n) * d_initial
///      / ((leverage - 1) * d_initial + (n + 1) * d_product)`,
/// with every intermediate checked at the working width.
pub open spec fn spec_calculate_step(
    initial_d: nat,
    leverage: nat,
    sum_x: nat,
    d_product: nat,
) -> Option<nat> {
    if leverage * sum_x >= u256_limit() {
        None
    } else {
        match spec_checked_u8_mul(d_product, N_COINS as nat) {
            None => None,
            Some(d_p_mul) => {
                if leverage * sum_x + d_p_mul >= u256_limit() {
                    None
                } else if (leverage * sum_x + d_p_mul) * initial_d >= u256_limit() {
                    None
                } else {
                    let l_val = (leverage * sum_x + d_p_mul) * initial_d;
                    if leverage < 1 {
                        None
                    } else if initial_d * ((leverage - 1) as nat) >= u256_limit() {
                        None
                    } else {
                        match spec_checked_u8_mul(d_product, (N_COINS + 1) as nat) {
                            None => None,
                            Some(n_coins_sum) => {
                                if initial_d * ((leverage - 1) as nat) + n_coins_sum >= u256_limit() {
                                    None
                                } else {
                                    let r_val = initial_d * ((leverage - 1) as nat) + n_coins_sum;
                                    if r_val == 0 {
                                        None
                                    } else {
                                        Some(l_val / r_val)
                                    }
                                }
                            },
                        }
                    }
                }
            },
        }
    }
}

/// One update step of the invariant iteration.
pub fn calculate_step(initial_d: &U256, leverage: u64, sum_x: u128, d_product: &U256) -> (r:
    Option<U256>)
    ensures
        r is Some <==> spec_calculate_step(
            initial_d.as_nat(),
            leverage as nat,
            sum_x as nat,
            d_product.as_nat(),
        ) is Some,
        r is Some ==> r->Some_0.as_nat() == spec_calculate_step(
            initial_d.as_nat(),
            leverage as nat,
            sum_x as nat,
            d_product.as_nat(),
        )->Some_0,
{
    let leverage_mul = U256::from_u64(leverage).checked_mul(&U256::from_u128(sum_x))?;
    let d_p_mul = checked_u8_mul(d_product, N_COINS)?;
    let l_val = leverage_mul.checked_add(&d_p_mul)?.checked_mul(initial_d)?;
    let lev_minus_one = leverage.checked_sub(1)?;
    let leverage_sub = initial_d.checked_mul(&U256::from_u64(lev_minus_one))?;
    let n_coins_sum = checked_u8_mul(d_product, N_COINS + 1)?;
    let r_val = leverage_sub.checked_add(&n_coins_sum)?;
    l_val.checked_div(&r_val)
}

/// What the invariant iteration computes from a given estimate with a given
/// number of rounds left: each round derives `d_product` from the current
/// estimate and the scaled amounts, applies the update step, and stops
/// early when the estimate stops changing.
pub open spec fn spec_d_iter(
    leverage: nat,
    sum_x: nat,
    a_times_coins: nat,
    b_times_coins: nat,
    d: nat,
    rounds_left: nat,
) -> Option<nat>
    decreases rounds_left,
{
    if rounds_left == 0 {
        Some(d)
    } else if d * d >= u256_limit() {
        None
    } else {
        let p1 = d * d / a_times_coins;
        if p1 * d >= u256_limit() {
            None
        } else {
            let d_product = p1 * d / b_times_coins;
            match spec_calculate_step(d, leverage, sum_x, d_product) {
                None => None,
                Some(d_next) => {
                    if d_next == d {
                        Some(d_next)
                    } else {
                        spec_d_iter(
                            leverage,
                            sum_x,
                            a_times_coins,
                            b_times_coins,
                            d_next,
                            (rounds_left - 1) as nat,
                        )
                    }
                },
            }
        }
    }
}

/// What the invariant solver returns: zero for an empty pool, the
/// iterated estimate narrowed to the public width otherwise, and a failure
/// whenever an intermediate overflows.
pub open spec fn spec_compute_d(leverage: nat, amount_a: nat, amount_b: nat) -> Option<nat> {
    if amount_a + amount_b > u128::MAX {
        None
    } else if amount_a + amount_b == 0 {
        Some(0)
    } else {
        match spec_d_iter(
            leverage,
            amount_a + amount_b,
            2 * amount_a + 1,
            2 * amount_b + 1,
            amount_a + amount_b,
            ITERATIONS as nat,
        ) {
            None => None,
            Some(d) => {
                if d < crate::wide::b128() {
                    Some(d)
                } else {
                    None
                }
            },
        }
    }
}

/// Compute the stable swap invariant `D` by the capped fixed-point
/// iteration, starting from the sum of the amounts.
pub fn compute_d(leverage: u64, amount_a: u128, amount_b: u128) -> (r: Option<u128>)
    ensures
        r is Some <==> spec_compute_d(leverage as nat, amount_a as nat, amount_b as nat) is Some,
        r is Some ==> r->Some_0 as nat == spec_compute_d(
            leverage as nat,
            amount_a as nat,
            amount_b as nat,
        )->Some_0,
{
    let amount_a_times_coins = checked_u8_mul(&U256::from_u128(amount_a), N_COINS).unwrap()
        .checked_add(&U256::one()).unwrap();
    let amount_b_times_coins = checked_u8_mul(&U256::from_u128(amount_b), N_COINS).unwrap()
        .checked_add(&U256::one()).unwrap();
    let sum_x = amount_a.checked_add(amount_b)?;
    if sum_x == 0 {
        return Some(0);
    }
    let mut d = U256::from_u128(sum_x);
    let mut i: u8 = 0;
    loop
        invariant
            i <= ITERATIONS,
            amount_a_times_coins.as_nat() == 2 * amount_a + 1,
            amount_b_times_coins.as_nat() == 2 * amount_b + 1,
            sum_x == amount_a + amount_b,
            sum_x > 0,
            spec_d_iter(
                leverage as nat,
                sum_x as nat,
                amount_a_times_coins.as_nat(),
                amount_b_times_coins.as_nat(),
                d.as_nat(),
                (ITERATIONS - i) as nat,
            ) == spec_d_iter(
                leverage as nat,
                sum_x as nat,
                (2 * amount_a + 1) as nat,
                (2 * amount_b + 1) as nat,
                sum_x as nat,
                ITERATIONS as nat,
            ),
        ensures
            spec_d_iter(
                leverage as nat,
                sum_x as nat,
                (2 * amount_a + 1) as nat,
                (2 * amount_b + 1) as nat,
                sum_x as nat,
                ITERATIONS as nat,
            ) == Some(d.as_nat()),
        decreases ITERATIONS - i,
    {
        if i >= ITERATIONS {
            break ;
        }
        let squared = match d.checked_mul(&d) {
            Some(value) => value,
            None => {
                return None;
            },
        };
        let p1 = squared.checked_div(&amount_a_times_coins).unwrap();
        let with_d = match p1.checked_mul(&d) {
            Some(value) => value,
            None => {
                return None;
            },
        };
        let d_product = with_d.checked_div(&amount_b_times_coins).unwrap();
        let d_previous = d;
        d = match calculate_step(&d_previous, leverage, sum_x, &d_product) {
            Some(value) => value,
            None => {
                return None;
            },
        };
        // Equality with the precision of one
        if d == d_previous {
            break ;
        }
        proof {
            if d.as_nat() == d_previous.as_nat() {
                crate::wide::lemma_u256_canonical(d, d_previous);
            }
        }
        i = i + 1;
    }
    d.to_u128()
}

} // verus!
