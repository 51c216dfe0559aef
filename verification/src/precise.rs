//! Fixed-point arithmetic: non-negative rationals as integers scaled by a
//! fixed precision constant.
//!
//! A `PreciseNumber` holding inner value `v` represents the rational
//! `v / ONE`.  Every operation is checked: it fails on 256-bit overflow, on
//! division by zero, and on a negative difference, and otherwise its inner
//! value is stated exactly.  Rounding is deliberate and one-directional where
//! the pool's favor requires it: `floor` and `checked_div` round down,
//! `ceiling` rounds up, `checked_mul` and `to_imprecise` round to nearest.

use crate::wide::U256;
use crate::wide::u256_limit;
use vstd::prelude::*;

verus! {

/// The scale: one whole token, as an inner fixed-point value.
pub const ONE: u128 = 1_000_000_000_000;

/// Half the scale, the correction used when rounding to nearest.
pub const HALF_ONE: u128 = 500_000_000_000;

/// What `PreciseNumber::new` produces: the inner value of the fixed-point
/// number equal to a given integer.
pub open spec fn pn_new(v: nat) -> nat {
    v * (ONE as nat)
}

/// What `checked_add` computes over inner values.
pub open spec fn pn_add(a: nat, b: nat) -> Option<nat> {
    if a + b < u256_limit() {
        Some(a + b)
    } else {
        None
    }
}

/// What `checked_sub` computes over inner values.
pub open spec fn pn_sub(a: nat, b: nat) -> Option<nat> {
    if b <= a {
        Some((a - b) as nat)
    } else {
        None
    }
}

/// What `checked_mul` computes over inner values: the product, scaled back
/// down and rounded to nearest.
pub open spec fn pn_mul(a: nat, b: nat) -> Option<nat> {
    if a * b + HALF_ONE < u256_limit() {
        Some(((a * b + HALF_ONE) as int / (ONE as int)) as nat)
    } else {
        None
    }
}

/// What `checked_div` computes over inner values: the scaled-up quotient,
/// rounded down.
pub open spec fn pn_div(a: nat, b: nat) -> Option<nat> {
    if b != 0 && a * ONE < u256_limit() {
        Some(((a * ONE) as int / (b as int)) as nat)
    } else {
        None
    }
}

/// What `floor` computes over inner values.
pub open spec fn pn_floor(a: nat) -> nat {
    (a / (ONE as nat)) * (ONE as nat)
}

/// What `ceiling` computes over inner values.
pub open spec fn pn_ceiling(a: nat) -> Option<nat> {
    let rounded = ((a + ONE - 1) / (ONE as int)) * (ONE as int);
    if rounded < u256_limit() {
        Some(rounded as nat)
    } else {
        None
    }
}

/// What `sqrt` computes over inner values: the integer square root of the
/// scaled-up value, so that squaring the result never exceeds the input.
pub open spec fn pn_sqrt(a: nat) -> Option<nat> {
    if a * ONE < u256_limit() {
        Some(crate::wide::nat_sqrt((a * ONE) as nat))
    } else {
        None
    }
}

/// What `to_imprecise` computes over inner values: the nearest integer,
/// if it fits the public width.
pub open spec fn pn_to_imprecise(a: nat) -> Option<nat> {
    let rounded = (a + HALF_ONE) as int / (ONE as int);
    if rounded < crate::wide::b128() {
        Some(rounded as nat)
    } else {
        None
    }
}

/// A checked fixed-point number: the value represented is `value / ONE`.
#[derive(Clone, Copy, Debug, PartialEq, Eq, Structural)]
pub struct PreciseNumber {
    /// The scaled integer
    pub value: U256,
}

impl PreciseNumber {
    /// The inner scaled integer, as an unbounded natural number: the
    /// rational value represented times `ONE`.
    pub open spec fn as_nat(self) -> nat {
        self.value.as_nat()
    }

    /// The number one.
    pub fn one() -> (r: PreciseNumber)
        ensures
            r.as_nat() == ONE,
    {
        PreciseNumber { value: U256::from_u128(ONE) }
    }

    /// The fixed-point number equal to the given integer.  Every 128-bit
    /// value is representable, so this never fails; the checked interface is
    /// kept so that callers guard uniformly.
    pub fn new(value: u128) -> (r: Option<PreciseNumber>)
        ensures
            r is Some,
            r->Some_0.as_nat() == pn_new(value as nat),
    {
        proof {
            vstd::arithmetic::mul::lemma_mul_upper_bound(
                value as int,
                u128::MAX as int,
                ONE as int,
                ONE as int,
            );
        }
        let wide_value = U256::from_u128(value);
        let scale = U256::from_u128(ONE);
        let scaled = wide_value.checked_mul(&scale);
        Some(PreciseNumber { value: scaled.unwrap() })
    }

    /// Round to the nearest integer and narrow to 128 bits; fails exactly
    /// when the rounded value cannot be represented.
    pub fn to_imprecise(&self) -> (r: Option<u128>)
        ensures
            r is Some <==> pn_to_imprecise(self.as_nat()) is Some,
            r is Some ==> r->Some_0 as nat == pn_to_imprecise(self.as_nat())->Some_0,
    {
        proof {
            crate::wide::lemma_u256_bound(self.value);
            vstd::arithmetic::div_mod::lemma_div_is_ordered(
                self.as_nat() as int,
                (u256_limit() - 1) as int,
                ONE as int,
            );
            vstd::arithmetic::div_mod::lemma_div_is_ordered(
                (self.as_nat() + HALF_ONE) as int,
                (u256_limit() - 1 + HALF_ONE) as int,
                ONE as int,
            );
        }
        let corrected = self.value.checked_add(&U256::from_u128(HALF_ONE));
        match corrected {
            Some(c) => {
                let (q, _) = c.div_rem(&U256::from_u128(ONE));
                q.to_u128()
            },
            None => None,
        }
    }

    /// Sum; fails exactly on 256-bit overflow of the inner value.
    pub fn checked_add(&self, rhs: &PreciseNumber) -> (r: Option<PreciseNumber>)
        ensures
            r is Some <==> pn_add(self.as_nat(), rhs.as_nat()) is Some,
            r is Some ==> r->Some_0.as_nat() == pn_add(self.as_nat(), rhs.as_nat())->Some_0,
    {
        match self.value.checked_add(&rhs.value) {
            Some(value) => Some(PreciseNumber { value }),
            None => None,
        }
    }

    /// Difference; fails exactly when it would be negative, since this
    /// domain has no negative amounts.
    pub fn checked_sub(&self, rhs: &PreciseNumber) -> (r: Option<PreciseNumber>)
        ensures
            r is Some <==> pn_sub(self.as_nat(), rhs.as_nat()) is Some,
            r is Some ==> r->Some_0.as_nat() == pn_sub(self.as_nat(), rhs.as_nat())->Some_0,
    {
        match self.value.checked_sub(&rhs.value) {
            Some(value) => Some(PreciseNumber { value }),
            None => None,
        }
    }

    /// Product, rounded to the nearest unit of the scale; fails exactly on
    /// 256-bit overflow of the corrected inner product.
    pub fn checked_mul(&self, rhs: &PreciseNumber) -> (r: Option<PreciseNumber>)
        ensures
            r is Some <==> pn_mul(self.as_nat(), rhs.as_nat()) is Some,
            r is Some ==> r->Some_0.as_nat() == pn_mul(self.as_nat(), rhs.as_nat())->Some_0,
    {
        match self.value.checked_mul(&rhs.value) {
            Some(product) => {
                match product.checked_add(&U256::from_u128(HALF_ONE)) {
                    Some(corrected) => {
                        let (q, _) = corrected.div_rem(&U256::from_u128(ONE));
                        Some(PreciseNumber { value: q })
                    },
                    None => None,
                }
            },
            None => None,
        }
    }

    /// Quotient, rounded down; fails exactly on a zero divisor and on
    /// 256-bit overflow of the scaled dividend.
    pub fn checked_div(&self, rhs: &PreciseNumber) -> (r: Option<PreciseNumber>)
        ensures
            r is Some <==> pn_div(self.as_nat(), rhs.as_nat()) is Some,
            r is Some ==> r->Some_0.as_nat() == pn_div(self.as_nat(), rhs.as_nat())->Some_0,
    {
        if rhs.value.is_zero() {
            return None;
        }
        match self.value.checked_mul(&U256::from_u128(ONE)) {
            Some(scaled) => {
                let (q, _) = scaled.div_rem(&rhs.value);
                Some(PreciseNumber { value: q })
            },
            None => None,
        }
    }

    /// Round down to a whole integer value.  The checked interface is kept
    /// although rounding down never fails.
    pub fn floor(&self) -> (r: Option<PreciseNumber>)
        ensures
            r is Some,
            r->Some_0.as_nat() == pn_floor(self.as_nat()),
    {
        let (q, rem) = self.value.div_rem(&U256::from_u128(ONE));
        let floored = self.value.checked_sub(&rem);
        proof {
            vstd::arithmetic::div_mod::lemma_fundamental_div_mod(self.as_nat() as int, ONE as int);
            vstd::arithmetic::mul::lemma_mul_is_commutative(
                ONE as int,
                (self.as_nat() / (ONE as nat)) as int,
            );
        }
        Some(PreciseNumber { value: floored.unwrap() })
    }

    /// Round up to a whole integer value; fails exactly when the rounded
    /// inner value overflows 256 bits.
    pub fn ceiling(&self) -> (r: Option<PreciseNumber>)
        ensures
            r is Some <==> pn_ceiling(self.as_nat()) is Some,
            r is Some ==> r->Some_0.as_nat() == pn_ceiling(self.as_nat())->Some_0,
    {
        let (_, rem) = self.value.div_rem(&U256::from_u128(ONE));
        proof {
            vstd::arithmetic::div_mod::lemma_fundamental_div_mod(self.as_nat() as int, ONE as int);
            lemma_round_up_unit(self.as_nat() as int, self.as_nat() as int % ONE as int);
        }
        if rem.is_zero() {
            Some(PreciseNumber { value: self.value })
        } else {
            let bump = U256::from_u128(ONE).checked_sub(&rem).unwrap();
            match self.value.checked_add(&bump) {
                Some(value) => Some(PreciseNumber { value }),
                None => None,
            }
        }
    }

    /// Square root to the fixed precision: the largest representable value
    /// whose square does not exceed this one.  Fails exactly when the inner
    /// value is too large for the scaled intermediate.
    pub fn sqrt(&self) -> (r: Option<PreciseNumber>)
        ensures
            r is Some <==> pn_sqrt(self.as_nat()) is Some,
            r is Some ==> r->Some_0.as_nat() == pn_sqrt(self.as_nat())->Some_0,
            r is Some ==> r->Some_0.as_nat() * r->Some_0.as_nat() <= self.as_nat() * ONE
                && (r->Some_0.as_nat() + 1) * (r->Some_0.as_nat() + 1) > self.as_nat() * ONE,
    {
        match self.value.checked_mul(&U256::from_u128(ONE)) {
            Some(scaled) => Some(PreciseNumber { value: scaled.isqrt() }),
            None => None,
        }
    }

    /// Strict comparison of the represented values.
    pub fn less_than(&self, rhs: &PreciseNumber) -> (r: bool)
        ensures
            r == (self.as_nat() < rhs.as_nat()),
    {
        self.value.lt(&rhs.value)
    }

    /// Comparison of the represented values.
    pub fn less_than_or_equal(&self, rhs: &PreciseNumber) -> (r: bool)
        ensures
            r == (self.as_nat() <= rhs.as_nat()),
    {
        self.value.le(&rhs.value)
    }
}

/// Rounding up to the scale's unit agrees with adding `ONE - 1` and rounding
/// down: from the inner value and its remainder, both forms name the same
/// multiple of the scale.
proof fn lemma_round_up_unit(v: int, rem: int)
    requires
        0 <= v,
        rem == v % ONE as int,
    ensures
        rem == 0 ==> ((v + ONE - 1) / ONE as int) * ONE as int == v,
        rem != 0 ==> ((v + ONE - 1) / ONE as int) * ONE as int == v + ONE - rem,
{
    let unit = ONE as int;
    let q = v / unit;
    vstd::arithmetic::div_mod::lemma_fundamental_div_mod(v, unit);
    vstd::arithmetic::div_mod::lemma_mod_bound(v, unit);
    if rem == 0 {
        vstd::arithmetic::div_mod::lemma_fundamental_div_mod_converse(
            v + unit - 1,
            unit,
            q,
            unit - 1,
        );
        assert((q + 0) * unit == unit * q) by (nonlinear_arith);
    } else {
        assert(v + unit - 1 == (q + 1) * unit + (rem - 1)) by (nonlinear_arith)
            requires
                v == unit * q + rem,
        ;
        vstd::arithmetic::div_mod::lemma_fundamental_div_mod_converse(
            v + unit - 1,
            unit,
            q + 1,
            rem - 1,
        );
        assert((q + 1) * unit == unit * q + unit) by (nonlinear_arith);
    }
}

} // verus!
