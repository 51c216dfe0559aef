//! Wide unsigned integers: 256-bit checked arithmetic.
//!
//! Curve computations multiply two 128-bit quantities before dividing back
//! down, so the intermediate width must hold their full product.  A value is
//! four 64-bit limbs, least significant first; every operation is checked and
//! its exact value is stated over `as_nat`.

use vstd::prelude::*;

verus! {

/// 2^64, the limb radix.
pub const LIMB_BASE: u128 = 0x1_0000_0000_0000_0000;

/// 2^128.
pub open spec fn b128() -> nat {
    0x1_0000_0000_0000_0000 * 0x1_0000_0000_0000_0000
}

/// 2^256: the first value too wide to represent.
pub open spec fn u256_limit() -> nat {
    0x1_0000_0000_0000_0000 * 0x1_0000_0000_0000_0000 * 0x1_0000_0000_0000_0000
        * 0x1_0000_0000_0000_0000
}

/// A 256-bit unsigned integer: `w0` is the least significant limb.
#[derive(Clone, Copy, Debug, PartialEq, Eq, Structural)]
pub struct U256 {
    /// Bits 0..64
    pub w0: u64,
    /// Bits 64..128
    pub w1: u64,
    /// Bits 128..192
    pub w2: u64,
    /// Bits 192..256
    pub w3: u64,
}

impl U256 {
    /// The value represented, as an unbounded natural number.
    pub open spec fn as_nat(self) -> nat {
        (self.w0 as nat) + 0x1_0000_0000_0000_0000 * ((self.w1 as nat) + 0x1_0000_0000_0000_0000
            * ((self.w2 as nat) + 0x1_0000_0000_0000_0000 * (self.w3 as nat)))
    }

    /// Zero.
    pub fn zero() -> (r: U256)
        ensures
            r.as_nat() == 0,
    {
        U256 { w0: 0, w1: 0, w2: 0, w3: 0 }
    }

    /// One.
    pub fn one() -> (r: U256)
        ensures
            r.as_nat() == 1,
    {
        U256 { w0: 1, w1: 0, w2: 0, w3: 0 }
    }

    /// Widen a 64-bit value.
    pub fn from_u64(v: u64) -> (r: U256)
        ensures
            r.as_nat() == v,
    {
        U256 { w0: v, w1: 0, w2: 0, w3: 0 }
    }

    /// Widen a 128-bit value.
    pub fn from_u128(v: u128) -> (r: U256)
        ensures
            r.as_nat() == v,
    {
        let r = U256 { w0: (v % LIMB_BASE) as u64, w1: (v / LIMB_BASE) as u64, w2: 0, w3: 0 };
        proof {
            vstd::arithmetic::div_mod::lemma_fundamental_div_mod(v as int, LIMB_BASE as int);
        }
        r
    }

    /// Narrow back to 128 bits; fails exactly when the value does not fit.
    pub fn to_u128(&self) -> (r: Option<u128>)
        ensures
            self.as_nat() < b128() ==> r == Some(self.as_nat() as u128),
            self.as_nat() >= b128() ==> r is None,
    {
        if self.w2 == 0 && self.w3 == 0 {
            Some((self.w0 as u128) + (self.w1 as u128) * LIMB_BASE)
        } else {
            None
        }
    }

    /// True exactly when the value is zero.
    pub fn is_zero(&self) -> (r: bool)
        ensures
            r == (self.as_nat() == 0),
    {
        self.w0 == 0 && self.w1 == 0 && self.w2 == 0 && self.w3 == 0
    }

    /// Strict comparison of the represented values.
    pub fn lt(&self, rhs: &U256) -> (r: bool)
        ensures
            r == (self.as_nat() < rhs.as_nat()),
    {
        if self.w3 != rhs.w3 {
            self.w3 < rhs.w3
        } else if self.w2 != rhs.w2 {
            self.w2 < rhs.w2
        } else if self.w1 != rhs.w1 {
            self.w1 < rhs.w1
        } else {
            self.w0 < rhs.w0
        }
    }

    /// Comparison of the represented values.
    pub fn le(&self, rhs: &U256) -> (r: bool)
        ensures
            r == (self.as_nat() <= rhs.as_nat()),
    {
        !rhs.lt(self)
    }

    /// Sum of the values; fails exactly on 256-bit overflow.
    pub fn checked_add(&self, rhs: &U256) -> (r: Option<U256>)
        ensures
            r is Some <==> self.as_nat() + rhs.as_nat() < u256_limit(),
            r is Some ==> r->Some_0.as_nat() == self.as_nat() + rhs.as_nat(),
    {
        let s0: u128 = (self.w0 as u128) + (rhs.w0 as u128);
        let c1: u128 = if s0 >= LIMB_BASE {
            1
        } else {
            0
        };
        let r0: u64 = if s0 >= LIMB_BASE {
            (s0 - LIMB_BASE) as u64
        } else {
            s0 as u64
        };
        let s1: u128 = (self.w1 as u128) + (rhs.w1 as u128) + c1;
        let c2: u128 = if s1 >= LIMB_BASE {
            1
        } else {
            0
        };
        let r1: u64 = if s1 >= LIMB_BASE {
            (s1 - LIMB_BASE) as u64
        } else {
            s1 as u64
        };
        let s2: u128 = (self.w2 as u128) + (rhs.w2 as u128) + c2;
        let c3: u128 = if s2 >= LIMB_BASE {
            1
        } else {
            0
        };
        let r2: u64 = if s2 >= LIMB_BASE {
            (s2 - LIMB_BASE) as u64
        } else {
            s2 as u64
        };
        let s3: u128 = (self.w3 as u128) + (rhs.w3 as u128) + c3;
        let c4: u128 = if s3 >= LIMB_BASE {
            1
        } else {
            0
        };
        let r3: u64 = if s3 >= LIMB_BASE {
            (s3 - LIMB_BASE) as u64
        } else {
            s3 as u64
        };
        let sum = U256 { w0: r0, w1: r1, w2: r2, w3: r3 };
        if c4 == 0 {
            Some(sum)
        } else {
            None
        }
    }

    /// Product of the values; fails exactly on 256-bit overflow.
    #[verifier::rlimit(100)]
    pub fn checked_mul(&self, rhs: &U256) -> (r: Option<U256>)
        ensures
            r is Some <==> self.as_nat() * rhs.as_nat() < u256_limit(),
            r is Some ==> r->Some_0.as_nat() == self.as_nat() * rhs.as_nat(),
    {
        let a0 = self.w0 as u128;
        let a1 = self.w1 as u128;
        let a2 = self.w2 as u128;
        let a3 = self.w3 as u128;
        let b0 = rhs.w0 as u128;
        let b1 = rhs.w1 as u128;
        let b2 = rhs.w2 as u128;
        let b3 = rhs.w3 as u128;
        let q00 = mul_limbs(a0, b0);
        let q01 = mul_limbs(a0, b1);
        let q02 = mul_limbs(a0, b2);
        let q03 = mul_limbs(a0, b3);
        let q10 = mul_limbs(a1, b0);
        let q11 = mul_limbs(a1, b1);
        let q12 = mul_limbs(a1, b2);
        let q13 = mul_limbs(a1, b3);
        let q20 = mul_limbs(a2, b0);
        let q21 = mul_limbs(a2, b1);
        let q22 = mul_limbs(a2, b2);
        let q23 = mul_limbs(a2, b3);
        let q30 = mul_limbs(a3, b0);
        let q31 = mul_limbs(a3, b1);
        let q32 = mul_limbs(a3, b2);
        let q33 = mul_limbs(a3, b3);
        let s0: u128 = q00 % LIMB_BASE;
        let c1: u128 = q00 / LIMB_BASE;
        let s1: u128 = (q01 % LIMB_BASE) + (q10 % LIMB_BASE) + c1;
        let s2: u128 = (q02 % LIMB_BASE) + (q11 % LIMB_BASE) + (q20 % LIMB_BASE) + (q01
            / LIMB_BASE) + (q10 / LIMB_BASE) + (s1 / LIMB_BASE);
        let s3: u128 = (q03 % LIMB_BASE) + (q12 % LIMB_BASE) + (q21 % LIMB_BASE) + (q30
            % LIMB_BASE) + (q02 / LIMB_BASE) + (q11 / LIMB_BASE) + (q20 / LIMB_BASE) + (s2
            / LIMB_BASE);
        let s4: u128 = (q13 % LIMB_BASE) + (q22 % LIMB_BASE) + (q31 % LIMB_BASE) + (q03
            / LIMB_BASE) + (q12 / LIMB_BASE) + (q21 / LIMB_BASE) + (q30 / LIMB_BASE) + (s3
            / LIMB_BASE);
        let s5: u128 = (q23 % LIMB_BASE) + (q32 % LIMB_BASE) + (q13 / LIMB_BASE) + (q22
            / LIMB_BASE) + (q31 / LIMB_BASE) + (s4 / LIMB_BASE);
        let s6: u128 = (q33 % LIMB_BASE) + (q23 / LIMB_BASE) + (q32 / LIMB_BASE) + (s5
            / LIMB_BASE);
        let s7: u128 = (q33 / LIMB_BASE) + (s6 / LIMB_BASE);
        let out = U256 {
            w0: s0 as u64,
            w1: (s1 % LIMB_BASE) as u64,
            w2: (s2 % LIMB_BASE) as u64,
            w3: (s3 % LIMB_BASE) as u64,
        };
        proof {
            lemma_mul_expand(
                a0 as int,
                a1 as int,
                a2 as int,
                a3 as int,
                b0 as int,
                b1 as int,
                b2 as int,
                b3 as int,
            );
            assert(self.as_nat() * rhs.as_nat() == (q00 as int) + 0x1_0000_0000_0000_0000 * (((
            q01 + q10) as int) + 0x1_0000_0000_0000_0000 * (((q02 + q11 + q20) as int)
                + 0x1_0000_0000_0000_0000 * (((q03 + q12 + q21 + q30) as int)
                + 0x1_0000_0000_0000_0000 * (((q13 + q22 + q31) as int) + 0x1_0000_0000_0000_0000
                * (((q23 + q32) as int) + 0x1_0000_0000_0000_0000 * (q33 as int)))))));
            lemma_carry_columns(
                q00,
                q01,
                q02,
                q03,
                q10,
                q11,
                q12,
                q13,
                q20,
                q21,
                q22,
                q23,
                q30,
                q31,
                q32,
                q33,
                s1,
                s2,
                s3,
                s4,
                s5,
                s6,
                s7,
            );
            assert(out.w0 == q00 % LIMB_BASE);
            assert(out.w1 == s1 % LIMB_BASE);
            assert(out.w2 == s2 % LIMB_BASE);
            assert(out.w3 == s3 % LIMB_BASE);
            assert(self.as_nat() * rhs.as_nat() == out.as_nat() + 0x1_0000_0000_0000_0000 * (
            0x1_0000_0000_0000_0000 * (0x1_0000_0000_0000_0000 * (0x1_0000_0000_0000_0000 * (((s4
                % LIMB_BASE) as int) + 0x1_0000_0000_0000_0000 * (((s5 % LIMB_BASE) as int)
                + 0x1_0000_0000_0000_0000 * (((s6 % LIMB_BASE) as int) + 0x1_0000_0000_0000_0000
                * (s7 as int))))))));
            if s4 == 0 && s5 == 0 && s6 == 0 && s7 == 0 {
                assert(self.as_nat() * rhs.as_nat() == out.as_nat());
                assert(out.as_nat() < u256_limit());
            } else {
                let h = ((s4 % LIMB_BASE) as int) + 0x1_0000_0000_0000_0000 * (((s5
                    % LIMB_BASE) as int) + 0x1_0000_0000_0000_0000 * (((s6 % LIMB_BASE) as int)
                    + 0x1_0000_0000_0000_0000 * (s7 as int)));
                assert(h >= 1);
                assert(0x1_0000_0000_0000_0000 * (0x1_0000_0000_0000_0000 * (
                0x1_0000_0000_0000_0000 * (0x1_0000_0000_0000_0000 * h))) >= u256_limit());
                assert(self.as_nat() * rhs.as_nat() >= u256_limit());
            }
        }
        if s4 == 0 && s5 == 0 && s6 == 0 && s7 == 0 {
            Some(out)
        } else {
            None
        }
    }

    /// Difference of the values; fails exactly when it would be negative.
    pub fn checked_sub(&self, rhs: &U256) -> (r: Option<U256>)
        ensures
            self.as_nat() >= rhs.as_nat() ==> r is Some && r->Some_0.as_nat() == self.as_nat()
                - rhs.as_nat(),
            self.as_nat() < rhs.as_nat() ==> r is None,
    {
        let t0: u128 = rhs.w0 as u128;
        let b1: u128 = if (self.w0 as u128) < t0 {
            1
        } else {
            0
        };
        let r0: u64 = if (self.w0 as u128) < t0 {
            ((self.w0 as u128) + LIMB_BASE - t0) as u64
        } else {
            ((self.w0 as u128) - t0) as u64
        };
        let t1: u128 = (rhs.w1 as u128) + b1;
        let b2: u128 = if (self.w1 as u128) < t1 {
            1
        } else {
            0
        };
        let r1: u64 = if (self.w1 as u128) < t1 {
            ((self.w1 as u128) + LIMB_BASE - t1) as u64
        } else {
            ((self.w1 as u128) - t1) as u64
        };
        let t2: u128 = (rhs.w2 as u128) + b2;
        let b3: u128 = if (self.w2 as u128) < t2 {
            1
        } else {
            0
        };
        let r2: u64 = if (self.w2 as u128) < t2 {
            ((self.w2 as u128) + LIMB_BASE - t2) as u64
        } else {
            ((self.w2 as u128) - t2) as u64
        };
        let t3: u128 = (rhs.w3 as u128) + b3;
        let b4: u128 = if (self.w3 as u128) < t3 {
            1
        } else {
            0
        };
        let r3: u64 = if (self.w3 as u128) < t3 {
            ((self.w3 as u128) + LIMB_BASE - t3) as u64
        } else {
            ((self.w3 as u128) - t3) as u64
        };
        if b4 == 0 {
            Some(U256 { w0: r0, w1: r1, w2: r2, w3: r3 })
        } else {
            None
        }
    }
}

impl U256 {
    /// Euclidean quotient and remainder of the values.
    pub fn div_rem(&self, divisor: &U256) -> (r: (U256, U256))
        requires
            divisor.as_nat() > 0,
        ensures
            r.0.as_nat() == self.as_nat() / divisor.as_nat(),
            r.1.as_nat() == self.as_nat() % divisor.as_nat(),
    {
        let mut quot = U256::zero();
        let mut rem = *self;
        loop
            invariant
                divisor.as_nat() > 0,
                quot.as_nat() * divisor.as_nat() + rem.as_nat() == self.as_nat(),
            ensures
                quot.as_nat() * divisor.as_nat() + rem.as_nat() == self.as_nat(),
                rem.as_nat() < divisor.as_nat(),
            decreases rem.as_nat(),
        {
            if rem.lt(divisor) {
                break ;
            }
            // Scale the divisor up by doubling as far as it still fits under
            // the remainder, so the subtraction below makes fast progress.
            let mut scaled = *divisor;
            let mut power = U256::one();
            proof {
                vstd::arithmetic::mul::lemma_mul_basics(divisor.as_nat() as int);
            }
            loop
                invariant
                    divisor.as_nat() > 0,
                    scaled.as_nat() == divisor.as_nat() * power.as_nat(),
                    1 <= power.as_nat(),
                    scaled.as_nat() <= rem.as_nat(),
                ensures
                    scaled.as_nat() == divisor.as_nat() * power.as_nat(),
                    1 <= power.as_nat(),
                    scaled.as_nat() <= rem.as_nat(),
                decreases rem.as_nat() - scaled.as_nat(),
            {
                let doubled = scaled.checked_add(&scaled);
                match doubled {
                    Some(d2) => {
                        if d2.le(&rem) {
                            proof {
                                vstd::arithmetic::mul::lemma_mul_increases(
                                    divisor.as_nat() as int,
                                    power.as_nat() as int,
                                );
                                vstd::arithmetic::mul::lemma_mul_is_distributive_add(
                                    divisor.as_nat() as int,
                                    power.as_nat() as int,
                                    power.as_nat() as int,
                                );
                            }
                            let power2 = power.checked_add(&power);
                            scaled = d2;
                            power = power2.unwrap();
                        } else {
                            break ;
                        }
                    },
                    None => {
                        break ;
                    },
                }
            }
            proof {
                vstd::arithmetic::mul::lemma_mul_increases(
                    divisor.as_nat() as int,
                    power.as_nat() as int,
                );
                vstd::arithmetic::mul::lemma_mul_is_distributive_add_other_way(
                    divisor.as_nat() as int,
                    quot.as_nat() as int,
                    power.as_nat() as int,
                );
                vstd::arithmetic::mul::lemma_mul_increases(
                    divisor.as_nat() as int,
                    quot.as_nat() + power.as_nat() as int,
                );
                vstd::arithmetic::mul::lemma_mul_is_commutative(
                    divisor.as_nat() as int,
                    quot.as_nat() as int,
                );
                vstd::arithmetic::mul::lemma_mul_is_commutative(
                    divisor.as_nat() as int,
                    quot.as_nat() + power.as_nat() as int,
                );
            }
            let rem2 = rem.checked_sub(&scaled);
            rem = rem2.unwrap();
            let quot2 = quot.checked_add(&power);
            quot = quot2.unwrap();
        }
        proof {
            vstd::arithmetic::div_mod::lemma_fundamental_div_mod_converse(
                self.as_nat() as int,
                divisor.as_nat() as int,
                quot.as_nat() as int,
                rem.as_nat() as int,
            );
        }
        (quot, rem)
    }

    /// Quotient of the values; fails exactly on division by zero.
    pub fn checked_div(&self, rhs: &U256) -> (r: Option<U256>)
        ensures
            rhs.as_nat() == 0 ==> r is None,
            rhs.as_nat() > 0 ==> r is Some && r->Some_0.as_nat() == self.as_nat() / rhs.as_nat(),
    {
        if rhs.is_zero() {
            None
        } else {
            Some(self.div_rem(rhs).0)
        }
    }

    /// Remainder of the values; fails exactly on division by zero.
    pub fn checked_rem(&self, rhs: &U256) -> (r: Option<U256>)
        ensures
            rhs.as_nat() == 0 ==> r is None,
            rhs.as_nat() > 0 ==> r is Some && r->Some_0.as_nat() == self.as_nat() % rhs.as_nat(),
    {
        if rhs.is_zero() {
            None
        } else {
            Some(self.div_rem(rhs).1)
        }
    }

    /// Ceiling division that also reports the minimum divisor yielding the
    /// same ceiled quotient; fails on a zero divisor and on a quotient that
    /// would floor to zero.  The wide counterpart of
    /// `calculator::checked_ceil_div`.
    pub fn checked_ceil_div(&self, rhs: &U256) -> (r: Option<(U256, U256)>)
        ensures
            r is Some <==> crate::calculator::spec_ceil_div(self.as_nat(), rhs.as_nat()) is Some,
            r is Some ==> (r->Some_0.0.as_nat(), r->Some_0.1.as_nat())
                == crate::calculator::spec_ceil_div(self.as_nat(), rhs.as_nat())->Some_0,
    {
        if rhs.is_zero() {
            return None;
        }
        let (q0, rem0) = self.div_rem(rhs);
        if q0.is_zero() {
            return None;
        }
        if rem0.is_zero() {
            return Some((q0, *rhs));
        }
        proof {
            assert(rhs.as_nat() >= 2) by {
                if rhs.as_nat() == 1 {
                    vstd::arithmetic::div_mod::lemma_fundamental_div_mod_converse(
                        self.as_nat() as int,
                        1,
                        self.as_nat() as int,
                        0,
                    );
                }
            }
            vstd::arithmetic::div_mod::lemma_div_is_ordered_by_denominator(
                self.as_nat() as int,
                2,
                rhs.as_nat() as int,
            );
            vstd::arithmetic::div_mod::lemma_div_is_strictly_smaller(
                self.as_nat() as int,
                2,
            );
        }
        let q = q0.checked_add(&U256::one()).unwrap();
        let (dv, dr) = self.div_rem(&q);
        proof {
            vstd::arithmetic::div_mod::lemma_div_is_ordered_by_denominator(
                self.as_nat() as int,
                2,
                q.as_nat() as int,
            );
        }
        if dr.is_zero() {
            Some((q, dv))
        } else {
            Some((q, dv.checked_add(&U256::one()).unwrap()))
        }
    }

    /// The integer square root: the largest value whose square does not
    /// exceed the input.
    pub fn isqrt(&self) -> (r: U256)
        ensures
            r.as_nat() == nat_sqrt(self.as_nat()),
            r.as_nat() * r.as_nat() <= self.as_nat(),
            (r.as_nat() + 1) * (r.as_nat() + 1) > self.as_nat(),
    {
        let n = *self;
        if n.is_zero() {
            proof {
                vstd::arithmetic::mul::lemma_mul_basics(1);
            }
            return U256::zero();
        }
        let two = U256 { w0: 2, w1: 0, w2: 0, w3: 0 };
        proof {
            assert(two.as_nat() == 2);
            lemma_u256_bound(n);
            vstd::arithmetic::div_mod::lemma_div_is_strictly_smaller(n.as_nat() as int, 2);
        }
        let mut x = n.div_rem(&two).0.checked_add(&U256::one()).unwrap();
        proof {
            lemma_isqrt_start(n.as_nat() as int, x.as_nat() as int);
        }
        loop
            invariant
                n == *self,
                two.as_nat() == 2,
                1 <= x.as_nat(),
                (x.as_nat() + 1) * (x.as_nat() + 1) > n.as_nat(),
                1 <= n.as_nat(),
            ensures
                x.as_nat() * x.as_nat() <= n.as_nat(),
                (x.as_nat() + 1) * (x.as_nat() + 1) > n.as_nat(),
            decreases x.as_nat(),
        {
            let (q, _) = n.div_rem(&x);
            let (hx, rx) = x.div_rem(&two);
            let (hq, rq) = q.div_rem(&two);
            proof {
                assert(hx.as_nat() + hq.as_nat() + 1 < u256_limit()) by {
                    lemma_u256_bound(x);
                    lemma_u256_bound(q);
                    vstd::arithmetic::div_mod::lemma_div_is_strictly_smaller(
                        x.as_nat() as int,
                        2,
                    );
                    vstd::arithmetic::div_mod::lemma_div_is_ordered(
                        q.as_nat() as int,
                        (u256_limit() - 1) as int,
                        2,
                    );
                    assert((u256_limit() - 1) as int / 2 < u256_limit() - 2);
                }
            }
            let mut xp = hx.checked_add(&hq).unwrap();
            if !rx.is_zero() && !rq.is_zero() {
                xp = xp.checked_add(&U256::one()).unwrap();
            }
            proof {
                vstd::arithmetic::div_mod::lemma_fundamental_div_mod_converse(
                    (x.as_nat() + q.as_nat()) as int,
                    2,
                    (xp.as_nat()) as int,
                    (x.as_nat() + q.as_nat() - 2 * xp.as_nat()) as int,
                );
                assert(xp.as_nat() == (x.as_nat() + q.as_nat()) as int / 2);
            }
            if x.le(&xp) {
                proof {
                    lemma_isqrt_stop(
                        n.as_nat() as int,
                        x.as_nat() as int,
                        q.as_nat() as int,
                        xp.as_nat() as int,
                    );
                }
                break ;
            }
            proof {
                lemma_isqrt_step(
                    n.as_nat() as int,
                    x.as_nat() as int,
                    q.as_nat() as int,
                    xp.as_nat() as int,
                );
                assert(1 <= xp.as_nat()) by {
                    if xp.as_nat() == 0 {
                        vstd::arithmetic::div_mod::lemma_small_div_converse(
                            (x.as_nat() + q.as_nat()) as int,
                            2,
                        );
                        assert(x.as_nat() + q.as_nat() <= 1);
                        assert(q.as_nat() == n.as_nat() as int / x.as_nat() as int);
                        assert(x.as_nat() == 1);
                        vstd::arithmetic::div_mod::lemma_div_basics_2(n.as_nat() as int);
                    }
                }
            }
            x = xp;
        }
        proof {
            lemma_nat_sqrt_unique(n.as_nat(), x.as_nat());
        }
        x
    }
}

/// The integer square root as a mathematical function, defined by counting
/// up: the root grows by one exactly at each perfect square.
pub open spec fn nat_sqrt(n: nat) -> nat
    decreases n,
{
    if n == 0 {
        0
    } else {
        let r = nat_sqrt((n - 1) as nat);
        if (r + 1) * (r + 1) <= n {
            r + 1
        } else {
            r
        }
    }
}

/// `nat_sqrt` is the largest value whose square does not exceed the input.
pub proof fn lemma_nat_sqrt_bounds(n: nat)
    ensures
        nat_sqrt(n) * nat_sqrt(n) <= n,
        (nat_sqrt(n) + 1) * (nat_sqrt(n) + 1) > n,
    decreases n,
{
    if n == 0 {
        assert(nat_sqrt(n) == 0);
        assert((nat_sqrt(n) + 1) * (nat_sqrt(n) + 1) == 1) by (nonlinear_arith)
            requires
                nat_sqrt(n) == 0,
        ;
    } else {
        lemma_nat_sqrt_bounds((n - 1) as nat);
        let r = nat_sqrt((n - 1) as nat);
        if (r + 1) * (r + 1) <= n {
            assert(nat_sqrt(n) == r + 1);
            assert((r + 2) * (r + 2) > (r + 1) * (r + 1)) by (nonlinear_arith);
            assert((nat_sqrt(n) + 1) * (nat_sqrt(n) + 1) == (r + 2) * (r + 2));
        } else {
            assert(nat_sqrt(n) == r);
        }
    }
}

/// The integer square root never decreases when its input grows.
pub proof fn lemma_nat_sqrt_monotone(m: nat, n: nat)
    requires
        m <= n,
    ensures
        nat_sqrt(m) <= nat_sqrt(n),
{
    lemma_nat_sqrt_bounds(m);
    lemma_nat_sqrt_bounds(n);
    if nat_sqrt(n) < nat_sqrt(m) {
        assert((nat_sqrt(n) + 1) * (nat_sqrt(n) + 1) <= nat_sqrt(m) * nat_sqrt(m)) by (
        nonlinear_arith)
            requires
                nat_sqrt(n) + 1 <= nat_sqrt(m),
        ;
    }
}

/// Any value meeting the square-root bounds is `nat_sqrt`.
pub proof fn lemma_nat_sqrt_unique(n: nat, r: nat)
    requires
        r * r <= n,
        (r + 1) * (r + 1) > n,
    ensures
        r == nat_sqrt(n),
{
    lemma_nat_sqrt_bounds(n);
    let s = nat_sqrt(n);
    if r < s {
        assert((r + 1) * (r + 1) <= s * s) by (nonlinear_arith)
            requires
                r + 1 <= s,
        ;
    }
    if s < r {
        assert((s + 1) * (s + 1) <= r * r) by (nonlinear_arith)
            requires
                s + 1 <= r,
        ;
    }
}

/// Every represented value is below 2^256.
pub proof fn lemma_u256_bound(v: U256)
    ensures
        v.as_nat() < u256_limit(),
{
}

/// The representation is canonical: equal values have equal limbs.
pub proof fn lemma_u256_canonical(a: U256, b: U256)
    requires
        a.as_nat() == b.as_nat(),
    ensures
        a == b,
{
    let base = 0x1_0000_0000_0000_0000 as int;
    let ra = (a.w1 as int) + base * ((a.w2 as int) + base * (a.w3 as int));
    let rb = (b.w1 as int) + base * ((b.w2 as int) + base * (b.w3 as int));
    vstd::arithmetic::div_mod::lemma_fundamental_div_mod_converse(
        a.as_nat() as int,
        base,
        ra,
        a.w0 as int,
    );
    vstd::arithmetic::div_mod::lemma_fundamental_div_mod_converse(
        b.as_nat() as int,
        base,
        rb,
        b.w0 as int,
    );
    let sa = (a.w2 as int) + base * (a.w3 as int);
    let sb = (b.w2 as int) + base * (b.w3 as int);
    vstd::arithmetic::div_mod::lemma_fundamental_div_mod_converse(ra, base, sa, a.w1 as int);
    vstd::arithmetic::div_mod::lemma_fundamental_div_mod_converse(rb, base, sb, b.w1 as int);
    vstd::arithmetic::div_mod::lemma_fundamental_div_mod_converse(
        sa,
        base,
        a.w3 as int,
        a.w2 as int,
    );
    vstd::arithmetic::div_mod::lemma_fundamental_div_mod_converse(
        sb,
        base,
        b.w3 as int,
        b.w2 as int,
    );
}

/// The initial estimate `n / 2 + 1` lies above the integer square root.
proof fn lemma_isqrt_start(n: int, x: int)
    requires
        1 <= n,
        x == n / 2 + 1,
    ensures
        (x + 1) * (x + 1) > n,
        1 <= x,
{
    vstd::arithmetic::div_mod::lemma_fundamental_div_mod(n, 2);
    assert(2 * x >= n + 1);
    assert((x + 1) * (x + 1) > 2 * x) by (nonlinear_arith);
}

/// One Newton step keeps the estimate above the integer square root.
proof fn lemma_isqrt_step(n: int, x: int, q: int, xp: int)
    requires
        1 <= x,
        0 <= n,
        q == n / x,
        xp == (x + q) / 2,
    ensures
        (xp + 1) * (xp + 1) > n,
{
    vstd::arithmetic::div_mod::lemma_fundamental_div_mod(n, x);
    vstd::arithmetic::div_mod::lemma_mod_bound(n, x);
    assert(n < x * q + x) by {
        assert(n == x * q + n % x);
    }
    assert((x + q + 1) * (x + q + 1) == (x - q - 1) * (x - q - 1) + 4 * (x * q + x)) by (
    nonlinear_arith);
    assert((x - q - 1) * (x - q - 1) >= 0) by (nonlinear_arith);
    assert((x + q + 1) * (x + q + 1) > 4 * n);
    vstd::arithmetic::div_mod::lemma_fundamental_div_mod(x + q, 2);
    vstd::arithmetic::div_mod::lemma_mod_bound(x + q, 2);
    assert(2 * xp + 2 >= x + q + 1);
    assert(x + q + 1 >= 1);
    assert((2 * xp + 2) * (2 * xp + 2) >= (x + q + 1) * (x + q + 1)) by (nonlinear_arith)
        requires
            2 * xp + 2 >= x + q + 1,
            x + q + 1 >= 1,
    ;
    assert((2 * xp + 2) * (2 * xp + 2) == 4 * ((xp + 1) * (xp + 1))) by (nonlinear_arith);
}

/// When a Newton step stops shrinking, the estimate is the square root.
proof fn lemma_isqrt_stop(n: int, x: int, q: int, xp: int)
    requires
        1 <= x,
        0 <= n,
        q == n / x,
        xp == (x + q) / 2,
        xp >= x,
    ensures
        x * x <= n,
{
    if x * x > n {
        assert(n <= x * x - 1);
        vstd::arithmetic::div_mod::lemma_div_is_ordered(n, x * x - 1, x);
        assert((x * x - 1) / x == x - 1) by {
            assert(x * x - 1 == (x - 1) * x + (x - 1)) by (nonlinear_arith);
            vstd::arithmetic::div_mod::lemma_fundamental_div_mod_converse(
                x * x - 1,
                x,
                x - 1,
                x - 1,
            );
        }
        assert(q <= x - 1);
        vstd::arithmetic::div_mod::lemma_div_is_ordered(x + q, 2 * x - 1, 2);
        assert((2 * x - 1) / 2 == x - 1) by {
            vstd::arithmetic::div_mod::lemma_fundamental_div_mod_converse(2 * x - 1, 2, x - 1, 1);
        }
        assert(false);
    }
}

/// Product of two limb-sized values, which always fits in 128 bits.
fn mul_limbs(x: u128, y: u128) -> (r: u128)
    requires
        x < 0x1_0000_0000_0000_0000,
        y < 0x1_0000_0000_0000_0000,
    ensures
        r == x * y,
{
    proof {
        vstd::arithmetic::mul::lemma_mul_upper_bound(
            x as int,
            0xffff_ffff_ffff_ffff,
            y as int,
            0xffff_ffff_ffff_ffff,
        );
    }
    x * y
}

/// A four-limb value times a single factor, distributed over the limbs.
#[verifier::nonlinear]
proof fn lemma_horner_scale(y0: int, y1: int, y2: int, y3: int, x: int)
    ensures
        (y0 + 0x1_0000_0000_0000_0000 * (y1 + 0x1_0000_0000_0000_0000 * (y2
            + 0x1_0000_0000_0000_0000 * y3))) * x == y0 * x + 0x1_0000_0000_0000_0000 * (y1 * x
            + 0x1_0000_0000_0000_0000 * (y2 * x + 0x1_0000_0000_0000_0000 * (y3 * x))),
{
}

/// Propagating carries through the column sums of a limb product leaves the
/// total value unchanged: the columns regroup into eight limbs.
#[verifier::rlimit(100)]
proof fn lemma_carry_columns(
    q00: u128,
    q01: u128,
    q02: u128,
    q03: u128,
    q10: u128,
    q11: u128,
    q12: u128,
    q13: u128,
    q20: u128,
    q21: u128,
    q22: u128,
    q23: u128,
    q30: u128,
    q31: u128,
    q32: u128,
    q33: u128,
    s1: u128,
    s2: u128,
    s3: u128,
    s4: u128,
    s5: u128,
    s6: u128,
    s7: u128,
)
    requires
        s1 == (q01 % LIMB_BASE) + (q10 % LIMB_BASE) + (q00 / LIMB_BASE),
        s2 == (q02 % LIMB_BASE) + (q11 % LIMB_BASE) + (q20 % LIMB_BASE) + (q01 / LIMB_BASE) + (
        q10 / LIMB_BASE) + (s1 / LIMB_BASE),
        s3 == (q03 % LIMB_BASE) + (q12 % LIMB_BASE) + (q21 % LIMB_BASE) + (q30 % LIMB_BASE) + (
        q02 / LIMB_BASE) + (q11 / LIMB_BASE) + (q20 / LIMB_BASE) + (s2 / LIMB_BASE),
        s4 == (q13 % LIMB_BASE) + (q22 % LIMB_BASE) + (q31 % LIMB_BASE) + (q03 / LIMB_BASE) + (
        q12 / LIMB_BASE) + (q21 / LIMB_BASE) + (q30 / LIMB_BASE) + (s3 / LIMB_BASE),
        s5 == (q23 % LIMB_BASE) + (q32 % LIMB_BASE) + (q13 / LIMB_BASE) + (q22 / LIMB_BASE) + (
        q31 / LIMB_BASE) + (s4 / LIMB_BASE),
        s6 == (q33 % LIMB_BASE) + (q23 / LIMB_BASE) + (q32 / LIMB_BASE) + (s5 / LIMB_BASE),
        s7 == (q33 / LIMB_BASE) + (s6 / LIMB_BASE),
    ensures
        (q00 as int) + 0x1_0000_0000_0000_0000 * (((q01 + q10) as int) + 0x1_0000_0000_0000_0000
            * (((q02 + q11 + q20) as int) + 0x1_0000_0000_0000_0000 * (((q03 + q12 + q21
            + q30) as int) + 0x1_0000_0000_0000_0000 * (((q13 + q22 + q31) as int)
            + 0x1_0000_0000_0000_0000 * (((q23 + q32) as int) + 0x1_0000_0000_0000_0000 * (
        q33 as int)))))) == ((q00 % LIMB_BASE) as int) + 0x1_0000_0000_0000_0000 * (((s1
            % LIMB_BASE) as int) + 0x1_0000_0000_0000_0000 * (((s2 % LIMB_BASE) as int)
            + 0x1_0000_0000_0000_0000 * (((s3 % LIMB_BASE) as int) + 0x1_0000_0000_0000_0000 * (((
        s4 % LIMB_BASE) as int) + 0x1_0000_0000_0000_0000 * (((s5 % LIMB_BASE) as int)
            + 0x1_0000_0000_0000_0000 * (((s6 % LIMB_BASE) as int) + 0x1_0000_0000_0000_0000 * (
        s7 as int))))))),
{
}

/// Schoolbook expansion of a product of two four-limb values into columns
/// by total limb weight.
proof fn lemma_mul_expand(a0: int, a1: int, a2: int, a3: int, b0: int, b1: int, b2: int, b3: int)
    ensures
        (a0 + 0x1_0000_0000_0000_0000 * (a1 + 0x1_0000_0000_0000_0000 * (a2
            + 0x1_0000_0000_0000_0000 * a3))) * (b0 + 0x1_0000_0000_0000_0000 * (b1
            + 0x1_0000_0000_0000_0000 * (b2 + 0x1_0000_0000_0000_0000 * b3))) == a0 * b0
            + 0x1_0000_0000_0000_0000 * ((a0 * b1 + a1 * b0) + 0x1_0000_0000_0000_0000 * ((a0 * b2
            + a1 * b1 + a2 * b0) + 0x1_0000_0000_0000_0000 * ((a0 * b3 + a1 * b2 + a2 * b1 + a3
            * b0) + 0x1_0000_0000_0000_0000 * ((a1 * b3 + a2 * b2 + a3 * b1)
            + 0x1_0000_0000_0000_0000 * ((a2 * b3 + a3 * b2) + 0x1_0000_0000_0000_0000 * (a3
            * b3)))))),
{
    let bh = b0 + 0x1_0000_0000_0000_0000 * (b1 + 0x1_0000_0000_0000_0000 * (b2
        + 0x1_0000_0000_0000_0000 * b3));
    lemma_horner_scale(a0, a1, a2, a3, bh);
    lemma_horner_scale(b0, b1, b2, b3, a0);
    lemma_horner_scale(b0, b1, b2, b3, a1);
    lemma_horner_scale(b0, b1, b2, b3, a2);
    lemma_horner_scale(b0, b1, b2, b3, a3);
    assert(a0 * bh == bh * a0) by (nonlinear_arith);
    assert(a1 * bh == bh * a1) by (nonlinear_arith);
    assert(a2 * bh == bh * a2) by (nonlinear_arith);
    assert(a3 * bh == bh * a3) by (nonlinear_arith);
    assert(b0 * a0 == a0 * b0) by (nonlinear_arith);
    assert(b1 * a0 == a0 * b1) by (nonlinear_arith);
    assert(b2 * a0 == a0 * b2) by (nonlinear_arith);
    assert(b3 * a0 == a0 * b3) by (nonlinear_arith);
    assert(b0 * a1 == a1 * b0) by (nonlinear_arith);
    assert(b1 * a1 == a1 * b1) by (nonlinear_arith);
    assert(b2 * a1 == a1 * b2) by (nonlinear_arith);
    assert(b3 * a1 == a1 * b3) by (nonlinear_arith);
    assert(b0 * a2 == a2 * b0) by (nonlinear_arith);
    assert(b1 * a2 == a2 * b1) by (nonlinear_arith);
    assert(b2 * a2 == a2 * b2) by (nonlinear_arith);
    assert(b3 * a2 == a2 * b3) by (nonlinear_arith);
    assert(b0 * a3 == a3 * b0) by (nonlinear_arith);
    assert(b1 * a3 == a3 * b1) by (nonlinear_arith);
    assert(b2 * a3 == a3 * b2) by (nonlinear_arith);
    assert(b3 * a3 == a3 * b3) by (nonlinear_arith);
}

} // verus!
