//! Shared vocabulary of the swap curves: trade and rounding directions,
//! result records, the contract every curve implements, and the ceiling
//! division that keeps rounding on the pool's side.

use crate::errors::SwapError;
use crate::precise::PreciseNumber;
use vstd::prelude::*;

verus! {

/// Initial amount of pool tokens for a newly created pool, hard-coded to
/// something sensible given a maximum of u128.
pub const INITIAL_SWAP_POOL_AMOUNT: u128 = 1_000_000_000;

/// Number of token types in a pool; every curve here prices exactly two.
pub const TOKENS_IN_POOL: u128 = 2;

/// Helper function mapping a zero amount to a calculation failure.
pub fn map_zero_to_none(x: u128) -> (r: Option<u128>)
    ensures
        r == if x == 0 { Option::<u128>::None } else { Option::<u128>::Some(x) },
{
    if x == 0 {
        None
    } else {
        Some(x)
    }
}

/// The direction of a trade, since curves can be specialized to treat each
/// token differently (by adding offsets or weights).
#[derive(Clone, Copy, Debug, PartialEq, Eq, Structural)]
pub enum TradeDirection {
    /// Input token A, output token B
    AtoB,
    /// Input token B, output token A
    BtoA,
}

/// The direction to round a fractional intermediate result.  Floor is used
/// where rounding must favor the pool on a deposit, Ceiling where it must
/// favor the pool on a withdrawal.
#[derive(Clone, Copy, Debug, PartialEq, Eq, Structural)]
pub enum RoundDirection {
    /// Round the value down
    Floor,
    /// Round the value up
    Ceiling,
}

impl TradeDirection {
    /// The opposite direction of a trade: what `opposite` returns.
    pub open spec fn spec_opposite(self) -> TradeDirection {
        match self {
            TradeDirection::AtoB => TradeDirection::BtoA,
            TradeDirection::BtoA => TradeDirection::AtoB,
        }
    }

    /// Given a trade direction, gives the opposite direction of the trade.
    pub fn opposite(&self) -> (r: TradeDirection)
        ensures
            r == self.spec_opposite(),
    {
        match self {
            TradeDirection::AtoB => TradeDirection::BtoA,
            TradeDirection::BtoA => TradeDirection::AtoB,
        }
    }
}

/// Taking the opposite of a trade direction twice gives the direction
/// back, for both directions.
pub proof fn lemma_opposite_involution(direction: TradeDirection)
    ensures
        direction.spec_opposite().spec_opposite() == direction,
{
}

/// All results of swapping from a source token to a destination token.
#[derive(Clone, Copy, Debug, PartialEq, Eq, Structural)]
pub struct SwapWithoutFeesResult {
    /// Amount of source token swapped
    pub source_amount_swapped: u128,
    /// Amount of destination token swapped
    pub destination_amount_swapped: u128,
}

/// Paired trading-token amounts corresponding to a quantity of pool tokens.
#[derive(Clone, Copy, Debug, PartialEq, Eq, Structural)]
pub struct TradingTokenResult {
    /// Amount of token A
    pub token_a_amount: u128,
    /// Amount of token B
    pub token_b_amount: u128,
}

/// Trait for packing a curve configuration into a byte buffer, kept apart
/// from the pricing operations so that serialization stays at the caller's
/// edge.
pub trait DynPack {
    /// Write the configuration into the destination buffer.
    fn pack_into_slice(&self, dst: &mut Vec<u8>);
}

/// The contract every swap curve implements.  Each operation comes with a
/// spec function that pins its result down exactly; the executable methods
/// promise to compute it.
pub trait CurveCalculator: Sized {
    /// What the swap returns: the source amount consumed and the
    /// destination amount released, or a failure.
    spec fn spec_swap_without_fees(
        &self,
        source_amount: nat,
        swap_source_amount: nat,
        swap_destination_amount: nat,
        trade_direction: TradeDirection,
    ) -> Option<(nat, nat)>;

    /// Calculate how much destination token will be provided given an
    /// amount of source token.
    fn swap_without_fees(
        &self,
        source_amount: u128,
        swap_source_amount: u128,
        swap_destination_amount: u128,
        trade_direction: TradeDirection,
    ) -> (r: Option<SwapWithoutFeesResult>)
        ensures
            r is Some <==> self.spec_swap_without_fees(
                source_amount as nat,
                swap_source_amount as nat,
                swap_destination_amount as nat,
                trade_direction,
            ) is Some,
            r is Some ==> (
                r->Some_0.source_amount_swapped as nat,
                r->Some_0.destination_amount_swapped as nat,
            ) == self.spec_swap_without_fees(
                source_amount as nat,
                swap_source_amount as nat,
                swap_destination_amount as nat,
                trade_direction,
            )->Some_0,
    ;

    /// Get the supply for a new pool.
    fn new_pool_supply(&self) -> (r: u128)
        ensures
            r == INITIAL_SWAP_POOL_AMOUNT,
    ;

    /// What the pool-token conversion returns, as a pair of token A and
    /// token B amounts.
    spec fn spec_pool_tokens_to_trading_tokens(
        &self,
        pool_tokens: nat,
        pool_token_supply: nat,
        swap_token_a_amount: nat,
        swap_token_b_amount: nat,
        round_direction: RoundDirection,
    ) -> Option<(nat, nat)>;

    /// Get the amount of trading tokens for the given amount of pool
    /// tokens, provided the total trading tokens and supply of pool tokens.
    fn pool_tokens_to_trading_tokens(
        &self,
        pool_tokens: u128,
        pool_token_supply: u128,
        swap_token_a_amount: u128,
        swap_token_b_amount: u128,
        round_direction: RoundDirection,
    ) -> (r: Option<TradingTokenResult>)
        ensures
            r is Some <==> self.spec_pool_tokens_to_trading_tokens(
                pool_tokens as nat,
                pool_token_supply as nat,
                swap_token_a_amount as nat,
                swap_token_b_amount as nat,
                round_direction,
            ) is Some,
            r is Some ==> (r->Some_0.token_a_amount as nat, r->Some_0.token_b_amount as nat)
                == self.spec_pool_tokens_to_trading_tokens(
                pool_tokens as nat,
                pool_token_supply as nat,
                swap_token_a_amount as nat,
                swap_token_b_amount as nat,
                round_direction,
            )->Some_0,
    ;

    /// What a single-sided deposit mints.
    spec fn spec_deposit_single_token_type(
        &self,
        source_amount: nat,
        swap_token_a_amount: nat,
        swap_token_b_amount: nat,
        pool_supply: nat,
        trade_direction: TradeDirection,
    ) -> Option<nat>;

    /// Get the amount of pool tokens for the deposited amount of token A
    /// or B.  This is used for single-sided deposits; it essentially
    /// performs a swap followed by a deposit, so it changes the spot price
    /// of the pool.
    fn deposit_single_token_type(
        &self,
        source_amount: u128,
        swap_token_a_amount: u128,
        swap_token_b_amount: u128,
        pool_supply: u128,
        trade_direction: TradeDirection,
    ) -> (r: Option<u128>)
        ensures
            r is Some <==> self.spec_deposit_single_token_type(
                source_amount as nat,
                swap_token_a_amount as nat,
                swap_token_b_amount as nat,
                pool_supply as nat,
                trade_direction,
            ) is Some,
            r is Some ==> r->Some_0 as nat == self.spec_deposit_single_token_type(
                source_amount as nat,
                swap_token_a_amount as nat,
                swap_token_b_amount as nat,
                pool_supply as nat,
                trade_direction,
            )->Some_0,
    ;

    /// What a single-sided exact-out withdrawal burns.
    spec fn spec_withdraw_single_token_type_exact_out(
        &self,
        source_amount: nat,
        swap_token_a_amount: nat,
        swap_token_b_amount: nat,
        pool_supply: nat,
        trade_direction: TradeDirection,
    ) -> Option<nat>;

    /// Get the amount of pool tokens for the withdrawn amount of token A
    /// or B.  This is used for single-sided withdrawals and owner trade
    /// fee calculation; it essentially performs a withdrawal followed by a
    /// swap, so it changes the spot price of the pool.
    fn withdraw_single_token_type_exact_out(
        &self,
        source_amount: u128,
        swap_token_a_amount: u128,
        swap_token_b_amount: u128,
        pool_supply: u128,
        trade_direction: TradeDirection,
    ) -> (r: Option<u128>)
        ensures
            r is Some <==> self.spec_withdraw_single_token_type_exact_out(
                source_amount as nat,
                swap_token_a_amount as nat,
                swap_token_b_amount as nat,
                pool_supply as nat,
                trade_direction,
            ) is Some,
            r is Some ==> r->Some_0 as nat == self.spec_withdraw_single_token_type_exact_out(
                source_amount as nat,
                swap_token_a_amount as nat,
                swap_token_b_amount as nat,
                pool_supply as nat,
                trade_direction,
            )->Some_0,
    ;

    /// Whether the curve's parameters are acceptable.
    spec fn spec_validate(&self) -> bool;

    /// Validate that the given curve has no invalid parameters.
    fn validate(&self) -> (r: Result<(), SwapError>)
        ensures
            r is Ok <==> self.spec_validate(),
            r is Err ==> r->Err_0 == SwapError::InvalidCurve,
    ;

    /// Whether the given initial reserves are acceptable.
    spec fn spec_validate_supply(&self, token_a_amount: u64, token_b_amount: u64) -> bool;

    /// Validate the given supply on initialization.  This is useful for
    /// curves that allow zero supply on one or both sides, since the
    /// standard constant product curve must have a non-zero supply on both
    /// sides.
    fn validate_supply(&self, token_a_amount: u64, token_b_amount: u64) -> (r: Result<
        (),
        SwapError,
    >)
        ensures
            r is Ok <==> self.spec_validate_supply(token_a_amount, token_b_amount),
            r is Err ==> r->Err_0 == SwapError::EmptySupply,
    ;

    /// Whether deposits are allowed after initialization.
    spec fn spec_allows_deposits(&self) -> bool;

    /// Some curves function best and prevent attacks if we prevent
    /// deposits after initialization.
    fn allows_deposits(&self) -> (r: bool)
        ensures
            r == self.spec_allows_deposits(),
    ;

    /// What the normalized value is, as an inner fixed-point value.
    spec fn spec_normalized_value(
        &self,
        swap_token_a_amount: nat,
        swap_token_b_amount: nat,
    ) -> Option<nat>;

    /// Calculates the total normalized value of the curve given the
    /// liquidity parameters.  The value has the dimension of a single
    /// token, so curves with a product invariant take a square root; it is
    /// the measure under which no trade may lose the pool value.
    fn normalized_value(&self, swap_token_a_amount: u128, swap_token_b_amount: u128) -> (r: Option<
        PreciseNumber,
    >)
        ensures
            r is Some <==> self.spec_normalized_value(
                swap_token_a_amount as nat,
                swap_token_b_amount as nat,
            ) is Some,
            r is Some ==> r->Some_0.as_nat() == self.spec_normalized_value(
                swap_token_a_amount as nat,
                swap_token_b_amount as nat,
            )->Some_0,
    ;
}

/// What checked ceiling division returns: the ceiling of the quotient,
/// paired with the smallest divisor that still yields that quotient.  It
/// fails on a zero divisor and on a quotient that would floor to zero.
pub open spec fn spec_ceil_div(lhs: nat, rhs: nat) -> Option<(nat, nat)> {
    if rhs == 0 || lhs / rhs == 0 {
        None
    } else if lhs % rhs == 0 {
        Some((lhs / rhs, rhs))
    } else {
        let q = lhs / rhs + 1;
        if lhs % q == 0 {
            Some((q, lhs / q))
        } else {
            Some((q, lhs / q + 1))
        }
    }
}

/// Ceiling division that also reports the minimum divisor yielding the same
/// ceiled quotient, so a swap can trim the source amount it consumes.
/// Fails on a zero divisor and on a quotient that would floor to zero.
pub fn checked_ceil_div(lhs: u128, rhs: u128) -> (r: Option<(u128, u128)>)
    ensures
        r is Some <==> spec_ceil_div(lhs as nat, rhs as nat) is Some,
        r is Some ==> (r->Some_0.0 as nat, r->Some_0.1 as nat) == spec_ceil_div(
            lhs as nat,
            rhs as nat,
        )->Some_0,
        r is Some ==> ({
            let (q, d) = r->Some_0;
            &&& q * rhs >= lhs
            &&& q >= 1
            &&& d <= rhs
            &&& q * d >= lhs
        }),
{
    if rhs == 0 {
        return None;
    }
    let mut quotient = lhs / rhs;
    // Avoid dividing a small number by a big one and returning 1, and
    // instead fail.
    if quotient == 0 {
        return None;
    }
    let remainder = lhs % rhs;
    let mut divisor = rhs;
    if remainder > 0 {
        proof {
            assert(rhs >= 2);
            vstd::arithmetic::div_mod::lemma_div_is_ordered_by_denominator(lhs as int, 2, rhs as int);
        }
        quotient = quotient + 1;
        // Calculate the minimum divisor needed to get the quotient, to avoid
        // truncating too much of the source amount.
        divisor = lhs / quotient;
        let r2 = lhs % quotient;
        if r2 > 0 {
            proof {
                vstd::arithmetic::div_mod::lemma_div_is_ordered_by_denominator(
                    lhs as int,
                    2,
                    quotient as int,
                );
            }
            divisor = divisor + 1;
        }
    }
    proof {
        lemma_ceil_div_bounds(lhs as int, rhs as int, quotient as int, divisor as int);
    }
    Some((quotient, divisor))
}

/// A successful ceiling division covers its dividend: the quotient times
/// either the original divisor or the adjusted one is at least the
/// dividend, and the adjusted divisor never exceeds the original.
pub proof fn lemma_ceil_div_covers(lhs: nat, rhs: nat)
    requires
        spec_ceil_div(lhs, rhs) is Some,
    ensures
        ({
            let (q, d) = spec_ceil_div(lhs, rhs)->Some_0;
            &&& q * d >= lhs
            &&& q * rhs >= lhs
            &&& 1 <= q
            &&& d <= rhs
        }),
{
    let (q, d) = spec_ceil_div(lhs, rhs)->Some_0;
    lemma_ceil_div_bounds(lhs as int, rhs as int, q as int, d as int);
}

/// The ceiled quotient covers the dividend, and so does the adjusted
/// divisor paired with it.
proof fn lemma_ceil_div_bounds(l: int, r: int, q: int, d: int)
    requires
        l >= 0,
        r > 0,
        l / r > 0,
        l % r == 0 ==> q == l / r && d == r,
        l % r != 0 ==> q == l / r + 1 && (l % q == 0 ==> d == l / q) && (l % q != 0 ==> d == l / q
            + 1),
    ensures
        q * r >= l,
        q >= 1,
        d <= r,
        q * d >= l,
{
    vstd::arithmetic::div_mod::lemma_fundamental_div_mod(l, r);
    assert(l == r * (l / r) + l % r);
    vstd::arithmetic::mul::lemma_mul_is_commutative(q, r);
    if l % r == 0 {
        assert(q * r == r * (l / r));
        assert(q * d >= l);
    } else {
        assert(q * r == r * (l / r) + r) by {
            vstd::arithmetic::mul::lemma_mul_is_distributive_add(r, l / r, 1);
            vstd::arithmetic::mul::lemma_mul_is_commutative(q, r);
        }
        assert(q * r >= l);
        vstd::arithmetic::div_mod::lemma_fundamental_div_mod(l, q);
        assert(l == q * (l / q) + l % q);
        vstd::arithmetic::mul::lemma_mul_is_commutative(q, d);
        if l % q == 0 {
            assert(q * d >= l);
        } else {
            assert(q * d == q * (l / q) + q) by {
                vstd::arithmetic::mul::lemma_mul_is_distributive_add(q, l / q, 1);
            }
            assert(l % q < q) by {
                vstd::arithmetic::div_mod::lemma_mod_bound(l, q);
            }
            assert(q * d >= l);
        }
        // d <= rhs: the quotient grew, so the matching divisor shrank
        assert(d <= r) by {
            if d > r {
                assert(l / q >= r);
                vstd::arithmetic::div_mod::lemma_fundamental_div_mod(l, q);
                vstd::arithmetic::mul::lemma_mul_inequality(r, l / q, q);
                assert(q * (l / q) >= q * r) by {
                    vstd::arithmetic::mul::lemma_mul_is_commutative(q, l / q);
                    vstd::arithmetic::mul::lemma_mul_is_commutative(q, r);
                }
                assert(l >= q * r);
                assert(q * r > l);
            }
        }
    }
}

} // verus!
