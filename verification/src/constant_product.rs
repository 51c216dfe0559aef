//! The constant-product curve: `reserve_in * reserve_out = k`.
//!
//! The swap keeps the product of the reserves from shrinking by ceiling
//! division on the output side; deposits and withdrawals of a single token
//! use square-root formulas with rounding fixed in the pool's favor.  The
//! free functions are shared with the offset curve, which calls them on
//! shifted reserves.

use crate::calculator::RoundDirection;
use crate::calculator::SwapWithoutFeesResult;
use crate::calculator::TradeDirection;
use crate::calculator::TradingTokenResult;
use crate::calculator::checked_ceil_div;
use crate::calculator::map_zero_to_none;
use crate::calculator::spec_ceil_div;
use crate::precise::PreciseNumber;
use crate::precise::pn_add;
use crate::precise::pn_ceiling;
use crate::precise::pn_div;
use crate::precise::pn_floor;
use crate::precise::pn_mul;
use crate::precise::pn_new;
use crate::precise::pn_sqrt;
use crate::precise::pn_sub;
use crate::precise::pn_to_imprecise;
use vstd::prelude::*;

verus! {

/// The curve with the Uniswap-style invariant.
#[derive(Clone, Copy, Debug, Default, PartialEq, Eq, Structural)]
pub struct ConstantProductCurve;

/// What a constant-product swap returns: the source amount actually
/// consumed and the destination amount released, or a failure on overflow
/// or when no destination token would move.
pub open spec fn spec_swap(
    source_amount: nat,
    swap_source_amount: nat,
    swap_destination_amount: nat,
) -> Option<(nat, nat)> {
    let invariant_product = swap_source_amount * swap_destination_amount;
    if invariant_product > u128::MAX {
        None
    } else if swap_source_amount + source_amount > u128::MAX {
        None
    } else {
        match spec_ceil_div(invariant_product, swap_source_amount + source_amount) {
            None => None,
            Some((new_destination, new_source)) => {
                if new_source < swap_source_amount {
                    None
                } else if swap_destination_amount < new_destination {
                    None
                } else if swap_destination_amount == new_destination {
                    None
                } else {
                    Some(
                        (
                            (new_source - swap_source_amount) as nat,
                            (swap_destination_amount - new_destination) as nat,
                        ),
                    )
                }
            },
        }
    }
}

/// The constant product swap calculation, factored out of its type for
/// reuse by the offset curve.
pub fn swap(
    source_amount: u128,
    swap_source_amount: u128,
    swap_destination_amount: u128,
) -> (r: Option<SwapWithoutFeesResult>)
    ensures
        r is Some <==> spec_swap(
            source_amount as nat,
            swap_source_amount as nat,
            swap_destination_amount as nat,
        ) is Some,
        r is Some ==> (
            r->Some_0.source_amount_swapped as nat,
            r->Some_0.destination_amount_swapped as nat,
        ) == spec_swap(
            source_amount as nat,
            swap_source_amount as nat,
            swap_destination_amount as nat,
        )->Some_0,
{
    let invariant_product = swap_source_amount.checked_mul(swap_destination_amount)?;
    let new_source_ceiling = swap_source_amount.checked_add(source_amount)?;
    let (new_swap_destination_amount, new_swap_source_amount) = checked_ceil_div(
        invariant_product,
        new_source_ceiling,
    )?;
    let source_amount_swapped = new_swap_source_amount.checked_sub(swap_source_amount)?;
    let destination_amount_swapped = map_zero_to_none(
        swap_destination_amount.checked_sub(new_swap_destination_amount)?,
    )?;
    Some(SwapWithoutFeesResult { source_amount_swapped, destination_amount_swapped })
}

/// What the pool-token conversion returns for each side: the proportional
/// share, with Ceiling adding one unit on a non-zero remainder only when
/// the floored share is itself non-zero.
pub open spec fn spec_pool_tokens_to_trading_tokens(
    pool_tokens: nat,
    pool_token_supply: nat,
    swap_token_a_amount: nat,
    swap_token_b_amount: nat,
    round_direction: RoundDirection,
) -> Option<(nat, nat)> {
    if pool_tokens * swap_token_a_amount > u128::MAX || pool_tokens * swap_token_b_amount
        > u128::MAX || pool_token_supply == 0 {
        None
    } else {
        let token_a_amount = pool_tokens * swap_token_a_amount / pool_token_supply;
        let token_b_amount = pool_tokens * swap_token_b_amount / pool_token_supply;
        match round_direction {
            RoundDirection::Floor => Some((token_a_amount, token_b_amount)),
            RoundDirection::Ceiling => {
                let token_a_rounded = if pool_tokens * swap_token_a_amount % pool_token_supply > 0
                    && token_a_amount > 0 {
                    token_a_amount + 1
                } else {
                    token_a_amount
                };
                let token_b_rounded = if pool_tokens * swap_token_b_amount % pool_token_supply > 0
                    && token_b_amount > 0 {
                    token_b_amount + 1
                } else {
                    token_b_amount
                };
                Some((token_a_rounded, token_b_rounded))
            },
        }
    }
}

/// Get the amount of trading tokens for the given amount of pool tokens,
/// provided the total trading tokens and supply of pool tokens: a simple
/// ratio calculation for how many trading tokens correspond to a certain
/// number of pool tokens.
pub fn pool_tokens_to_trading_tokens(
    pool_tokens: u128,
    pool_token_supply: u128,
    swap_token_a_amount: u128,
    swap_token_b_amount: u128,
    round_direction: RoundDirection,
) -> (r: Option<TradingTokenResult>)
    ensures
        r is Some <==> spec_pool_tokens_to_trading_tokens(
            pool_tokens as nat,
            pool_token_supply as nat,
            swap_token_a_amount as nat,
            swap_token_b_amount as nat,
            round_direction,
        ) is Some,
        r is Some ==> (r->Some_0.token_a_amount as nat, r->Some_0.token_b_amount as nat)
            == spec_pool_tokens_to_trading_tokens(
            pool_tokens as nat,
            pool_token_supply as nat,
            swap_token_a_amount as nat,
            swap_token_b_amount as nat,
            round_direction,
        )->Some_0,
{
    let product_a = pool_tokens.checked_mul(swap_token_a_amount)?;
    let product_b = pool_tokens.checked_mul(swap_token_b_amount)?;
    if pool_token_supply == 0 {
        return None;
    }
    let mut token_a_amount = product_a / pool_token_supply;
    let mut token_b_amount = product_b / pool_token_supply;
    match round_direction {
        RoundDirection::Floor => Some(TradingTokenResult { token_a_amount, token_b_amount }),
        RoundDirection::Ceiling => {
            let token_a_remainder = product_a % pool_token_supply;
            if token_a_remainder > 0 && token_a_amount > 0 {
                proof {
                    lemma_share_bump_fits(product_a as int, pool_token_supply as int);
                }
                token_a_amount = token_a_amount + 1;
            }
            let token_b_remainder = product_b % pool_token_supply;
            if token_b_remainder > 0 && token_b_amount > 0 {
                proof {
                    lemma_share_bump_fits(product_b as int, pool_token_supply as int);
                }
                token_b_amount = token_b_amount + 1;
            }
            Some(TradingTokenResult { token_a_amount, token_b_amount })
        },
    }
}

/// A floored share with a non-zero remainder sits strictly below its
/// dividend, so adding one never overflows.
proof fn lemma_share_bump_fits(product: int, supply: int)
    requires
        0 <= product <= u128::MAX,
        supply > 0,
        product % supply > 0,
    ensures
        product / supply + 1 <= u128::MAX,
{
    vstd::arithmetic::div_mod::lemma_fundamental_div_mod(product, supply);
    vstd::arithmetic::div_mod::lemma_mod_bound(product, supply);
    assert(supply >= 2) by {
        if supply == 1 {
            vstd::arithmetic::div_mod::lemma_fundamental_div_mod_converse(product, 1, product, 0);
        }
    }
    vstd::arithmetic::div_mod::lemma_div_is_ordered_by_denominator(product, 2, supply);
    assert(product / 2 <= u128::MAX / 2) by {
        vstd::arithmetic::div_mod::lemma_div_is_ordered(product, u128::MAX as int, 2);
    }
}

/// What a single-sided deposit mints, over inner fixed-point values:
/// `pool_supply * (sqrt(1 + source / reserve) - 1)`, rounded as directed
/// and narrowed to the public width.
pub open spec fn spec_deposit_single_token_type(
    source_amount: nat,
    swap_token_a_amount: nat,
    swap_token_b_amount: nat,
    pool_supply: nat,
    trade_direction: TradeDirection,
    round_direction: RoundDirection,
) -> Option<nat> {
    let swap_source_amount = match trade_direction {
        TradeDirection::AtoB => swap_token_a_amount,
        TradeDirection::BtoA => swap_token_b_amount,
    };
    match pn_div(pn_new(source_amount), pn_new(swap_source_amount)) {
        None => None,
        Some(ratio) => match pn_add(pn_new(1), ratio) {
            None => None,
            Some(base) => match pn_sqrt(base) {
                None => None,
                Some(root) => match pn_sub(root, pn_new(1)) {
                    None => None,
                    Some(growth) => match pn_mul(pn_new(pool_supply), growth) {
                        None => None,
                        Some(pool_tokens) => spec_round_to_imprecise(pool_tokens, round_direction),
                    },
                },
            },
        },
    }
}

/// Rounding an inner fixed-point value to a whole number of tokens, per the
/// requested direction.
pub open spec fn spec_round_to_imprecise(
    pool_tokens: nat,
    round_direction: RoundDirection,
) -> Option<nat> {
    match round_direction {
        RoundDirection::Floor => pn_to_imprecise(pn_floor(pool_tokens)),
        RoundDirection::Ceiling => match pn_ceiling(pool_tokens) {
            None => None,
            Some(c) => pn_to_imprecise(c),
        },
    }
}

/// Get the amount of pool tokens for the deposited amount of token A or B:
/// the Balancer formula for two tokens, each weighted at one half.
pub fn deposit_single_token_type(
    source_amount: u128,
    swap_token_a_amount: u128,
    swap_token_b_amount: u128,
    pool_supply: u128,
    trade_direction: TradeDirection,
    round_direction: RoundDirection,
) -> (r: Option<u128>)
    ensures
        r is Some <==> spec_deposit_single_token_type(
            source_amount as nat,
            swap_token_a_amount as nat,
            swap_token_b_amount as nat,
            pool_supply as nat,
            trade_direction,
            round_direction,
        ) is Some,
        r is Some ==> r->Some_0 as nat == spec_deposit_single_token_type(
            source_amount as nat,
            swap_token_a_amount as nat,
            swap_token_b_amount as nat,
            pool_supply as nat,
            trade_direction,
            round_direction,
        )->Some_0,
{
    let swap_source_amount = match trade_direction {
        TradeDirection::AtoB => swap_token_a_amount,
        TradeDirection::BtoA => swap_token_b_amount,
    };
    let swap_source_amount = PreciseNumber::new(swap_source_amount)?;
    let source_amount = PreciseNumber::new(source_amount)?;
    let ratio = source_amount.checked_div(&swap_source_amount)?;
    let one = PreciseNumber::new(1)?;
    let base = one.checked_add(&ratio)?;
    let root = base.sqrt()?.checked_sub(&one)?;
    let pool_supply = PreciseNumber::new(pool_supply)?;
    let pool_tokens = pool_supply.checked_mul(&root)?;
    match round_direction {
        RoundDirection::Floor => pool_tokens.floor()?.to_imprecise(),
        RoundDirection::Ceiling => pool_tokens.ceiling()?.to_imprecise(),
    }
}

/// What a single-sided withdrawal burns, over inner fixed-point values:
/// `pool_supply * (1 - sqrt(1 - source / reserve))`, rounded as directed
/// and narrowed to the public width.
pub open spec fn spec_withdraw_single_token_type_exact_out(
    source_amount: nat,
    swap_token_a_amount: nat,
    swap_token_b_amount: nat,
    pool_supply: nat,
    trade_direction: TradeDirection,
    round_direction: RoundDirection,
) -> Option<nat> {
    let swap_source_amount = match trade_direction {
        TradeDirection::AtoB => swap_token_a_amount,
        TradeDirection::BtoA => swap_token_b_amount,
    };
    match pn_div(pn_new(source_amount), pn_new(swap_source_amount)) {
        None => None,
        Some(ratio) => match pn_sub(pn_new(1), ratio) {
            None => None,
            Some(base) => match pn_sqrt(base) {
                None => None,
                Some(root) => match pn_sub(pn_new(1), root) {
                    None => None,
                    Some(loss) => match pn_mul(pn_new(pool_supply), loss) {
                        None => None,
                        Some(pool_tokens) => spec_round_to_imprecise(pool_tokens, round_direction),
                    },
                },
            },
        },
    }
}

/// Get the amount of pool tokens for the withdrawn amount of token A or B:
/// the Balancer formula for two tokens, each weighted at one half.
pub fn withdraw_single_token_type_exact_out(
    source_amount: u128,
    swap_token_a_amount: u128,
    swap_token_b_amount: u128,
    pool_supply: u128,
    trade_direction: TradeDirection,
    round_direction: RoundDirection,
) -> (r: Option<u128>)
    ensures
        r is Some <==> spec_withdraw_single_token_type_exact_out(
            source_amount as nat,
            swap_token_a_amount as nat,
            swap_token_b_amount as nat,
            pool_supply as nat,
            trade_direction,
            round_direction,
        ) is Some,
        r is Some ==> r->Some_0 as nat == spec_withdraw_single_token_type_exact_out(
            source_amount as nat,
            swap_token_a_amount as nat,
            swap_token_b_amount as nat,
            pool_supply as nat,
            trade_direction,
            round_direction,
        )->Some_0,
{
    let swap_source_amount = match trade_direction {
        TradeDirection::AtoB => swap_token_a_amount,
        TradeDirection::BtoA => swap_token_b_amount,
    };
    let swap_source_amount = PreciseNumber::new(swap_source_amount)?;
    let source_amount = PreciseNumber::new(source_amount)?;
    let ratio = source_amount.checked_div(&swap_source_amount)?;
    let one = PreciseNumber::new(1)?;
    let base = one.checked_sub(&ratio)?;
    let root = one.checked_sub(&base.sqrt()?)?;
    let pool_supply = PreciseNumber::new(pool_supply)?;
    let pool_tokens = pool_supply.checked_mul(&root)?;
    match round_direction {
        RoundDirection::Floor => pool_tokens.floor()?.to_imprecise(),
        RoundDirection::Ceiling => pool_tokens.ceiling()?.to_imprecise(),
    }
}

/// What the normalized value is, over inner fixed-point values: the square
/// root of the product of the reserves.
pub open spec fn spec_normalized_value(
    swap_token_a_amount: nat,
    swap_token_b_amount: nat,
) -> Option<nat> {
    match pn_mul(pn_new(swap_token_a_amount), pn_new(swap_token_b_amount)) {
        None => None,
        Some(product) => pn_sqrt(product),
    }
}

/// Calculates the total normalized value of the curve given the liquidity
/// parameters: the square root of the Uniswap invariant.
pub fn normalized_value(
    swap_token_a_amount: u128,
    swap_token_b_amount: u128,
) -> (r: Option<PreciseNumber>)
    ensures
        r is Some <==> spec_normalized_value(
            swap_token_a_amount as nat,
            swap_token_b_amount as nat,
        ) is Some,
        r is Some ==> r->Some_0.as_nat() == spec_normalized_value(
            swap_token_a_amount as nat,
            swap_token_b_amount as nat,
        )->Some_0,
{
    let swap_token_a_amount = PreciseNumber::new(swap_token_a_amount)?;
    let swap_token_b_amount = PreciseNumber::new(swap_token_b_amount)?;
    swap_token_a_amount.checked_mul(&swap_token_b_amount)?.sqrt()
}

/// A successful swap moves at least one destination token, consumes no
/// more than the offered source amount, and never shrinks the product of
/// the reserves: the pool's invariant can only grow or stay equal.  The
/// offset curve inherits this law at its shifted reserves, since its swap
/// is this one on `reserve_b + offset`.
pub proof fn lemma_swap_never_shrinks_invariant(
    source_amount: nat,
    swap_source_amount: nat,
    swap_destination_amount: nat,
)
    requires
        spec_swap(source_amount, swap_source_amount, swap_destination_amount) is Some,
    ensures
        ({
            let (source_swapped, destination_swapped) = spec_swap(
                source_amount,
                swap_source_amount,
                swap_destination_amount,
            )->Some_0;
            &&& 1 <= destination_swapped <= swap_destination_amount
            &&& source_swapped <= source_amount
            &&& (swap_source_amount + source_swapped) * (swap_destination_amount
                - destination_swapped) >= swap_source_amount * swap_destination_amount
        }),
{
    let invariant_product = swap_source_amount * swap_destination_amount;
    let new_source_ceiling = swap_source_amount + source_amount;
    let (new_destination, new_source) = crate::calculator::spec_ceil_div(
        invariant_product,
        new_source_ceiling,
    )->Some_0;
    crate::calculator::lemma_ceil_div_covers(invariant_product, new_source_ceiling);
    vstd::arithmetic::mul::lemma_mul_is_commutative(new_destination as int, new_source as int);
}

/// The pool's normalized value never decreases across a swap: whenever
/// the value measure is defined on the reserves before and after, the
/// value after is at least the value before.
pub proof fn lemma_swap_conserves_normalized_value(
    source_amount: nat,
    swap_source_amount: nat,
    swap_destination_amount: nat,
)
    requires
        spec_swap(source_amount, swap_source_amount, swap_destination_amount) is Some,
        spec_normalized_value(swap_source_amount, swap_destination_amount) is Some,
        ({
            let (source_swapped, destination_swapped) = spec_swap(
                source_amount,
                swap_source_amount,
                swap_destination_amount,
            )->Some_0;
            spec_normalized_value(
                swap_source_amount + source_swapped,
                (swap_destination_amount - destination_swapped) as nat,
            ) is Some
        }),
    ensures
        ({
            let (source_swapped, destination_swapped) = spec_swap(
                source_amount,
                swap_source_amount,
                swap_destination_amount,
            )->Some_0;
            spec_normalized_value(
                swap_source_amount + source_swapped,
                (swap_destination_amount - destination_swapped) as nat,
            )->Some_0 >= spec_normalized_value(
                swap_source_amount,
                swap_destination_amount,
            )->Some_0
        }),
{
    let (source_swapped, destination_swapped) = spec_swap(
        source_amount,
        swap_source_amount,
        swap_destination_amount,
    )->Some_0;
    lemma_swap_never_shrinks_invariant(
        source_amount,
        swap_source_amount,
        swap_destination_amount,
    );
    let s1 = swap_source_amount;
    let d1 = swap_destination_amount;
    let s2 = swap_source_amount + source_swapped;
    let d2 = (swap_destination_amount - destination_swapped) as nat;
    let scale = crate::precise::ONE as int;
    assert((s1 * scale) * (d1 * scale) == (s1 * d1) * (scale * scale)) by (nonlinear_arith);
    assert((s2 * scale) * (d2 * scale) == (s2 * d2) * (scale * scale)) by (nonlinear_arith);
    assert((s1 * d1) * (scale * scale) <= (s2 * d2) * (scale * scale)) by (nonlinear_arith)
        requires
            s1 * d1 <= s2 * d2,
    ;
    let m1 = crate::precise::pn_mul(pn_new(s1), pn_new(d1))->Some_0;
    let m2 = crate::precise::pn_mul(pn_new(s2), pn_new(d2))->Some_0;
    assert(m1 <= m2) by {
        vstd::arithmetic::div_mod::lemma_div_is_ordered(
            (s1 * scale) * (d1 * scale) + crate::precise::HALF_ONE,
            (s2 * scale) * (d2 * scale) + crate::precise::HALF_ONE,
            scale,
        );
    }
    crate::wide::lemma_nat_sqrt_monotone((m1 * scale) as nat, (m2 * scale) as nat);
}

/// The normalized value is monotone in both reserves: growing either side
/// never shrinks it.  In particular a two-sided deposit, which adds tokens
/// to both reserves, never decreases the pool's value.
pub proof fn lemma_normalized_value_monotone(
    token_a_before: nat,
    token_b_before: nat,
    token_a_after: nat,
    token_b_after: nat,
)
    requires
        token_a_before <= token_a_after,
        token_b_before <= token_b_after,
        spec_normalized_value(token_a_after, token_b_after) is Some,
    ensures
        spec_normalized_value(token_a_before, token_b_before) is Some,
        spec_normalized_value(token_a_before, token_b_before)->Some_0 <= spec_normalized_value(
            token_a_after,
            token_b_after,
        )->Some_0,
{
    let scale = crate::precise::ONE as int;
    let a1 = token_a_before;
    let b1 = token_b_before;
    let a2 = token_a_after;
    let b2 = token_b_after;
    assert((a1 * scale) * (b1 * scale) <= (a2 * scale) * (b2 * scale)) by (nonlinear_arith)
        requires
            a1 <= a2,
            b1 <= b2,
            scale > 0,
    ;
    vstd::arithmetic::div_mod::lemma_div_is_ordered(
        (a1 * scale) * (b1 * scale) + crate::precise::HALF_ONE,
        (a2 * scale) * (b2 * scale) + crate::precise::HALF_ONE,
        scale,
    );
    let m1 = crate::precise::pn_mul(pn_new(a1), pn_new(b1))->Some_0;
    let m2 = crate::precise::pn_mul(pn_new(a2), pn_new(b2))->Some_0;
    crate::wide::lemma_nat_sqrt_monotone((m1 * scale) as nat, (m2 * scale) as nat);
}

/// Ceiling rounding of the pool-token conversion succeeds exactly when
/// Floor rounding does, each ceiled side is the floored side or one more,
/// and a side whose floored share is zero is never rounded up: the
/// conversion cannot conjure tokens out of an empty share.
pub proof fn lemma_conversion_rounding_monotone(
    pool_tokens: nat,
    pool_token_supply: nat,
    swap_token_a_amount: nat,
    swap_token_b_amount: nat,
)
    requires
        spec_pool_tokens_to_trading_tokens(
            pool_tokens,
            pool_token_supply,
            swap_token_a_amount,
            swap_token_b_amount,
            RoundDirection::Floor,
        ) is Some,
    ensures
        spec_pool_tokens_to_trading_tokens(
            pool_tokens,
            pool_token_supply,
            swap_token_a_amount,
            swap_token_b_amount,
            RoundDirection::Ceiling,
        ) is Some,
        ({
            let (floor_a, floor_b) = spec_pool_tokens_to_trading_tokens(
                pool_tokens,
                pool_token_supply,
                swap_token_a_amount,
                swap_token_b_amount,
                RoundDirection::Floor,
            )->Some_0;
            let (ceiling_a, ceiling_b) = spec_pool_tokens_to_trading_tokens(
                pool_tokens,
                pool_token_supply,
                swap_token_a_amount,
                swap_token_b_amount,
                RoundDirection::Ceiling,
            )->Some_0;
            &&& floor_a <= ceiling_a <= floor_a + 1
            &&& floor_b <= ceiling_b <= floor_b + 1
            &&& (floor_a == 0 ==> ceiling_a == 0)
            &&& (floor_b == 0 ==> ceiling_b == 0)
        }),
{
}

/// Rounding a fixed-point pool-token amount up to whole tokens never gives
/// less than rounding it down: whenever the Ceiling direction succeeds,
/// the Floor direction does too, and its result is no larger.
pub proof fn lemma_round_to_imprecise_monotone(pool_tokens: nat)
    requires
        spec_round_to_imprecise(pool_tokens, RoundDirection::Ceiling) is Some,
    ensures
        spec_round_to_imprecise(pool_tokens, RoundDirection::Floor) is Some,
        spec_round_to_imprecise(pool_tokens, RoundDirection::Floor)->Some_0
            <= spec_round_to_imprecise(pool_tokens, RoundDirection::Ceiling)->Some_0,
{
    let unit = crate::precise::ONE as int;
    let floored = crate::precise::pn_floor(pool_tokens);
    let ceiled = crate::precise::pn_ceiling(pool_tokens)->Some_0;
    assert(floored <= ceiled) by {
        vstd::arithmetic::div_mod::lemma_div_is_ordered(
            pool_tokens as int,
            pool_tokens + unit - 1,
            unit,
        );
        vstd::arithmetic::mul::lemma_mul_inequality(
            (pool_tokens as int / unit),
            ((pool_tokens + unit - 1) / unit),
            unit,
        );
    }
    assert((floored + crate::precise::HALF_ONE) as int / unit <= (ceiled
        + crate::precise::HALF_ONE) as int / unit) by {
        vstd::arithmetic::div_mod::lemma_div_is_ordered(
            (floored + crate::precise::HALF_ONE) as int,
            (ceiled + crate::precise::HALF_ONE) as int,
            unit,
        );
    }
}

/// The whole single-sided deposit inherits the rounding order: with the
/// same inputs, the Ceiling direction never mints less than the Floor
/// direction, and whenever Ceiling succeeds, Floor does too.
pub proof fn lemma_deposit_rounding_monotone(
    source_amount: nat,
    swap_token_a_amount: nat,
    swap_token_b_amount: nat,
    pool_supply: nat,
    trade_direction: TradeDirection,
)
    requires
        spec_deposit_single_token_type(
            source_amount,
            swap_token_a_amount,
            swap_token_b_amount,
            pool_supply,
            trade_direction,
            RoundDirection::Ceiling,
        ) is Some,
    ensures
        spec_deposit_single_token_type(
            source_amount,
            swap_token_a_amount,
            swap_token_b_amount,
            pool_supply,
            trade_direction,
            RoundDirection::Floor,
        ) is Some,
        spec_deposit_single_token_type(
            source_amount,
            swap_token_a_amount,
            swap_token_b_amount,
            pool_supply,
            trade_direction,
            RoundDirection::Floor,
        )->Some_0 <= spec_deposit_single_token_type(
            source_amount,
            swap_token_a_amount,
            swap_token_b_amount,
            pool_supply,
            trade_direction,
            RoundDirection::Ceiling,
        )->Some_0,
{
    let swap_source_amount = match trade_direction {
        TradeDirection::AtoB => swap_token_a_amount,
        TradeDirection::BtoA => swap_token_b_amount,
    };
    let ratio = crate::precise::pn_div(pn_new(source_amount), pn_new(swap_source_amount))->Some_0;
    let base = pn_add(pn_new(1), ratio)->Some_0;
    let root = pn_sqrt(base)->Some_0;
    let growth = pn_sub(root, pn_new(1))->Some_0;
    let pool_tokens = pn_mul(pn_new(pool_supply), growth)->Some_0;
    lemma_round_to_imprecise_monotone(pool_tokens);
}

/// The whole single-sided withdrawal inherits the rounding order too:
/// with the same inputs, the Ceiling direction never burns less than the
/// Floor direction, and whenever Ceiling succeeds, Floor does too.
pub proof fn lemma_withdraw_rounding_monotone(
    source_amount: nat,
    swap_token_a_amount: nat,
    swap_token_b_amount: nat,
    pool_supply: nat,
    trade_direction: TradeDirection,
)
    requires
        spec_withdraw_single_token_type_exact_out(
            source_amount,
            swap_token_a_amount,
            swap_token_b_amount,
            pool_supply,
            trade_direction,
            RoundDirection::Ceiling,
        ) is Some,
    ensures
        spec_withdraw_single_token_type_exact_out(
            source_amount,
            swap_token_a_amount,
            swap_token_b_amount,
            pool_supply,
            trade_direction,
            RoundDirection::Floor,
        ) is Some,
        spec_withdraw_single_token_type_exact_out(
            source_amount,
            swap_token_a_amount,
            swap_token_b_amount,
            pool_supply,
            trade_direction,
            RoundDirection::Floor,
        )->Some_0 <= spec_withdraw_single_token_type_exact_out(
            source_amount,
            swap_token_a_amount,
            swap_token_b_amount,
            pool_supply,
            trade_direction,
            RoundDirection::Ceiling,
        )->Some_0,
{
    let swap_source_amount = match trade_direction {
        TradeDirection::AtoB => swap_token_a_amount,
        TradeDirection::BtoA => swap_token_b_amount,
    };
    let ratio = crate::precise::pn_div(pn_new(source_amount), pn_new(swap_source_amount))->Some_0;
    let base = pn_sub(pn_new(1), ratio)->Some_0;
    let root = pn_sqrt(base)->Some_0;
    let loss = pn_sub(pn_new(1), root)->Some_0;
    let pool_tokens = pn_mul(pn_new(pool_supply), loss)->Some_0;
    lemma_round_to_imprecise_monotone(pool_tokens);
}

impl crate::calculator::CurveCalculator for ConstantProductCurve {
    open spec fn spec_swap_without_fees(
        &self,
        source_amount: nat,
        swap_source_amount: nat,
        swap_destination_amount: nat,
        trade_direction: TradeDirection,
    ) -> Option<(nat, nat)> {
        spec_swap(source_amount, swap_source_amount, swap_destination_amount)
    }

    /// Constant product swap ensures the product of the reserves never
    /// shrinks; the trade direction is irrelevant by symmetry.
    fn swap_without_fees(
        &self,
        source_amount: u128,
        swap_source_amount: u128,
        swap_destination_amount: u128,
        trade_direction: TradeDirection,
    ) -> (r: Option<SwapWithoutFeesResult>) {
        swap(source_amount, swap_source_amount, swap_destination_amount)
    }

    fn new_pool_supply(&self) -> (r: u128) {
        crate::calculator::INITIAL_SWAP_POOL_AMOUNT
    }

    open spec fn spec_pool_tokens_to_trading_tokens(
        &self,
        pool_tokens: nat,
        pool_token_supply: nat,
        swap_token_a_amount: nat,
        swap_token_b_amount: nat,
        round_direction: RoundDirection,
    ) -> Option<(nat, nat)> {
        spec_pool_tokens_to_trading_tokens(
            pool_tokens,
            pool_token_supply,
            swap_token_a_amount,
            swap_token_b_amount,
            round_direction,
        )
    }

    fn pool_tokens_to_trading_tokens(
        &self,
        pool_tokens: u128,
        pool_token_supply: u128,
        swap_token_a_amount: u128,
        swap_token_b_amount: u128,
        round_direction: RoundDirection,
    ) -> (r: Option<TradingTokenResult>) {
        pool_tokens_to_trading_tokens(
            pool_tokens,
            pool_token_supply,
            swap_token_a_amount,
            swap_token_b_amount,
            round_direction,
        )
    }

    open spec fn spec_deposit_single_token_type(
        &self,
        source_amount: nat,
        swap_token_a_amount: nat,
        swap_token_b_amount: nat,
        pool_supply: nat,
        trade_direction: TradeDirection,
    ) -> Option<nat> {
        spec_deposit_single_token_type(
            source_amount,
            swap_token_a_amount,
            swap_token_b_amount,
            pool_supply,
            trade_direction,
            RoundDirection::Floor,
        )
    }

    fn deposit_single_token_type(
        &self,
        source_amount: u128,
        swap_token_a_amount: u128,
        swap_token_b_amount: u128,
        pool_supply: u128,
        trade_direction: TradeDirection,
    ) -> (r: Option<u128>) {
        deposit_single_token_type(
            source_amount,
            swap_token_a_amount,
            swap_token_b_amount,
            pool_supply,
            trade_direction,
            RoundDirection::Floor,
        )
    }

    open spec fn spec_withdraw_single_token_type_exact_out(
        &self,
        source_amount: nat,
        swap_token_a_amount: nat,
        swap_token_b_amount: nat,
        pool_supply: nat,
        trade_direction: TradeDirection,
    ) -> Option<nat> {
        spec_withdraw_single_token_type_exact_out(
            source_amount,
            swap_token_a_amount,
            swap_token_b_amount,
            pool_supply,
            trade_direction,
            RoundDirection::Ceiling,
        )
    }

    fn withdraw_single_token_type_exact_out(
        &self,
        source_amount: u128,
        swap_token_a_amount: u128,
        swap_token_b_amount: u128,
        pool_supply: u128,
        trade_direction: TradeDirection,
    ) -> (r: Option<u128>) {
        withdraw_single_token_type_exact_out(
            source_amount,
            swap_token_a_amount,
            swap_token_b_amount,
            pool_supply,
            trade_direction,
            RoundDirection::Ceiling,
        )
    }

    open spec fn spec_validate(&self) -> bool {
        true
    }

    fn validate(&self) -> (r: Result<(), crate::errors::SwapError>) {
        Ok(())
    }

    open spec fn spec_validate_supply(&self, token_a_amount: u64, token_b_amount: u64) -> bool {
        token_a_amount != 0 && token_b_amount != 0
    }

    fn validate_supply(&self, token_a_amount: u64, token_b_amount: u64) -> (r: Result<
        (),
        crate::errors::SwapError,
    >) {
        if token_a_amount == 0 {
            return Err(crate::errors::SwapError::EmptySupply);
        }
        if token_b_amount == 0 {
            return Err(crate::errors::SwapError::EmptySupply);
        }
        Ok(())
    }

    open spec fn spec_allows_deposits(&self) -> bool {
        true
    }

    fn allows_deposits(&self) -> (r: bool) {
        true
    }

    open spec fn spec_normalized_value(
        &self,
        swap_token_a_amount: nat,
        swap_token_b_amount: nat,
    ) -> Option<nat> {
        spec_normalized_value(swap_token_a_amount, swap_token_b_amount)
    }

    fn normalized_value(&self, swap_token_a_amount: u128, swap_token_b_amount: u128) -> (r: Option<
        PreciseNumber,
    >) {
        normalized_value(swap_token_a_amount, swap_token_b_amount)
    }
}

} // verus!
