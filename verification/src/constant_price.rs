//! The constant-price curve: a fixed exchange rate between the two tokens.
//!
//! A swap is exact multiplication or division by the rate, with any
//! remainder trimmed from the source side so that no value leaks through
//! truncation.  Pool shares are weighted by the rate rather than split
//! evenly between the sides.

use crate::calculator::CurveCalculator;
use crate::calculator::RoundDirection;
use crate::calculator::SwapWithoutFeesResult;
use crate::calculator::TradeDirection;
use crate::calculator::TradingTokenResult;
use crate::calculator::spec_ceil_div;
use crate::errors::SwapError;
use crate::precise::PreciseNumber;
use crate::precise::pn_new;
use crate::precise::pn_to_imprecise;
use crate::wide::U256;
use crate::wide::u256_limit;
use vstd::prelude::*;

verus! {

/// The curve with a fixed price of token B, denominated in token A.
#[derive(Clone, Copy, Debug, Default, PartialEq, Eq, Structural)]
pub struct ConstantPriceCurve {
    /// Amount of token A required to receive one token B
    pub token_b_price: u64,
}

/// What the shared conversion between trading tokens and pool tokens
/// returns: the pool share of the value given, out of the total pool value
/// weighted by the price, rounded as directed.
pub open spec fn spec_trading_tokens_to_pool_tokens(
    token_b_price: nat,
    source_amount: nat,
    swap_token_a_amount: nat,
    swap_token_b_amount: nat,
    pool_supply: nat,
    trade_direction: TradeDirection,
    round_direction: RoundDirection,
) -> Option<nat> {
    let given_value = match trade_direction {
        TradeDirection::AtoB => source_amount,
        TradeDirection::BtoA => source_amount * token_b_price,
    };
    if given_value >= u256_limit() || swap_token_b_amount * token_b_price >= u256_limit()
        || swap_token_b_amount * token_b_price + swap_token_a_amount >= u256_limit()
        || pool_supply * given_value >= u256_limit() {
        None
    } else {
        let total_value = swap_token_b_amount * token_b_price + swap_token_a_amount;
        let scaled = pool_supply * given_value;
        match round_direction {
            RoundDirection::Floor => {
                if total_value == 0 {
                    None
                } else if scaled / total_value >= crate::wide::b128() {
                    None
                } else {
                    Some(scaled / total_value)
                }
            },
            RoundDirection::Ceiling => {
                match spec_ceil_div(scaled, total_value) {
                    None => None,
                    Some((q, _)) => if q >= crate::wide::b128() {
                        None
                    } else {
                        Some(q)
                    },
                }
            },
        }
    }
}

/// Single asset deposit or withdrawal: how many pool tokens a one-sided
/// amount is worth, out of the pool's total value at the fixed price.
/// Unrepresentably large results are a failure, never a wrapped value.
pub fn trading_tokens_to_pool_tokens(
    token_b_price: u64,
    source_amount: u128,
    swap_token_a_amount: u128,
    swap_token_b_amount: u128,
    pool_supply: u128,
    trade_direction: TradeDirection,
    round_direction: RoundDirection,
) -> (r: Option<u128>)
    ensures
        r is Some <==> spec_trading_tokens_to_pool_tokens(
            token_b_price as nat,
            source_amount as nat,
            swap_token_a_amount as nat,
            swap_token_b_amount as nat,
            pool_supply as nat,
            trade_direction,
            round_direction,
        ) is Some,
        r is Some ==> r->Some_0 as nat == spec_trading_tokens_to_pool_tokens(
            token_b_price as nat,
            source_amount as nat,
            swap_token_a_amount as nat,
            swap_token_b_amount as nat,
            pool_supply as nat,
            trade_direction,
            round_direction,
        )->Some_0,
{
    let token_b_price_wide = U256::from_u64(token_b_price);
    let given_value = match trade_direction {
        TradeDirection::AtoB => U256::from_u128(source_amount),
        TradeDirection::BtoA => U256::from_u128(source_amount).checked_mul(&token_b_price_wide)?,
    };
    let total_value = U256::from_u128(swap_token_b_amount).checked_mul(
        &token_b_price_wide,
    )?.checked_add(&U256::from_u128(swap_token_a_amount))?;
    let pool_supply_wide = U256::from_u128(pool_supply);
    let scaled = pool_supply_wide.checked_mul(&given_value)?;
    match round_direction {
        RoundDirection::Floor => {
            let quotient = scaled.checked_div(&total_value)?;
            quotient.to_u128()
        },
        RoundDirection::Ceiling => {
            let (quotient, _) = scaled.checked_ceil_div(&total_value)?;
            quotient.to_u128()
        },
    }
}

/// What the fixed-rate swap returns: multiplication by the price on a
/// B-to-A trade; division, with the remainder trimmed from the source, on
/// an A-to-B trade.  A trade where either side would move zero tokens is
/// rejected.
pub open spec fn spec_price_swap(token_b_price: nat, source_amount: nat, trade_direction: TradeDirection) -> Option<
    (nat, nat),
> {
    match trade_direction {
        TradeDirection::BtoA => {
            if source_amount * token_b_price > u128::MAX {
                None
            } else if source_amount == 0 || source_amount * token_b_price == 0 {
                None
            } else {
                Some((source_amount, source_amount * token_b_price))
            }
        },
        TradeDirection::AtoB => {
            if token_b_price == 0 {
                None
            } else {
                let destination_amount_swapped = source_amount / token_b_price;
                let source_amount_swapped = (source_amount - source_amount % token_b_price) as nat;
                if source_amount_swapped == 0 || destination_amount_swapped == 0 {
                    None
                } else {
                    Some((source_amount_swapped, destination_amount_swapped))
                }
            }
        },
    }
}

/// What the normalized value is, over inner fixed-point values: half the
/// pool's total value at the fixed price, with the halving moved before
/// the addition when the sum would not fit the working width.
pub open spec fn spec_price_normalized_value(
    token_b_price: nat,
    swap_token_a_amount: nat,
    swap_token_b_amount: nat,
) -> Option<nat> {
    if swap_token_b_amount * token_b_price > u128::MAX {
        None
    } else {
        let swap_token_b_value = swap_token_b_amount * token_b_price;
        let value = if swap_token_a_amount + swap_token_b_value > u128::MAX {
            swap_token_b_value / 2 + swap_token_a_amount / 2
        } else {
            (swap_token_a_amount + swap_token_b_value) / 2
        };
        Some(pn_new(value))
    }
}

/// Rounding order of the shared conversion: with the same inputs, the
/// Ceiling direction never yields less than the Floor direction, and at
/// most one token more.  Since a withdrawal uses Ceiling where a deposit
/// uses Floor, burning back an amount never costs less than it minted.
pub proof fn lemma_pool_tokens_rounding_monotone(
    token_b_price: nat,
    source_amount: nat,
    swap_token_a_amount: nat,
    swap_token_b_amount: nat,
    pool_supply: nat,
    trade_direction: TradeDirection,
)
    requires
        spec_trading_tokens_to_pool_tokens(
            token_b_price,
            source_amount,
            swap_token_a_amount,
            swap_token_b_amount,
            pool_supply,
            trade_direction,
            RoundDirection::Ceiling,
        ) is Some,
    ensures
        spec_trading_tokens_to_pool_tokens(
            token_b_price,
            source_amount,
            swap_token_a_amount,
            swap_token_b_amount,
            pool_supply,
            trade_direction,
            RoundDirection::Floor,
        ) is Some,
        ({
            let floored = spec_trading_tokens_to_pool_tokens(
                token_b_price,
                source_amount,
                swap_token_a_amount,
                swap_token_b_amount,
                pool_supply,
                trade_direction,
                RoundDirection::Floor,
            )->Some_0;
            let ceiled = spec_trading_tokens_to_pool_tokens(
                token_b_price,
                source_amount,
                swap_token_a_amount,
                swap_token_b_amount,
                pool_supply,
                trade_direction,
                RoundDirection::Ceiling,
            )->Some_0;
            floored <= ceiled <= floored + 1
        }),
{
}

impl CurveCalculator for ConstantPriceCurve {
    open spec fn spec_swap_without_fees(
        &self,
        source_amount: nat,
        swap_source_amount: nat,
        swap_destination_amount: nat,
        trade_direction: TradeDirection,
    ) -> Option<(nat, nat)> {
        spec_price_swap(self.token_b_price as nat, source_amount, trade_direction)
    }

    /// The fixed-rate swap ignores the reserves: the price alone sets the
    /// exchange, and the remainder of an A-to-B trade stays unconsumed.
    fn swap_without_fees(
        &self,
        source_amount: u128,
        swap_source_amount: u128,
        swap_destination_amount: u128,
        trade_direction: TradeDirection,
    ) -> (r: Option<SwapWithoutFeesResult>) {
        let token_b_price = self.token_b_price as u128;
        let (source_amount_swapped, destination_amount_swapped) = match trade_direction {
            TradeDirection::BtoA => (source_amount, source_amount.checked_mul(token_b_price)?),
            TradeDirection::AtoB => {
                let destination_amount_swapped = source_amount.checked_div(token_b_price)?;
                let mut source_amount_swapped = source_amount;
                let remainder = source_amount_swapped.checked_rem(token_b_price)?;
                if remainder > 0 {
                    proof {
                        vstd::arithmetic::div_mod::lemma_mod_decreases(
                            source_amount as nat,
                            token_b_price as nat,
                        );
                    }
                    source_amount_swapped = source_amount - remainder;
                }
                (source_amount_swapped, destination_amount_swapped)
            },
        };
        let source_amount_swapped = crate::calculator::map_zero_to_none(source_amount_swapped)?;
        let destination_amount_swapped = crate::calculator::map_zero_to_none(
            destination_amount_swapped,
        )?;
        Some(SwapWithoutFeesResult { source_amount_swapped, destination_amount_swapped })
    }

    fn new_pool_supply(&self) -> (r: u128) {
        crate::calculator::INITIAL_SWAP_POOL_AMOUNT
    }

    open spec fn spec_pool_tokens_to_trading_tokens(
        &self,
        pool_tokens: nat,
        pool_token_supply: nat,
        swap_token_a_amount: nat,
        swap_token_b_amount: nat,
        round_direction: RoundDirection,
    ) -> Option<(nat, nat)> {
        let price = self.token_b_price as nat;
        match spec_price_normalized_value(price, swap_token_a_amount, swap_token_b_amount) {
            None => None,
            Some(inner) => match pn_to_imprecise(inner) {
                None => None,
                Some(total_value) => {
                    if pool_tokens * total_value > u128::MAX {
                        None
                    } else {
                        let scaled = pool_tokens * total_value;
                        match round_direction {
                            RoundDirection::Floor => {
                                if pool_token_supply == 0 || price == 0 {
                                    None
                                } else {
                                    Some(
                                        (scaled / pool_token_supply, scaled / price
                                            / pool_token_supply),
                                    )
                                }
                            },
                            RoundDirection::Ceiling => {
                                match spec_ceil_div(scaled, pool_token_supply) {
                                    None => None,
                                    Some((token_a_amount, _)) => match spec_ceil_div(
                                        scaled,
                                        price,
                                    ) {
                                        None => None,
                                        Some((pool_value_as_token_b, _)) => match spec_ceil_div(
                                            pool_value_as_token_b,
                                            pool_token_supply,
                                        ) {
                                            None => None,
                                            Some((token_b_amount, _)) => Some(
                                                (token_a_amount, token_b_amount),
                                            ),
                                        },
                                    },
                                }
                            },
                        }
                    }
                },
            },
        }
    }

    /// For the constant price curve, the total value of the pool is
    /// weighted by the price of token B.
    fn pool_tokens_to_trading_tokens(
        &self,
        pool_tokens: u128,
        pool_token_supply: u128,
        swap_token_a_amount: u128,
        swap_token_b_amount: u128,
        round_direction: RoundDirection,
    ) -> (r: Option<TradingTokenResult>) {
        let token_b_price = self.token_b_price as u128;
        let total_value = self.normalized_value(
            swap_token_a_amount,
            swap_token_b_amount,
        )?.to_imprecise()?;
        let (token_a_amount, token_b_amount) = match round_direction {
            RoundDirection::Floor => {
                let scaled = pool_tokens.checked_mul(total_value)?;
                let token_a_amount = scaled.checked_div(pool_token_supply)?;
                let token_b_amount = scaled.checked_div(token_b_price)?.checked_div(
                    pool_token_supply,
                )?;
                (token_a_amount, token_b_amount)
            },
            RoundDirection::Ceiling => {
                let scaled = pool_tokens.checked_mul(total_value)?;
                let (token_a_amount, _) = crate::calculator::checked_ceil_div(
                    scaled,
                    pool_token_supply,
                )?;
                let (pool_value_as_token_b, _) = crate::calculator::checked_ceil_div(
                    scaled,
                    token_b_price,
                )?;
                let (token_b_amount, _) = crate::calculator::checked_ceil_div(
                    pool_value_as_token_b,
                    pool_token_supply,
                )?;
                (token_a_amount, token_b_amount)
            },
        };
        Some(TradingTokenResult { token_a_amount, token_b_amount })
    }

    open spec fn spec_deposit_single_token_type(
        &self,
        source_amount: nat,
        swap_token_a_amount: nat,
        swap_token_b_amount: nat,
        pool_supply: nat,
        trade_direction: TradeDirection,
    ) -> Option<nat> {
        spec_trading_tokens_to_pool_tokens(
            self.token_b_price as nat,
            source_amount,
            swap_token_a_amount,
            swap_token_b_amount,
            pool_supply,
            trade_direction,
            RoundDirection::Floor,
        )
    }

    fn deposit_single_token_type(
        &self,
        source_amount: u128,
        swap_token_a_amount: u128,
        swap_token_b_amount: u128,
        pool_supply: u128,
        trade_direction: TradeDirection,
    ) -> (r: Option<u128>) {
        trading_tokens_to_pool_tokens(
            self.token_b_price,
            source_amount,
            swap_token_a_amount,
            swap_token_b_amount,
            pool_supply,
            trade_direction,
            RoundDirection::Floor,
        )
    }

    open spec fn spec_withdraw_single_token_type_exact_out(
        &self,
        source_amount: nat,
        swap_token_a_amount: nat,
        swap_token_b_amount: nat,
        pool_supply: nat,
        trade_direction: TradeDirection,
    ) -> Option<nat> {
        spec_trading_tokens_to_pool_tokens(
            self.token_b_price as nat,
            source_amount,
            swap_token_a_amount,
            swap_token_b_amount,
            pool_supply,
            trade_direction,
            RoundDirection::Ceiling,
        )
    }

    fn withdraw_single_token_type_exact_out(
        &self,
        source_amount: u128,
        swap_token_a_amount: u128,
        swap_token_b_amount: u128,
        pool_supply: u128,
        trade_direction: TradeDirection,
    ) -> (r: Option<u128>) {
        trading_tokens_to_pool_tokens(
            self.token_b_price,
            source_amount,
            swap_token_a_amount,
            swap_token_b_amount,
            pool_supply,
            trade_direction,
            RoundDirection::Ceiling,
        )
    }

    open spec fn spec_validate(&self) -> bool {
        self.token_b_price != 0
    }

    fn validate(&self) -> (r: Result<(), SwapError>) {
        if self.token_b_price == 0 {
            Err(SwapError::InvalidCurve)
        } else {
            Ok(())
        }
    }

    open spec fn spec_validate_supply(&self, token_a_amount: u64, token_b_amount: u64) -> bool {
        token_a_amount != 0
    }

    fn validate_supply(&self, token_a_amount: u64, token_b_amount: u64) -> (r: Result<
        (),
        SwapError,
    >) {
        if token_a_amount == 0 {
            return Err(SwapError::EmptySupply);
        }
        Ok(())
    }

    open spec fn spec_allows_deposits(&self) -> bool {
        true
    }

    fn allows_deposits(&self) -> (r: bool) {
        true
    }

    open spec fn spec_normalized_value(
        &self,
        swap_token_a_amount: nat,
        swap_token_b_amount: nat,
    ) -> Option<nat> {
        spec_price_normalized_value(
            self.token_b_price as nat,
            swap_token_a_amount,
            swap_token_b_amount,
        )
    }

    /// The total normalized value adds the value of the token B side to the
    /// token A side and halves it, to stay in single-token units.  When the
    /// sum would overflow the working width, each side is halved first.
    fn normalized_value(&self, swap_token_a_amount: u128, swap_token_b_amount: u128) -> (r: Option<
        PreciseNumber,
    >) {
        let swap_token_b_value = swap_token_b_amount.checked_mul(self.token_b_price as u128)?;
        let value = if swap_token_b_value > u128::MAX - swap_token_a_amount {
            swap_token_b_value / 2 + swap_token_a_amount / 2
        } else {
            (swap_token_a_amount + swap_token_b_value) / 2
        };
        PreciseNumber::new(value)
    }
}

} // verus!
