//! The offset curve: constant product over a shifted reserve.
//!
//! Swaps and the value measure behave as if the token B side held an extra
//! fixed amount of phantom liquidity.  Because that liquidity is not real,
//! deposits after creation are forbidden: a depositor priced against the
//! offset-inflated invariant could be exploited by the pool's creator.

use crate::calculator::CurveCalculator;
use crate::calculator::RoundDirection;
use crate::calculator::SwapWithoutFeesResult;
use crate::calculator::TradeDirection;
use crate::calculator::TradingTokenResult;
use crate::constant_product::deposit_single_token_type;
use crate::constant_product::normalized_value;
use crate::constant_product::pool_tokens_to_trading_tokens;
use crate::constant_product::spec_deposit_single_token_type;
use crate::constant_product::spec_normalized_value;
use crate::constant_product::spec_pool_tokens_to_trading_tokens;
use crate::constant_product::spec_swap;
use crate::constant_product::spec_withdraw_single_token_type_exact_out;
use crate::constant_product::swap;
use crate::constant_product::withdraw_single_token_type_exact_out;
use crate::errors::SwapError;
use crate::precise::PreciseNumber;
use vstd::prelude::*;

verus! {

/// Offset curve: constant product under the hood, with a fixed offset added
/// to the token B side on swap and value calculations.
#[derive(Clone, Copy, Debug, Default, PartialEq, Eq, Structural)]
pub struct Offset {
    /// Amount to offset the token B liquidity account
    pub token_b_offset: u64,
}

/// The offset curve's swap never shrinks its shifted invariant: counting
/// the phantom offset on the token B side, the product of the reserves can
/// only grow or stay equal, and at least one destination token moves.
pub proof fn lemma_offset_swap_never_shrinks_invariant(
    curve: Offset,
    source_amount: nat,
    swap_source_amount: nat,
    swap_destination_amount: nat,
    trade_direction: TradeDirection,
)
    requires
        curve.spec_swap_without_fees(
            source_amount,
            swap_source_amount,
            swap_destination_amount,
            trade_direction,
        ) is Some,
    ensures
        ({
            let (source_swapped, destination_swapped) = curve.spec_swap_without_fees(
                source_amount,
                swap_source_amount,
                swap_destination_amount,
                trade_direction,
            )->Some_0;
            let shifted_source = match trade_direction {
                TradeDirection::AtoB => swap_source_amount,
                TradeDirection::BtoA => (swap_source_amount + curve.token_b_offset) as nat,
            };
            let shifted_destination = match trade_direction {
                TradeDirection::AtoB => (swap_destination_amount + curve.token_b_offset) as nat,
                TradeDirection::BtoA => swap_destination_amount,
            };
            &&& 1 <= destination_swapped <= shifted_destination
            &&& source_swapped <= source_amount
            &&& (shifted_source + source_swapped) * (shifted_destination - destination_swapped)
                >= shifted_source * shifted_destination
        }),
{
    match trade_direction {
        TradeDirection::AtoB => {
            crate::constant_product::lemma_swap_never_shrinks_invariant(
                source_amount,
                swap_source_amount,
                (swap_destination_amount + curve.token_b_offset) as nat,
            );
        },
        TradeDirection::BtoA => {
            crate::constant_product::lemma_swap_never_shrinks_invariant(
                source_amount,
                (swap_source_amount + curve.token_b_offset) as nat,
                swap_destination_amount,
            );
        },
    }
}

impl CurveCalculator for Offset {
    open spec fn spec_swap_without_fees(
        &self,
        source_amount: nat,
        swap_source_amount: nat,
        swap_destination_amount: nat,
        trade_direction: TradeDirection,
    ) -> Option<(nat, nat)> {
        let token_b_offset = self.token_b_offset as nat;
        match trade_direction {
            TradeDirection::AtoB => {
                if swap_destination_amount + token_b_offset > u128::MAX {
                    None
                } else {
                    spec_swap(
                        source_amount,
                        swap_source_amount,
                        swap_destination_amount + token_b_offset,
                    )
                }
            },
            TradeDirection::BtoA => {
                if swap_source_amount + token_b_offset > u128::MAX {
                    None
                } else {
                    spec_swap(
                        source_amount,
                        swap_source_amount + token_b_offset,
                        swap_destination_amount,
                    )
                }
            },
        }
    }

    /// Constant product swap over the shifted reserve: the product
    /// `token_a * (token_b + offset)` never shrinks.
    fn swap_without_fees(
        &self,
        source_amount: u128,
        swap_source_amount: u128,
        swap_destination_amount: u128,
        trade_direction: TradeDirection,
    ) -> (r: Option<SwapWithoutFeesResult>) {
        let token_b_offset = self.token_b_offset as u128;
        let swap_source_amount = match trade_direction {
            TradeDirection::AtoB => swap_source_amount,
            TradeDirection::BtoA => swap_source_amount.checked_add(token_b_offset)?,
        };
        let swap_destination_amount = match trade_direction {
            TradeDirection::AtoB => swap_destination_amount.checked_add(token_b_offset)?,
            TradeDirection::BtoA => swap_destination_amount,
        };
        swap(source_amount, swap_source_amount, swap_destination_amount)
    }

    fn new_pool_supply(&self) -> (r: u128) {
        crate::calculator::INITIAL_SWAP_POOL_AMOUNT
    }

    open spec fn spec_pool_tokens_to_trading_tokens(
        &self,
        pool_tokens: nat,
        pool_token_supply: nat,
        swap_token_a_amount: nat,
        swap_token_b_amount: nat,
        round_direction: RoundDirection,
    ) -> Option<(nat, nat)> {
        spec_pool_tokens_to_trading_tokens(
            pool_tokens,
            pool_token_supply,
            swap_token_a_amount,
            swap_token_b_amount,
            round_direction,
        )
    }

    /// The conversion works on the real reserves alone: the offset is
    /// phantom liquidity, not a balance a withdrawer could claim, so pool
    /// shares are deliberately priced against what the pool actually holds.
    fn pool_tokens_to_trading_tokens(
        &self,
        pool_tokens: u128,
        pool_token_supply: u128,
        swap_token_a_amount: u128,
        swap_token_b_amount: u128,
        round_direction: RoundDirection,
    ) -> (r: Option<TradingTokenResult>) {
        pool_tokens_to_trading_tokens(
            pool_tokens,
            pool_token_supply,
            swap_token_a_amount,
            swap_token_b_amount,
            round_direction,
        )
    }

    open spec fn spec_deposit_single_token_type(
        &self,
        source_amount: nat,
        swap_token_a_amount: nat,
        swap_token_b_amount: nat,
        pool_supply: nat,
        trade_direction: TradeDirection,
    ) -> Option<nat> {
        spec_deposit_single_token_type(
            source_amount,
            swap_token_a_amount,
            swap_token_b_amount,
            pool_supply,
            trade_direction,
            RoundDirection::Floor,
        )
    }

    /// Like the conversion above, deposits and withdrawals are priced on
    /// the real reserves; deposits are refused by `allows_deposits` anyway.
    fn deposit_single_token_type(
        &self,
        source_amount: u128,
        swap_token_a_amount: u128,
        swap_token_b_amount: u128,
        pool_supply: u128,
        trade_direction: TradeDirection,
    ) -> (r: Option<u128>) {
        deposit_single_token_type(
            source_amount,
            swap_token_a_amount,
            swap_token_b_amount,
            pool_supply,
            trade_direction,
            RoundDirection::Floor,
        )
    }

    open spec fn spec_withdraw_single_token_type_exact_out(
        &self,
        source_amount: nat,
        swap_token_a_amount: nat,
        swap_token_b_amount: nat,
        pool_supply: nat,
        trade_direction: TradeDirection,
    ) -> Option<nat> {
        spec_withdraw_single_token_type_exact_out(
            source_amount,
            swap_token_a_amount,
            swap_token_b_amount,
            pool_supply,
            trade_direction,
            RoundDirection::Ceiling,
        )
    }

    fn withdraw_single_token_type_exact_out(
        &self,
        source_amount: u128,
        swap_token_a_amount: u128,
        swap_token_b_amount: u128,
        pool_supply: u128,
        trade_direction: TradeDirection,
    ) -> (r: Option<u128>) {
        withdraw_single_token_type_exact_out(
            source_amount,
            swap_token_a_amount,
            swap_token_b_amount,
            pool_supply,
            trade_direction,
            RoundDirection::Ceiling,
        )
    }

    open spec fn spec_validate(&self) -> bool {
        self.token_b_offset != 0
    }

    /// A zero offset degenerates to the plain constant product curve,
    /// which should be selected explicitly instead.
    fn validate(&self) -> (r: Result<(), SwapError>) {
        if self.token_b_offset == 0 {
            Err(SwapError::InvalidCurve)
        } else {
            Ok(())
        }
    }

    open spec fn spec_validate_supply(&self, token_a_amount: u64, token_b_amount: u64) -> bool {
        token_a_amount != 0
    }

    fn validate_supply(&self, token_a_amount: u64, token_b_amount: u64) -> (r: Result<
        (),
        SwapError,
    >) {
        if token_a_amount == 0 {
            return Err(SwapError::EmptySupply);
        }
        Ok(())
    }

    open spec fn spec_allows_deposits(&self) -> bool {
        false
    }

    /// Offset curves can cause arbitrage opportunities if outside users are
    /// allowed to deposit, since the creator could later claim the real
    /// tokens that back other depositors' shares of the phantom side.
    fn allows_deposits(&self) -> (r: bool) {
        false
    }

    open spec fn spec_normalized_value(
        &self,
        swap_token_a_amount: nat,
        swap_token_b_amount: nat,
    ) -> Option<nat> {
        let token_b_offset = self.token_b_offset as nat;
        if swap_token_b_amount + token_b_offset > u128::MAX {
            None
        } else {
            spec_normalized_value(swap_token_a_amount, swap_token_b_amount + token_b_offset)
        }
    }

    /// The normalized value adds the offset to the token B side before the
    /// constant-product calculation.
    fn normalized_value(&self, swap_token_a_amount: u128, swap_token_b_amount: u128) -> (r: Option<
        PreciseNumber,
    >) {
        let token_b_offset = self.token_b_offset as u128;
        normalized_value(swap_token_a_amount, swap_token_b_amount.checked_add(token_b_offset)?)
    }
}

} // verus!
