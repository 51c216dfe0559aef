//! Fee fractions applied around trades and withdrawals.
//!
//! Each fee is a numerator/denominator pair; a valid pair is either disabled
//! (both zero) or a proper fraction.  A non-zero fee on a non-zero amount is
//! never rounded away: it is at least one token.

use crate::errors::SwapError;
use vstd::prelude::*;

verus! {

/// All fee information for swap operations.
#[derive(Clone, Copy, Debug, Default, PartialEq, Eq, Structural)]
pub struct Fees {
    /// Trade fees are extra token amounts that are held inside the token
    /// accounts during a trade, making the value of liquidity tokens rise.
    /// Trade fee numerator
    pub trade_fee_numerator: u64,
    /// Trade fee denominator
    pub trade_fee_denominator: u64,
    /// Owner trading fees are extra token amounts that are held inside the
    /// token accounts during a trade, with the equivalent in pool tokens
    /// minted to the owner of the program.
    /// Owner trade fee numerator
    pub owner_trade_fee_numerator: u64,
    /// Owner trade fee denominator
    pub owner_trade_fee_denominator: u64,
    /// Owner withdraw fees are extra liquidity pool token amounts that are
    /// sent to the owner on every withdrawal.
    /// Owner withdraw fee numerator
    pub owner_withdraw_fee_numerator: u64,
    /// Owner withdraw fee denominator
    pub owner_withdraw_fee_denominator: u64,
    /// Host fees are a proportion of the owner trading fees, sent to an
    /// extra account provided during the trade.
    /// Host trading fee numerator
    pub host_fee_numerator: u64,
    /// Host trading fee denominator
    pub host_fee_denominator: u64,
}

/// What `calculate_fee` returns: zero for a disabled fee or empty amount,
/// a failure on overflow or a zero denominator, and otherwise the
/// proportional fee, floored but never below one token.
pub open spec fn spec_calculate_fee(
    token_amount: nat,
    fee_numerator: nat,
    fee_denominator: nat,
) -> Option<nat> {
    if fee_numerator == 0 || token_amount == 0 {
        Some(0)
    } else if token_amount * fee_numerator > u128::MAX {
        None
    } else if fee_denominator == 0 {
        None
    } else {
        let fee = token_amount * fee_numerator / fee_denominator;
        if fee == 0 {
            Some(1nat)
        } else {
            Some(fee)
        }
    }
}

/// The proportional fee on a token amount, floored, with a minimum of one
/// token whenever the fee fraction and the amount are both non-zero.
pub fn calculate_fee(token_amount: u128, fee_numerator: u128, fee_denominator: u128) -> (r: Option<
    u128,
>)
    ensures
        r is Some <==> spec_calculate_fee(
            token_amount as nat,
            fee_numerator as nat,
            fee_denominator as nat,
        ) is Some,
        r is Some ==> r->Some_0 as nat == spec_calculate_fee(
            token_amount as nat,
            fee_numerator as nat,
            fee_denominator as nat,
        )->Some_0,
{
    if fee_numerator == 0 || token_amount == 0 {
        Some(0)
    } else {
        let product = token_amount.checked_mul(fee_numerator)?;
        let fee = product.checked_div(fee_denominator)?;
        if fee == 0 {
            Some(1)  // minimum fee of one token
        } else {
            Some(fee)
        }
    }
}

/// A non-zero fee fraction on a non-zero amount never computes to zero:
/// whenever `calculate_fee` succeeds there, it returns at least one token.
pub proof fn lemma_fee_floor(token_amount: nat, fee_numerator: nat, fee_denominator: nat)
    requires
        token_amount > 0,
        fee_numerator > 0,
        spec_calculate_fee(token_amount, fee_numerator, fee_denominator) is Some,
    ensures
        spec_calculate_fee(token_amount, fee_numerator, fee_denominator)->Some_0 >= 1,
{
}

/// A fraction is valid when it is disabled (both parts zero) or proper.
pub open spec fn spec_fraction_valid(numerator: u64, denominator: u64) -> bool {
    (numerator == 0 && denominator == 0) || numerator < denominator
}

/// Check one fee fraction.
fn validate_fraction(numerator: u64, denominator: u64) -> (r: Result<(), SwapError>)
    ensures
        r is Ok <==> spec_fraction_valid(numerator, denominator),
        r is Err ==> r->Err_0 == SwapError::InvalidFee,
{
    if denominator == 0 && numerator == 0 {
        Ok(())
    } else if numerator >= denominator {
        Err(SwapError::InvalidFee)
    } else {
        Ok(())
    }
}

impl Fees {
    /// All four fee fractions are valid.
    pub open spec fn spec_valid(self) -> bool {
        &&& spec_fraction_valid(self.trade_fee_numerator, self.trade_fee_denominator)
        &&& spec_fraction_valid(self.owner_trade_fee_numerator, self.owner_trade_fee_denominator)
        &&& spec_fraction_valid(
            self.owner_withdraw_fee_numerator,
            self.owner_withdraw_fee_denominator,
        )
        &&& spec_fraction_valid(self.host_fee_numerator, self.host_fee_denominator)
    }

    /// Calculate the withdraw fee in pool tokens.
    pub fn owner_withdraw_fee(&self, pool_tokens: u128) -> (r: Option<u128>)
        ensures
            r is Some <==> spec_calculate_fee(
                pool_tokens as nat,
                self.owner_withdraw_fee_numerator as nat,
                self.owner_withdraw_fee_denominator as nat,
            ) is Some,
            r is Some ==> r->Some_0 as nat == spec_calculate_fee(
                pool_tokens as nat,
                self.owner_withdraw_fee_numerator as nat,
                self.owner_withdraw_fee_denominator as nat,
            )->Some_0,
    {
        calculate_fee(
            pool_tokens,
            self.owner_withdraw_fee_numerator as u128,
            self.owner_withdraw_fee_denominator as u128,
        )
    }

    /// Calculate the trading fee in trading tokens.
    pub fn trading_fee(&self, trading_tokens: u128) -> (r: Option<u128>)
        ensures
            r is Some <==> spec_calculate_fee(
                trading_tokens as nat,
                self.trade_fee_numerator as nat,
                self.trade_fee_denominator as nat,
            ) is Some,
            r is Some ==> r->Some_0 as nat == spec_calculate_fee(
                trading_tokens as nat,
                self.trade_fee_numerator as nat,
                self.trade_fee_denominator as nat,
            )->Some_0,
    {
        calculate_fee(
            trading_tokens,
            self.trade_fee_numerator as u128,
            self.trade_fee_denominator as u128,
        )
    }

    /// Calculate the owner trading fee in trading tokens.
    pub fn owner_trading_fee(&self, trading_tokens: u128) -> (r: Option<u128>)
        ensures
            r is Some <==> spec_calculate_fee(
                trading_tokens as nat,
                self.owner_trade_fee_numerator as nat,
                self.owner_trade_fee_denominator as nat,
            ) is Some,
            r is Some ==> r->Some_0 as nat == spec_calculate_fee(
                trading_tokens as nat,
                self.owner_trade_fee_numerator as nat,
                self.owner_trade_fee_denominator as nat,
            )->Some_0,
    {
        calculate_fee(
            trading_tokens,
            self.owner_trade_fee_numerator as u128,
            self.owner_trade_fee_denominator as u128,
        )
    }

    /// Calculate the host fee based on the owner fee, only used in a
    /// production situation where a program is hosted by multiple frontends.
    pub fn host_fee(&self, owner_fee: u128) -> (r: Option<u128>)
        ensures
            r is Some <==> spec_calculate_fee(
                owner_fee as nat,
                self.host_fee_numerator as nat,
                self.host_fee_denominator as nat,
            ) is Some,
            r is Some ==> r->Some_0 as nat == spec_calculate_fee(
                owner_fee as nat,
                self.host_fee_numerator as nat,
                self.host_fee_denominator as nat,
            )->Some_0,
    {
        calculate_fee(owner_fee, self.host_fee_numerator as u128, self.host_fee_denominator as u128)
    }

    /// Validate that the fees are reasonable.
    pub fn validate(&self) -> (r: Result<(), SwapError>)
        ensures
            r is Ok <==> self.spec_valid(),
            r is Err ==> r->Err_0 == SwapError::InvalidFee,
    {
        validate_fraction(self.trade_fee_numerator, self.trade_fee_denominator)?;
        validate_fraction(self.owner_trade_fee_numerator, self.owner_trade_fee_denominator)?;
        validate_fraction(self.owner_withdraw_fee_numerator, self.owner_withdraw_fee_denominator)?;
        validate_fraction(self.host_fee_numerator, self.host_fee_denominator)?;
        Ok(())
    }
}

} // verus!
