use token_swap::calculator::CurveCalculator;
use token_swap::calculator::INITIAL_SWAP_POOL_AMOUNT;
use token_swap::calculator::RoundDirection;
use token_swap::calculator::SwapWithoutFeesResult;
use token_swap::calculator::TradeDirection;
use token_swap::constant_price::ConstantPriceCurve;
use token_swap::constant_product::ConstantProductCurve;
use token_swap::constant_product::pool_tokens_to_trading_tokens;
use token_swap::errors::SwapError;
use token_swap::offset::Offset;

#[test]
fn swap_calculation_on_price() {
    let swap_source_amount: u128 = 0;
    let swap_destination_amount: u128 = 0;
    let source_amount: u128 = 100;
    let token_b_price = 1;
    let curve = ConstantPriceCurve { token_b_price };

    let expected_result = SwapWithoutFeesResult {
        source_amount_swapped: source_amount,
        destination_amount_swapped: source_amount,
    };

    let result = curve
        .swap_without_fees(
            source_amount,
            swap_source_amount,
            swap_destination_amount,
            TradeDirection::BtoA,
        )
        .unwrap();
    assert_eq!(result, expected_result);

    let result = curve
        .swap_without_fees(
            source_amount,
            swap_source_amount,
            swap_destination_amount,
            TradeDirection::AtoB,
        )
        .unwrap();
    assert_eq!(result, expected_result);
}

#[test]
fn swap_calculation_large_price() {
    let token_b_price = 1123513_u128;
    let curve = ConstantPriceCurve {
        token_b_price: token_b_price as u64,
    };
    let token_b_amount = 500_u128;
    let token_a_amount = token_b_amount * token_b_price;
    let bad_result = curve.swap_without_fees(
        token_b_price - 1_u128,
        token_a_amount,
        token_b_amount,
        TradeDirection::AtoB,
    );
    assert!(bad_result.is_none());
    let bad_result =
        curve.swap_without_fees(1u128, token_a_amount, token_b_amount, TradeDirection::AtoB);
    assert!(bad_result.is_none());
    let result = curve
        .swap_without_fees(
            token_b_price,
            token_a_amount,
            token_b_amount,
            TradeDirection::AtoB,
        )
        .unwrap();
    assert_eq!(result.source_amount_swapped, token_b_price);
    assert_eq!(result.destination_amount_swapped, 1u128);
}

#[test]
fn swap_calculation_max_min() {
    let token_b_price = u64::MAX as u128;
    let curve = ConstantPriceCurve {
        token_b_price: token_b_price as u64,
    };
    let token_b_amount = 1u128;
    let token_a_amount = token_b_price;
    let bad_result = curve.swap_without_fees(
        token_b_price - 1u128,
        token_a_amount,
        token_b_amount,
        TradeDirection::AtoB,
    );
    assert!(bad_result.is_none());
    let bad_result =
        curve.swap_without_fees(1u128, token_a_amount, token_b_amount, TradeDirection::AtoB);
    assert!(bad_result.is_none());
    let bad_result =
        curve.swap_without_fees(0u128, token_a_amount, token_b_amount, TradeDirection::AtoB);
    assert!(bad_result.is_none());
    let result = curve
        .swap_without_fees(
            token_b_price,
            token_a_amount,
            token_b_amount,
            TradeDirection::AtoB,
        )
        .unwrap();
    assert_eq!(result.source_amount_swapped, token_b_price);
    assert_eq!(result.destination_amount_swapped, 1u128);
}

#[test]
fn initial_pool_amount() {
    let calculator = ConstantProductCurve {};
    assert_eq!(calculator.new_pool_supply(), INITIAL_SWAP_POOL_AMOUNT);
}

fn check_pool_token_rate(
    token_a: u128,
    token_b: u128,
    deposit: u128,
    supply: u128,
    expected_a: u128,
    expected_b: u128,
) {
    let calculator = ConstantProductCurve {};
    let results = calculator
        .pool_tokens_to_trading_tokens(deposit, supply, token_a, token_b, RoundDirection::Ceiling)
        .unwrap();
    assert_eq!(results.token_a_amount, expected_a);
    assert_eq!(results.token_b_amount, expected_b);
}

#[test]
fn trading_token_conversion() {
    check_pool_token_rate(2, 49, 5, 10, 1, 25);
    check_pool_token_rate(100, 202, 5, 101, 5, 10);
    check_pool_token_rate(5, 501, 2, 10, 1, 101);
}

#[test]
fn fail_trading_token_coversion() {
    let calculator = ConstantProductCurve {};
    let results =
        calculator.pool_tokens_to_trading_tokens(5, 10, u128::MAX, 0, RoundDirection::Floor);
    assert!(results.is_none());

    let results = pool_tokens_to_trading_tokens(5, 10, 0, u128::MAX, RoundDirection::Floor);
    assert!(results.is_none());
}

#[test]
fn constant_product_swap_example() {
    // Reserves (1000, 1000), source amount 100: the invariant is
    // 1,000,000, the ceiled destination side is 910, so 90 tokens leave,
    // and the minimum source that yields that quotient is 99 tokens.
    let curve = ConstantProductCurve {};
    let result = curve
        .swap_without_fees(100, 1000, 1000, TradeDirection::AtoB)
        .unwrap();
    assert_eq!(result.source_amount_swapped, 99);
    assert_eq!(result.destination_amount_swapped, 90);
    // The product of the reserves never shrinks across the swap.
    assert!((1000 + 99) * (1000 - 90) >= 1000 * 1000);
}

#[test]
fn constant_product_swap_value_does_not_decrease() {
    let curve = ConstantProductCurve {};
    let result = curve
        .swap_without_fees(100, 1000, 1000, TradeDirection::AtoB)
        .unwrap();
    let before = curve.normalized_value(1000, 1000).unwrap();
    let after = curve
        .normalized_value(
            1000 + result.source_amount_swapped,
            1000 - result.destination_amount_swapped,
        )
        .unwrap();
    assert!(before.less_than_or_equal(&after));
}

#[test]
fn constant_product_swap_rejects_zero_movement() {
    let curve = ConstantProductCurve {};
    // A one-token trade into a deep pool would round the output to zero:
    // the swap is rejected, not rounded.
    assert!(curve
        .swap_without_fees(1, 1_000_000, 10, TradeDirection::AtoB)
        .is_none());
}

#[test]
fn constant_product_swap_overflow_fails_cleanly() {
    let curve = ConstantProductCurve {};
    assert!(curve
        .swap_without_fees(u128::MAX, u128::MAX, u128::MAX, TradeDirection::AtoB)
        .is_none());
    assert!(curve
        .swap_without_fees(u128::MAX, 1, u128::MAX, TradeDirection::AtoB)
        .is_none());
}

#[test]
fn deposit_and_withdraw_single_token_type() {
    let curve = ConstantProductCurve {};
    let minted = curve
        .deposit_single_token_type(500, 1000, 9000, 1_000_000, TradeDirection::AtoB)
        .unwrap();
    assert_eq!(minted, 224_744);
    let burned = curve
        .withdraw_single_token_type_exact_out(500, 1000, 9000, 1_000_000, TradeDirection::AtoB)
        .unwrap();
    assert_eq!(burned, 292_894);
    // Withdrawing what a deposit added always burns at least what the
    // deposit minted.
    assert!(burned >= minted);
}

#[test]
fn withdraw_more_than_reserve_fails() {
    let curve = ConstantProductCurve {};
    assert!(curve
        .withdraw_single_token_type_exact_out(1001, 1000, 9000, 1_000_000, TradeDirection::AtoB)
        .is_none());
}

#[test]
fn rounding_monotonicity_on_conversion() {
    let calculator = ConstantProductCurve {};
    let floor = calculator
        .pool_tokens_to_trading_tokens(5, 10, 2, 49, RoundDirection::Floor)
        .unwrap();
    let ceiling = calculator
        .pool_tokens_to_trading_tokens(5, 10, 2, 49, RoundDirection::Ceiling)
        .unwrap();
    assert!(ceiling.token_a_amount >= floor.token_a_amount);
    assert!(ceiling.token_b_amount >= floor.token_b_amount);
    // A floored share of zero is never rounded up to a token.
    let floor = calculator
        .pool_tokens_to_trading_tokens(1, 1000, 3, 7, RoundDirection::Floor)
        .unwrap();
    let ceiling = calculator
        .pool_tokens_to_trading_tokens(1, 1000, 3, 7, RoundDirection::Ceiling)
        .unwrap();
    assert_eq!(floor.token_a_amount, 0);
    assert_eq!(ceiling.token_a_amount, 0);
    assert_eq!(ceiling.token_b_amount, 0);
}

fn check_deposit_token_conversion(
    curve: &impl CurveCalculator,
    source_token_amount: u128,
    swap_source_amount: u128,
    swap_destination_amount: u128,
    trade_direction: TradeDirection,
    pool_supply: u128,
    epsilon_in_basis_points: u128,
) {
    let amount_to_swap = source_token_amount / 2;
    let results = curve
        .swap_without_fees(
            amount_to_swap,
            swap_source_amount,
            swap_destination_amount,
            trade_direction,
        )
        .unwrap();
    let opposite_direction = trade_direction.opposite();
    let (swap_token_a_amount, swap_token_b_amount) = match trade_direction {
        TradeDirection::AtoB => (swap_source_amount, swap_destination_amount),
        TradeDirection::BtoA => (swap_destination_amount, swap_source_amount),
    };

    // base amount
    let pool_tokens_from_one_side = curve
        .deposit_single_token_type(
            source_token_amount,
            swap_token_a_amount,
            swap_token_b_amount,
            pool_supply,
            trade_direction,
        )
        .unwrap();

    // perform both separately, updating amounts accordingly
    let (swap_token_a_amount, swap_token_b_amount) = match trade_direction {
        TradeDirection::AtoB => (
            swap_source_amount + results.source_amount_swapped,
            swap_destination_amount - results.destination_amount_swapped,
        ),
        TradeDirection::BtoA => (
            swap_destination_amount - results.destination_amount_swapped,
            swap_source_amount + results.source_amount_swapped,
        ),
    };
    let pool_tokens_from_source = curve
        .deposit_single_token_type(
            source_token_amount - results.source_amount_swapped,
            swap_token_a_amount,
            swap_token_b_amount,
            pool_supply,
            trade_direction,
        )
        .unwrap();
    let pool_tokens_from_destination = curve
        .deposit_single_token_type(
            results.destination_amount_swapped,
            swap_token_a_amount,
            swap_token_b_amount,
            pool_supply + pool_tokens_from_source,
            opposite_direction,
        )
        .unwrap();
    let pool_tokens_total_separate = pool_tokens_from_source + pool_tokens_from_destination;

    // slippage due to rounding or truncation errors
    let epsilon = std::cmp::max(
        1,
        pool_tokens_total_separate * epsilon_in_basis_points / 10_000,
    );
    let difference = if pool_tokens_from_one_side >= pool_tokens_total_separate {
        pool_tokens_from_one_side - pool_tokens_total_separate
    } else {
        pool_tokens_total_separate - pool_tokens_from_one_side
    };
    assert!(
        difference <= epsilon,
        "difference expected to be less than {}, actually {}",
        epsilon,
        difference
    );
}

#[test]
fn deposit_token_conversion_matches_two_step() {
    let curve = ConstantProductCurve {};
    check_deposit_token_conversion(
        &curve,
        10_000,
        1_000_000,
        1_000_000,
        TradeDirection::AtoB,
        1_000_000_000,
        50,
    );
    check_deposit_token_conversion(
        &curve,
        10_000,
        1_000_000,
        1_000_000,
        TradeDirection::BtoA,
        1_000_000_000,
        50,
    );
}

#[test]
fn offset_swap_uses_shifted_reserve() {
    let curve = Offset {
        token_b_offset: 1000,
    };
    // With no real token B liquidity, the offset alone prices the trade
    // exactly as a constant product pool with 1000 phantom tokens.
    let result = curve
        .swap_without_fees(100, 1000, 0, TradeDirection::AtoB)
        .unwrap();
    assert_eq!(result.source_amount_swapped, 99);
    assert_eq!(result.destination_amount_swapped, 90);
}

#[test]
fn offset_curve_validation() {
    let curve = Offset { token_b_offset: 0 };
    assert_eq!(curve.validate(), Err(SwapError::InvalidCurve));
    let curve = Offset {
        token_b_offset: 10,
    };
    assert_eq!(curve.validate(), Ok(()));
    assert!(!curve.allows_deposits());
    assert_eq!(curve.validate_supply(0, 10), Err(SwapError::EmptySupply));
    assert_eq!(curve.validate_supply(10, 0), Ok(()));
}

#[test]
fn constant_product_validation() {
    let curve = ConstantProductCurve {};
    assert_eq!(curve.validate(), Ok(()));
    assert!(curve.allows_deposits());
    assert_eq!(curve.validate_supply(0, 10), Err(SwapError::EmptySupply));
    assert_eq!(curve.validate_supply(10, 0), Err(SwapError::EmptySupply));
    assert_eq!(curve.validate_supply(10, 10), Ok(()));
}

#[test]
fn constant_price_validation() {
    let curve = ConstantPriceCurve { token_b_price: 0 };
    assert_eq!(curve.validate(), Err(SwapError::InvalidCurve));
    let curve = ConstantPriceCurve { token_b_price: 2 };
    assert_eq!(curve.validate(), Ok(()));
    assert_eq!(curve.validate_supply(0, 10), Err(SwapError::EmptySupply));
    assert_eq!(curve.validate_supply(10, 0), Ok(()));
}

#[test]
fn constant_price_single_sided_amounts() {
    let curve = ConstantPriceCurve { token_b_price: 2 };
    // Pool value is 100 + 50 * 2 = 200 token A units; a 100 A deposit is
    // half of it, so it earns half the supply.
    let minted = curve
        .deposit_single_token_type(100, 100, 50, 10_000, TradeDirection::AtoB)
        .unwrap();
    assert_eq!(minted, 5000);
    let minted = curve
        .deposit_single_token_type(100, 100, 50, 10_000, TradeDirection::BtoA)
        .unwrap();
    assert_eq!(minted, 10_000);
    let burned = curve
        .withdraw_single_token_type_exact_out(99, 100, 50, 10_000, TradeDirection::AtoB)
        .unwrap();
    assert_eq!(burned, 4950);
}

#[test]
fn constant_price_conversion_weighted_by_price() {
    let curve = ConstantPriceCurve { token_b_price: 2 };
    let result = curve
        .pool_tokens_to_trading_tokens(5, 10, 100, 50, RoundDirection::Floor)
        .unwrap();
    assert_eq!(result.token_a_amount, 50);
    assert_eq!(result.token_b_amount, 25);
}

#[test]
fn trade_direction_opposite_is_involution() {
    assert_eq!(
        TradeDirection::AtoB.opposite().opposite(),
        TradeDirection::AtoB
    );
    assert_eq!(
        TradeDirection::BtoA.opposite().opposite(),
        TradeDirection::BtoA
    );
}
