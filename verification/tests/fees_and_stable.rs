use token_swap::calculator::map_zero_to_none;
use token_swap::errors::SwapError;
use token_swap::fees::Fees;
use token_swap::fees::calculate_fee;
use token_swap::stable::StableCurve;
use token_swap::stable::checked_u8_mul;
use token_swap::stable::checked_u8_power;
use token_swap::stable::compute_a;
use token_swap::stable::compute_d;
use token_swap::wide::U256;

fn example_fees() -> Fees {
    Fees {
        trade_fee_numerator: 1,
        trade_fee_denominator: 100,
        owner_trade_fee_numerator: 2,
        owner_trade_fee_denominator: 100,
        owner_withdraw_fee_numerator: 1,
        owner_withdraw_fee_denominator: 1000,
        host_fee_numerator: 1,
        host_fee_denominator: 5,
    }
}

#[test]
fn fee_of_one_percent_on_fifty_is_one() {
    // The floored fee would be zero; the minimum-fee rule lifts it to one.
    assert_eq!(calculate_fee(50, 1, 100), Some(1));
    assert_eq!(example_fees().trading_fee(50), Some(1));
}

#[test]
fn fee_is_never_zero_when_enabled() {
    let fees = example_fees();
    assert!(fees.trading_fee(1).unwrap() >= 1);
    assert!(fees.owner_trading_fee(3).unwrap() >= 1);
    assert!(fees.owner_withdraw_fee(999).unwrap() >= 1);
    assert!(fees.host_fee(1).unwrap() >= 1);
    // A disabled fee or an empty amount costs nothing.
    assert_eq!(calculate_fee(0, 1, 100), Some(0));
    assert_eq!(calculate_fee(100, 0, 0), Some(0));
}

#[test]
fn fee_exact_proportions() {
    assert_eq!(calculate_fee(10_000, 1, 100), Some(100));
    assert_eq!(calculate_fee(10_050, 1, 100), Some(100));
    assert_eq!(example_fees().host_fee(100), Some(20));
}

#[test]
fn fee_overflow_and_zero_denominator_fail() {
    assert_eq!(calculate_fee(u128::MAX, 2, 100), None);
    assert_eq!(calculate_fee(100, 1, 0), None);
}

#[test]
fn fee_validation() {
    assert_eq!(example_fees().validate(), Ok(()));
    let disabled = Fees::default();
    assert_eq!(disabled.validate(), Ok(()));
    let mut broken = example_fees();
    broken.trade_fee_numerator = 100;
    broken.trade_fee_denominator = 100;
    assert_eq!(broken.validate(), Err(SwapError::InvalidFee));
    let mut broken = example_fees();
    broken.host_fee_numerator = 1;
    broken.host_fee_denominator = 0;
    assert_eq!(broken.validate(), Err(SwapError::InvalidFee));
}

#[test]
fn map_zero_to_none_behaviour() {
    assert_eq!(map_zero_to_none(0), None);
    assert_eq!(map_zero_to_none(42), Some(42));
}

#[test]
fn amplification_leverage() {
    assert_eq!(compute_a(100), Some(200));
    assert_eq!(compute_a(u64::MAX), None);
    let curve = StableCurve { amp: 100 };
    assert_eq!(compute_a(curve.amp), Some(200));
}

#[test]
fn stable_invariant_on_balanced_reserves() {
    // With equal reserves the iteration settles on the sum immediately.
    let leverage = compute_a(100).unwrap();
    assert_eq!(compute_d(leverage, 1000, 1000), Some(2000));
}

#[test]
fn stable_invariant_on_skewed_reserves() {
    let leverage = compute_a(100).unwrap();
    // The invariant sits slightly below the plain sum of the reserves.
    assert_eq!(compute_d(leverage, 1000, 2000), Some(2998));
    assert_eq!(compute_d(leverage, 0, 0), Some(0));
}

#[test]
fn small_factor_helpers() {
    let seven = U256::from_u128(7);
    assert_eq!(checked_u8_mul(&seven, 3).unwrap().to_u128(), Some(21));
    assert_eq!(checked_u8_mul(&seven, 0).unwrap().to_u128(), Some(7));
    let three = U256::from_u128(3);
    assert_eq!(checked_u8_power(&three, 4).unwrap().to_u128(), Some(81));
    assert_eq!(checked_u8_power(&three, 1).unwrap().to_u128(), Some(3));
    let max = U256::from_u128(u128::MAX);
    let squared = max.checked_mul(&max).unwrap();
    assert!(checked_u8_mul(&squared, 2).is_none());
    assert!(checked_u8_power(&squared, 2).is_none());
}
