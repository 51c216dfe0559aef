use token_swap::calculator::checked_ceil_div;
use token_swap::precise::PreciseNumber;
use token_swap::wide::U256;

#[test]
fn wide_round_trip_and_compare() {
    let v = U256::from_u128(u128::MAX);
    assert_eq!(v.to_u128(), Some(u128::MAX));
    let w = U256::from_u64(7);
    assert_eq!(w.to_u128(), Some(7));
    assert!(w.lt(&v));
    assert!(w.le(&v));
    assert!(w.le(&w));
    assert!(!v.lt(&w));
    assert!(U256::zero().is_zero());
    assert!(!U256::one().is_zero());
}

#[test]
fn wide_addition_carries_and_overflows() {
    let max = U256 {
        w0: u64::MAX,
        w1: u64::MAX,
        w2: u64::MAX,
        w3: u64::MAX,
    };
    assert!(max.checked_add(&U256::one()).is_none());
    let a = U256::from_u128(u128::MAX);
    let sum = a.checked_add(&U256::one()).unwrap();
    // The carry crosses into the third limb.
    assert_eq!(sum.to_u128(), None);
    let diff = sum.checked_sub(&U256::one()).unwrap();
    assert_eq!(diff.to_u128(), Some(u128::MAX));
    assert!(U256::zero().checked_sub(&U256::one()).is_none());
}

#[test]
fn wide_multiplication_is_exact() {
    let a = U256::from_u128(1 << 100);
    let b = U256::from_u128(1 << 27);
    let product = a.checked_mul(&b).unwrap();
    // 2^127 still fits the public width.
    assert_eq!(product.to_u128(), Some(1 << 127));
    let c = U256::from_u128(u128::MAX);
    let square = c.checked_mul(&c).unwrap();
    // (2^128 - 1)^2 = 2^256 - 2^129 + 1: adding 2^129 - 1 yields the
    // largest representable value, one more overflows.
    let back = square
        .checked_add(&U256::from_u128(u128::MAX).checked_add(&U256::from_u128(u128::MAX)).unwrap())
        .unwrap();
    assert!(back.checked_add(&U256::one()).is_none());
    assert!(square.checked_mul(&c).is_none());
}

#[test]
fn wide_division_and_remainder() {
    let a = U256::from_u128(10_000_000);
    let d = U256::from_u128(1_100_001);
    let (q, r) = a.div_rem(&d);
    assert_eq!(q.to_u128(), Some(9));
    assert_eq!(r.to_u128(), Some(10_000_000 - 9 * 1_100_001));
    assert_eq!(a.checked_div(&U256::zero()), None);
    assert_eq!(a.checked_rem(&U256::zero()), None);
    let big = U256::from_u128(u128::MAX).checked_mul(&U256::from_u128(u128::MAX)).unwrap();
    let (q, r) = big.div_rem(&U256::from_u128(u128::MAX));
    assert_eq!(q.to_u128(), Some(u128::MAX));
    assert!(r.is_zero());
}

#[test]
fn wide_isqrt_exact_bounds() {
    assert_eq!(U256::from_u128(0).isqrt().to_u128(), Some(0));
    assert_eq!(U256::from_u128(1).isqrt().to_u128(), Some(1));
    assert_eq!(U256::from_u128(3).isqrt().to_u128(), Some(1));
    assert_eq!(U256::from_u128(4).isqrt().to_u128(), Some(2));
    assert_eq!(U256::from_u128(99).isqrt().to_u128(), Some(9));
    assert_eq!(U256::from_u128(100).isqrt().to_u128(), Some(10));
    let big = U256::from_u128(u128::MAX).checked_mul(&U256::from_u128(u128::MAX)).unwrap();
    assert_eq!(big.isqrt().to_u128(), Some(u128::MAX));
}

#[test]
fn ceil_div_reports_minimal_divisor() {
    // 1,000,000 / 1,100 floors to 909; the ceiling is 910, and 1,099 is
    // the smallest divisor that still yields it.
    assert_eq!(checked_ceil_div(1_000_000, 1_100), Some((910, 1_099)));
    // An exact division keeps the divisor.
    assert_eq!(checked_ceil_div(1_000_000, 1_000), Some((1_000, 1_000)));
    // A dividend smaller than the divisor fails instead of returning one.
    assert_eq!(checked_ceil_div(10, 11), None);
    assert_eq!(checked_ceil_div(10, 0), None);
    // The wide version computes the same values.
    let (q, d) = U256::from_u128(1_000_000)
        .checked_ceil_div(&U256::from_u128(1_100))
        .unwrap();
    assert_eq!(q.to_u128(), Some(910));
    assert_eq!(d.to_u128(), Some(1_099));
}

#[test]
fn precise_number_arithmetic() {
    let two = PreciseNumber::new(2).unwrap();
    let three = PreciseNumber::new(3).unwrap();
    let six = two.checked_mul(&three).unwrap();
    assert_eq!(six.to_imprecise(), Some(6));
    let sum = two.checked_add(&three).unwrap();
    assert_eq!(sum.to_imprecise(), Some(5));
    let diff = three.checked_sub(&two).unwrap();
    assert_eq!(diff.to_imprecise(), Some(1));
    assert!(two.checked_sub(&three).is_none());
    let half = PreciseNumber::new(1).unwrap().checked_div(&two).unwrap();
    // One half rounds up to one under to_imprecise's nearest rounding.
    assert_eq!(half.to_imprecise(), Some(1));
    assert_eq!(half.floor().unwrap().to_imprecise(), Some(0));
    assert_eq!(half.ceiling().unwrap().to_imprecise(), Some(1));
    assert!(PreciseNumber::new(1).unwrap().checked_div(&PreciseNumber::new(0).unwrap()).is_none());
}

#[test]
fn precise_number_sqrt() {
    let nine = PreciseNumber::new(9).unwrap();
    assert_eq!(nine.sqrt().unwrap().to_imprecise(), Some(3));
    let two = PreciseNumber::new(2).unwrap();
    let root = two.sqrt().unwrap();
    // The root of two at twelve digits of precision, floored.
    let squared = root.checked_mul(&root).unwrap();
    assert!(squared.less_than_or_equal(&two));
    assert!(root.less_than(&two));
    let max = PreciseNumber::new(u128::MAX).unwrap();
    let max_root = max.sqrt().unwrap();
    let squared = max_root.checked_mul(&max_root).unwrap();
    assert!(squared.less_than_or_equal(&max));
}

#[test]
fn precise_number_comparisons() {
    let a = PreciseNumber::new(41).unwrap();
    let b = PreciseNumber::new(42).unwrap();
    assert!(a.less_than(&b));
    assert!(a.less_than_or_equal(&b));
    assert!(!b.less_than(&a));
    assert!(b.less_than_or_equal(&b));
    assert_eq!(PreciseNumber::one().to_imprecise(), Some(1));
}
