use exponent_amm::market::{py_to_sy, sy_to_py, trade_asset_balance, MarketFinancials};
use exponent_amm::number::{pow10_u64, Number, NUMBER_ONE};

fn num(raw: u128) -> Number {
    Number { raw }
}

#[test]
fn number_constructors() {
    assert_eq!(Number::one().raw, NUMBER_ONE);
    assert_eq!(Number::zero().raw, 0);
    assert_eq!(Number::from_natural_u64(7).raw, 7 * NUMBER_ONE);
    assert_eq!(Number::from_ratio(1, 3).raw, 333_333_333_333);
    assert_eq!(Number::from_ratio(2, 3).raw, 666_666_666_666);
    assert_eq!(Number::from_ratio(u64::MAX, 1).raw, u64::MAX as u128 * NUMBER_ONE);
}

#[test]
fn number_mul_div() {
    let a = Number::from_ratio(3, 2);
    let b = Number::from_ratio(5, 4);
    assert_eq!(a.checked_mul(&b).unwrap().raw, 1_875_000_000_000);
    assert_eq!(a.checked_div(&b).unwrap().raw, 1_200_000_000_000);
    assert_eq!(Number::one().checked_div(&Number::from_natural_u64(3)).unwrap().raw, 333_333_333_333);
    assert!(a.checked_div(&Number::zero()).is_none());
    // the product of two huge numbers does not fit
    assert!(num(u128::MAX).checked_mul(&num(u128::MAX)).is_none());
    assert!(num(u128::MAX).checked_mul(&Number::from_natural_u64(2)).is_none());
    assert_eq!(num(u128::MAX).checked_mul(&Number::one()).unwrap().raw, u128::MAX);
    // a quotient that does not fit
    assert!(num(u128::MAX).checked_div(&num(1)).is_none());
    // a huge divisor still divides exactly
    let q = num(u128::MAX - 1).checked_div(&num(u128::MAX)).unwrap();
    assert_eq!(q.raw, 999_999_999_999);
    assert_eq!(num(u128::MAX).checked_div(&num(u128::MAX)).unwrap().raw, NUMBER_ONE);
}

#[test]
fn number_rounding() {
    let x = Number::from_ratio(7, 2);
    assert_eq!(x.floor_u64(), 3);
    assert_eq!(x.ceil_u64(), 4);
    let y = Number::from_natural_u64(5);
    assert_eq!(y.floor_u64(), 5);
    assert_eq!(y.ceil_u64(), 5);
    assert!(Number::from_ratio(1, 2).less_than(&Number::one()));
}

#[test]
fn pow10_values() {
    assert_eq!(pow10_u64(0), 1);
    assert_eq!(pow10_u64(9), 1_000_000_000);
    assert_eq!(pow10_u64(19), 10_000_000_000_000_000_000);
}

#[test]
fn py_sy_conversions() {
    let rate = Number::from_ratio(3, 2);
    assert_eq!(py_to_sy(rate, 100), Some(66));
    assert_eq!(sy_to_py(rate, 100), Some(150));
    assert_eq!(sy_to_py(rate, 3), Some(4));
    assert_eq!(py_to_sy(Number::zero(), 100), None);
    assert_eq!(sy_to_py(Number::from_natural_u64(2), u64::MAX), None);
}

#[test]
fn py_sy_roundtrips_never_gain() {
    let rates = [
        Number::from_ratio(3, 2),
        Number::from_ratio(1_000_000_007, 999_999_937),
        Number::from_ratio(2, 7),
    ];
    for rate in rates {
        for amount in [0u64, 1, 2, 3, 99, 1_000_000, 123_456_789_012] {
            let sy = py_to_sy(rate, amount).unwrap();
            assert!(sy_to_py(rate, sy).unwrap() <= amount);
            let py = sy_to_py(rate, amount).unwrap();
            assert!(py_to_sy(rate, py).unwrap() <= amount);
        }
    }
}

#[test]
fn asset_balance_rounding() {
    let f = MarketFinancials { sy_balance: 3, ..Default::default() };
    let rate = Number::from_ratio(3, 2);
    assert_eq!(f.asset_balance(rate).unwrap().raw, 4_500_000_000_000);
    assert_eq!(trade_asset_balance(&f, rate, true), Some(5));
    assert_eq!(trade_asset_balance(&f, rate, false), Some(4));
    let big = MarketFinancials { sy_balance: u64::MAX, ..Default::default() };
    assert_eq!(trade_asset_balance(&big, Number::from_natural_u64(2), false), None);
    assert_eq!(trade_asset_balance(&big, Number::one(), true), Some(u64::MAX));
}

#[test]
fn sec_remaining_saturates() {
    let f = MarketFinancials { expiration_ts: 1000, ..Default::default() };
    assert_eq!(f.sec_remaining(400), 600);
    assert_eq!(f.sec_remaining(1000), 0);
    assert_eq!(f.sec_remaining(5000), 0);
}
