use stock_crawler::amount::{Amount, MAX_MANTISSA, MAX_SCALE};

#[test]
fn zero_is_zero_and_valid() {
    let zero = Amount::zero();
    assert_eq!(zero, Amount { mantissa: 0, scale: 0 });
    assert!(zero.is_zero());
    assert!(zero.is_valid());
}

#[test]
fn zero_with_a_scale_is_still_zero() {
    let amount = Amount::new(0, 4).unwrap();
    assert!(amount.is_zero());
    assert!(!Amount::new(1, 4).unwrap().is_zero());
}

#[test]
fn new_accepts_the_largest_mantissa_and_scale() {
    assert_eq!(
        Amount::new(MAX_MANTISSA, MAX_SCALE),
        Some(Amount { mantissa: 79_228_162_514_264_337_593_543_950_335, scale: 28 })
    );
    assert_eq!(
        Amount::new(-MAX_MANTISSA, 0),
        Some(Amount { mantissa: -79_228_162_514_264_337_593_543_950_335, scale: 0 })
    );
}

#[test]
fn new_refuses_what_does_not_fit() {
    assert_eq!(Amount::new(MAX_MANTISSA + 1, 0), None);
    assert_eq!(Amount::new(-MAX_MANTISSA - 1, 0), None);
    assert_eq!(Amount::new(1, MAX_SCALE + 1), None);
    assert!(!Amount { mantissa: i128::MAX, scale: 0 }.is_valid());
}
