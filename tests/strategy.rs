use token_migrator::{MigrateError, Strategy};

#[test]
fn test_fixed_0() {
    let strategy = Strategy::Fixed { e: 0 };
    assert_eq!(strategy.withdraw_amount(10, 100, 100).unwrap(), 10);
}

#[test]
fn test_fixed_mul_10() {
    let strategy = Strategy::Fixed { e: 1 };
    assert_eq!(strategy.withdraw_amount(10, 100, 1000).unwrap(), 100);
}

#[test]
fn test_fixed_div_10() {
    let strategy = Strategy::Fixed { e: -1 };
    assert_eq!(strategy.withdraw_amount(10, 100, 100).unwrap(), 1);
}

#[test]
fn test_pro_rata() {
    let strategy = Strategy::ProRata;
    assert_eq!(strategy.withdraw_amount(10, 100, 100).unwrap(), 10);
}

#[test]
fn state_test_fixed_0() {
    let strategy = Strategy::Fixed { e: 0 };
    assert_eq!(strategy.withdraw_amount(10, 100, 100).unwrap(), 10);
}

#[test]
fn state_test_fixed_mul_10() {
    let strategy = Strategy::Fixed { e: 1 };
    assert_eq!(strategy.withdraw_amount(10, 100, 1000).unwrap(), 100);
}

#[test]
fn state_test_fixed_div_10() {
    let strategy = Strategy::Fixed { e: -1 };
    assert_eq!(strategy.withdraw_amount(10, 100, 100).unwrap(), 1);
}

#[test]
fn test_fixed_div_1000() {
    let strategy = Strategy::Fixed { e: -3 };
    assert!(strategy.withdraw_amount(10, 100, 100).is_err());
}

#[test]
fn state_test_pro_rata() {
    let strategy = Strategy::ProRata;
    assert_eq!(strategy.withdraw_amount(10, 100, 100).unwrap(), 10);
}

#[test]
fn fixed_zero_passes_any_amount_through() {
    let strategy = Strategy::Fixed { e: 0 };
    assert_eq!(strategy.withdraw_amount(1, 0, 0), Ok(1));
    assert_eq!(strategy.withdraw_amount(u64::MAX, 5, 7), Ok(u64::MAX));
}

#[test]
fn zero_withdrawal_is_refused() {
    assert_eq!(Strategy::Fixed { e: 0 }.withdraw_amount(0, 100, 100), Err(MigrateError::PolicyRejection));
    assert_eq!(Strategy::Fixed { e: -3 }.withdraw_amount(10, 100, 100), Err(MigrateError::PolicyRejection));
    assert_eq!(Strategy::ProRata.withdraw_amount(1, 3, 1), Err(MigrateError::PolicyRejection));
}

#[test]
fn fixed_positive_scales_up() {
    assert_eq!(Strategy::Fixed { e: 3 }.withdraw_amount(7, 0, 0), Ok(7000));
    assert_eq!(Strategy::Fixed { e: 19 }.withdraw_amount(1, 0, 0), Ok(10_000_000_000_000_000_000));
    assert_eq!(Strategy::Fixed { e: 18 }.withdraw_amount(18, 0, 0), Ok(18_000_000_000_000_000_000));
}

#[test]
fn fixed_positive_overflow_is_an_error() {
    assert_eq!(Strategy::Fixed { e: 18 }.withdraw_amount(19, 0, 0), Err(MigrateError::ArithmeticOverflow));
    assert_eq!(Strategy::Fixed { e: 1 }.withdraw_amount(u64::MAX, 0, 0), Err(MigrateError::ArithmeticOverflow));
    assert_eq!(Strategy::Fixed { e: 20 }.withdraw_amount(1, 0, 0), Err(MigrateError::ArithmeticOverflow));
    assert_eq!(Strategy::Fixed { e: 127 }.withdraw_amount(1, 0, 0), Err(MigrateError::ArithmeticOverflow));
}

#[test]
fn fixed_negative_truncates() {
    assert_eq!(Strategy::Fixed { e: -2 }.withdraw_amount(199, 0, 0), Ok(1));
    assert_eq!(Strategy::Fixed { e: -19 }.withdraw_amount(u64::MAX, 0, 0), Ok(1));
    assert_eq!(Strategy::Fixed { e: -1 }.withdraw_amount(u64::MAX, 0, 0), Ok(u64::MAX / 10));
}

#[test]
fn fixed_negative_divisor_overflow_is_an_error() {
    assert_eq!(Strategy::Fixed { e: -20 }.withdraw_amount(u64::MAX, 0, 0), Err(MigrateError::ArithmeticOverflow));
    assert_eq!(Strategy::Fixed { e: -128 }.withdraw_amount(u64::MAX, 0, 0), Err(MigrateError::ArithmeticOverflow));
}

#[test]
fn pro_rata_is_floor_of_share() {
    assert_eq!(Strategy::ProRata.withdraw_amount(7, 3, 10), Ok(23));
    assert_eq!(Strategy::ProRata.withdraw_amount(10, 100, 1000), Ok(100));
}

#[test]
fn pro_rata_product_is_taken_at_full_width() {
    assert_eq!(Strategy::ProRata.withdraw_amount(u64::MAX, u64::MAX, u64::MAX), Ok(u64::MAX));
    assert_eq!(Strategy::ProRata.withdraw_amount(u64::MAX, u64::MAX, 2), Ok(2));
}

#[test]
fn pro_rata_result_beyond_u64_is_an_error() {
    assert_eq!(Strategy::ProRata.withdraw_amount(u64::MAX, 1, 2), Err(MigrateError::ArithmeticOverflow));
}

#[test]
fn pro_rata_zero_supply_is_an_error() {
    assert_eq!(Strategy::ProRata.withdraw_amount(10, 0, 100), Err(MigrateError::ArithmeticOverflow));
}

#[test]
fn withdraw_amount_is_repeatable() {
    for strategy in [Strategy::ProRata, Strategy::Fixed { e: 2 }, Strategy::Fixed { e: -2 }] {
        assert_eq!(strategy.withdraw_amount(12345, 678, 910), strategy.withdraw_amount(12345, 678, 910));
    }
}
