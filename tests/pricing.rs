use emojimarket_program::error::ErrorCode;
use emojimarket_program::math::{
    calculate_fee, calculate_malus, calculate_quadratic_uplift, calculate_total_cost,
    calculate_unit_price, calculate_user_share, MAX_MALUS,
};

#[test]
fn malus_is_zero_at_start() {
    assert_eq!(calculate_malus(0, 3600, 500), Ok(0));
    assert_eq!(calculate_malus(1800, 3600, 0), Ok(0));
}

#[test]
fn malus_exact_values() {
    // x = 0.01, k = 1: exponent 0.0101010..., exp - 1 by five terms
    assert_eq!(calculate_malus(36, 3600, 1000), Ok(10_152_196));
    // x = 0.1, k = 0.1: exponent 0.0111...
    assert_eq!(calculate_malus(360, 3600, 100), Ok(11_173_067));
}

#[test]
fn malus_saturates_when_time_is_exhausted() {
    assert_eq!(calculate_malus(3600, 3600, 1000), Ok(MAX_MALUS));
    assert_eq!(calculate_malus(10_000, 3600, 0), Ok(1_000_000_000_000));
}

#[test]
fn malus_errors() {
    assert_eq!(calculate_malus(10, 0, 1000), Err(ErrorCode::DivisionByZero));
    assert_eq!(calculate_malus(-1, 3600, 1000), Err(ErrorCode::ArithmeticOverflow));
    // exponent 1.0 makes the fifth power leave 128 bits
    assert_eq!(calculate_malus(1800, 3600, 1000), Err(ErrorCode::ArithmeticOverflow));
}

#[test]
fn malus_is_monotone_in_elapsed_time() {
    let mut last = 0u64;
    for elapsed in [0i64, 1, 36, 100, 150] {
        let m = calculate_malus(elapsed, 3600, 1000).unwrap();
        assert!(m >= last);
        last = m;
    }
}

#[test]
fn uplift_exact_values() {
    assert_eq!(calculate_quadratic_uplift(0, 5_000_000, 7_000_000), Ok(1_000_000_000));
    // 1 + 1.0 * 10
    assert_eq!(calculate_quadratic_uplift(10, 1_000_000, 0), Ok(11_000_000_000));
    // 1 + 1.0 * 10^2
    assert_eq!(calculate_quadratic_uplift(10, 0, 1_000_000), Ok(101_000_000_000));
    // 1 + 0.5 * 4 + 0.25 * 16
    assert_eq!(calculate_quadratic_uplift(4, 500_000, 250_000), Ok(7_000_000_000));
}

#[test]
fn uplift_overflow() {
    assert_eq!(
        calculate_quadratic_uplift(u64::MAX, 1, 1),
        Err(ErrorCode::ArithmeticOverflow)
    );
    assert_eq!(
        calculate_quadratic_uplift(1, u64::MAX, 0),
        Err(ErrorCode::ArithmeticOverflow)
    );
}

#[test]
fn uplift_is_monotone_in_votes() {
    let mut last = 0u64;
    for n in [0u64, 1, 2, 5, 10, 1000] {
        let u = calculate_quadratic_uplift(n, 10_000, 1_000).unwrap();
        assert!(u >= last);
        last = u;
    }
    assert!(calculate_quadratic_uplift(3, 10_000, 1_000).unwrap() < calculate_quadratic_uplift(4, 10_000, 1_000).unwrap());
}

#[test]
fn unit_price_exact_values() {
    assert_eq!(calculate_unit_price(1000, 0, 1_000_000_000), Ok(1000));
    assert_eq!(calculate_unit_price(1000, 10_152_196, 1_000_000_000), Ok(1010));
    assert_eq!(calculate_unit_price(1000, 0, 11_000_000_000), Ok(11_000));
    assert_eq!(calculate_unit_price(1000, 500_000_000, 2_000_000_000), Ok(3000));
    assert_eq!(
        calculate_unit_price(u64::MAX, u64::MAX, 1_000_000_000),
        Err(ErrorCode::ArithmeticOverflow)
    );
    assert_eq!(
        calculate_unit_price(u64::MAX, 0, 2_000_000_000),
        Err(ErrorCode::ArithmeticOverflow)
    );
}

#[test]
fn pricing_is_deterministic() {
    assert_eq!(calculate_malus(36, 3600, 1000), calculate_malus(36, 3600, 1000));
    assert_eq!(
        calculate_quadratic_uplift(7, 123_456, 654_321),
        calculate_quadratic_uplift(7, 123_456, 654_321)
    );
    assert_eq!(
        calculate_unit_price(777, 12_345, 1_234_567_890),
        calculate_unit_price(777, 12_345, 1_234_567_890)
    );
}

#[test]
fn total_cost_is_exact() {
    assert_eq!(calculate_total_cost(1234, 1), Ok(1234));
    assert_eq!(calculate_total_cost(1000, 7), Ok(7000));
    assert_eq!(calculate_total_cost(u64::MAX, 1), Ok(u64::MAX));
    assert_eq!(calculate_total_cost(u64::MAX, 2), Err(ErrorCode::ArithmeticOverflow));
}

#[test]
fn fee_exact_values() {
    assert_eq!(calculate_fee(1000, 200), Ok(20));
    assert_eq!(calculate_fee(1000, 300), Ok(30));
    assert_eq!(calculate_fee(999, 2500), Ok(249));
    assert_eq!(calculate_fee(999, 7500), Ok(749));
    assert_eq!(calculate_fee(u64::MAX, 10000), Ok(u64::MAX));
    assert_eq!(calculate_fee(u64::MAX, 20000), Err(ErrorCode::ArithmeticOverflow));
}

#[test]
fn complementary_fees_stay_within_total() {
    for total in [0u64, 1, 999, 1000, 123_457, u64::MAX] {
        for bps in [0u16, 1, 200, 3333, 5000, 9999, 10000] {
            let a = calculate_fee(total, bps).unwrap();
            let b = calculate_fee(total, 10000 - bps).unwrap();
            assert!(a as u128 + b as u128 <= total as u128);
        }
    }
}

#[test]
fn user_share_exact_values() {
    assert_eq!(calculate_user_share(950, 1, 1), Ok(950));
    assert_eq!(calculate_user_share(1000, 1, 3), Ok(333));
    assert_eq!(calculate_user_share(1000, 2, 3), Ok(666));
    assert_eq!(calculate_user_share(1000, 1, 0), Err(ErrorCode::DivisionByZero));
    assert_eq!(calculate_user_share(u64::MAX, 3, 2), Err(ErrorCode::ArithmeticOverflow));
}

#[test]
fn error_messages() {
    assert_eq!(ErrorCode::AlreadyClaimed.msg(), "Rewards already claimed");
    assert_eq!(ErrorCode::TooManyOutcomes.msg(), "Too many distinct outcomes");
}
