use dex::{mul_div_u64, DexError};

#[test]
fn scales_by_the_ratio() {
    assert_eq!(mul_div_u64(100, 2, 1), Ok(200));
    assert_eq!(mul_div_u64(50, 1, 2), Ok(25));
    assert_eq!(mul_div_u64(12, 5, 3), Ok(20));
    assert_eq!(mul_div_u64(0, 7, 3), Ok(0));
    assert_eq!(mul_div_u64(9, 0, 3), Ok(0));
}

#[test]
fn rounds_towards_zero() {
    assert_eq!(mul_div_u64(7, 1, 2), Ok(3));
    assert_eq!(mul_div_u64(1, 1, 2), Ok(0));
    assert_eq!(mul_div_u64(10, 2, 3), Ok(6));
    assert_eq!(mul_div_u64(2, 1, 3), Ok(0));
    assert_eq!(mul_div_u64(5, 3, 4), Ok(3));
}

#[test]
fn a_zero_divisor_is_refused() {
    assert_eq!(mul_div_u64(5, 3, 0), Err(DexError::DivisionByZero));
    assert_eq!(mul_div_u64(0, 0, 0), Err(DexError::DivisionByZero));
    assert_eq!(mul_div_u64(u64::MAX, u64::MAX, 0), Err(DexError::DivisionByZero));
}

#[test]
fn a_quotient_beyond_64_bits_is_refused() {
    assert_eq!(mul_div_u64(u64::MAX, 2, 1), Err(DexError::MathOverflow));
    assert_eq!(mul_div_u64(1 << 63, 2, 1), Err(DexError::MathOverflow));
    assert_eq!(mul_div_u64(u64::MAX, u64::MAX, 1), Err(DexError::MathOverflow));
    assert_eq!(mul_div_u64(u64::MAX, u64::MAX, u64::MAX - 1), Err(DexError::MathOverflow));
}

#[test]
fn the_product_may_pass_64_bits_when_the_quotient_fits() {
    assert_eq!(mul_div_u64(u64::MAX, u64::MAX, u64::MAX), Ok(u64::MAX));
    assert_eq!(mul_div_u64(u64::MAX, 2, 2), Ok(u64::MAX));
    assert_eq!(mul_div_u64(u64::MAX, 1, 1), Ok(u64::MAX));
    assert_eq!(mul_div_u64(u64::MAX, 3, 4), Ok(13835058055282163711));
    assert_eq!(mul_div_u64(1 << 63, 2, 2), Ok(1 << 63));
    assert_eq!(mul_div_u64((1 << 63) - 1, 2, 1), Ok(u64::MAX - 1));
}

#[test]
fn there_and_back_loses_only_the_rounding() {
    let rates: [(u64, u64); 5] = [(1, 2), (2, 1), (3, 7), (7, 3), (1, 1)];
    let amounts: [u64; 7] = [0, 1, 2, 5, 99, 1000, 123456789];
    for (num, den) in rates {
        for amount in amounts {
            let there = mul_div_u64(amount, den, num).unwrap();
            let back = mul_div_u64(there, num, den).unwrap();
            assert!(back <= amount);
            assert!((amount - back) * den <= num + den - 2);
        }
    }
}
