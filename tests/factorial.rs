use factorial_cache::factorial::{factorial_decimal, factorial_limbs};

#[test]
fn zero_and_one_give_one() {
    assert_eq!(factorial_decimal(0), "1");
    assert_eq!(factorial_decimal(1), "1");
}

#[test]
fn small_factorials() {
    assert_eq!(factorial_decimal(2), "2");
    assert_eq!(factorial_decimal(5), "120");
    assert_eq!(factorial_decimal(10), "3628800");
    assert_eq!(factorial_decimal(20), "2432902008176640000");
}

#[test]
fn factorial_beyond_u64() {
    assert_eq!(factorial_decimal(25), "15511210043330985984000000");
}

#[test]
fn factorial_of_one_hundred() {
    let text = factorial_decimal(100);
    assert_eq!(text.len(), 158);
    assert!(text.starts_with("93326215443944152681"));
    assert!(text.ends_with(&"0".repeat(24)));
}

#[test]
fn factorial_digits_base_two_pow_32() {
    assert_eq!(factorial_limbs(0), vec![1]);
    assert_eq!(factorial_limbs(12), vec![479001600]);
    assert_eq!(factorial_limbs(13), vec![1932053504, 1]);
}

#[test]
fn factorial_matches_product_of_small_values() {
    let mut product: u128 = 1;
    for n in 0u32..=34 {
        if n >= 2 {
            product *= n as u128;
        }
        assert_eq!(factorial_decimal(n), product.to_string());
    }
}
