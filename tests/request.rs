use factorial_cache::request::{refusal_message, validate, FactorialProcessingQueryParams, Validation};

#[test]
fn no_query_is_no_input() {
    assert!(matches!(validate(None, 100_000), Validation::NoInput));
}

#[test]
fn number_above_limit_is_rejected() {
    let q = FactorialProcessingQueryParams { input_number: 100_001 };
    match validate(Some(q), 100_000) {
        Validation::Rejected(m) => assert_eq!(m, "The input number is too big!"),
        _ => panic!("expected a refusal"),
    }
    let q = FactorialProcessingQueryParams { input_number: u32::MAX };
    assert!(matches!(validate(Some(q), 100_000), Validation::Rejected(_)));
}

#[test]
fn number_at_limit_is_accepted() {
    let q = FactorialProcessingQueryParams { input_number: 100_000 };
    assert!(matches!(validate(Some(q), 100_000), Validation::Accepted(100_000)));
    let q = FactorialProcessingQueryParams { input_number: 0 };
    assert!(matches!(validate(Some(q), 0), Validation::Accepted(0)));
}

#[test]
fn refusal_text() {
    assert_eq!(refusal_message(), "The input number is too big!");
}
