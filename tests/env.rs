use api_framework::env::{max_retries_from, DEFAULT_MAX_RETRIES};

#[test]
fn unset_budget_is_the_default() {
    assert_eq!(max_retries_from(None), DEFAULT_MAX_RETRIES);
    assert_eq!(DEFAULT_MAX_RETRIES, 5);
}

#[test]
fn numeric_budget_is_read() {
    assert_eq!(max_retries_from(Some("3")), 3);
    assert_eq!(max_retries_from(Some("+7")), 7);
    assert_eq!(max_retries_from(Some("0")), 0);
    assert_eq!(max_retries_from(Some("255")), 255);
    assert_eq!(max_retries_from(Some("007")), 7);
}

#[test]
fn malformed_budget_falls_back() {
    assert_eq!(max_retries_from(Some("256")), 5);
    assert_eq!(max_retries_from(Some("-1")), 5);
    assert_eq!(max_retries_from(Some("")), 5);
    assert_eq!(max_retries_from(Some(" 3")), 5);
    assert_eq!(max_retries_from(Some("three")), 5);
}
