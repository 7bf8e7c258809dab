use google_apis::text::{
    bool_str, i32_text, option_bool_string, option_i32_text, order_of, same_text, u64_text, Order,
};

#[test]
fn decimal_text_of_small_and_extreme_integers() {
    assert_eq!(i32_text(0), "0");
    assert_eq!(i32_text(7), "7");
    assert_eq!(i32_text(-57), "-57");
    assert_eq!(i32_text(1200), "1200");
    assert_eq!(i32_text(i32::MAX), "2147483647");
    assert_eq!(i32_text(i32::MIN), "-2147483648");
}

#[test]
fn truth_values_as_text() {
    assert_eq!(bool_str(true), "true");
    assert_eq!(bool_str(false), "false");
}

#[test]
fn order_is_by_bytes() {
    assert_eq!(order_of("a", "b"), Order::Before);
    assert_eq!(order_of("b", "a"), Order::After);
    assert_eq!(order_of("ab", "ab"), Order::Same);
    assert_eq!(order_of("ab", "abc"), Order::Before);
    assert_eq!(order_of("", ""), Order::Same);
    assert_eq!(order_of("Z", "a"), Order::Before);
    assert_eq!(order_of("é", "z"), Order::After);
    assert!(same_text("jobId", "jobId"));
    assert!(!same_text("jobId", "jobid"));
}

#[test]
fn decimal_text_of_unsigned_integers() {
    assert_eq!(u64_text(0), "0");
    assert_eq!(u64_text(10), "10");
    assert_eq!(u64_text(909), "909");
    assert_eq!(u64_text(u64::MAX), "18446744073709551615");
}

#[test]
fn text_of_values_that_may_be_absent() {
    assert_eq!(option_i32_text(None), None);
    assert_eq!(option_i32_text(Some(-1)), Some("-1".to_string()));
    assert_eq!(option_bool_string(None), None);
    assert_eq!(option_bool_string(Some(true)), Some("true".to_string()));
    assert_eq!(option_bool_string(Some(false)), Some("false".to_string()));
}
