use device_gateway::text::{decimal_string, join};

#[test]
fn decimal_of_small_numbers() {
    assert_eq!(decimal_string(0), "0");
    assert_eq!(decimal_string(7), "7");
    assert_eq!(decimal_string(9), "9");
    assert_eq!(decimal_string(10), "10");
}

#[test]
fn decimal_of_large_numbers() {
    assert_eq!(decimal_string(3306), "3306");
    assert_eq!(decimal_string(1_000_000), "1000000");
    assert_eq!(decimal_string(1234567890), "1234567890");
    assert_eq!(decimal_string(u64::MAX), "18446744073709551615");
}

#[test]
fn join_of_nothing_is_empty() {
    assert_eq!(join(&Vec::new(), ", "), "");
}

#[test]
fn join_of_one_part_has_no_separator() {
    assert_eq!(join(&vec!["a".to_string()], ", "), "a");
}

#[test]
fn join_puts_separator_between_parts() {
    let parts = vec!["a".to_string(), String::new(), "c".to_string()];
    assert_eq!(join(&parts, ", "), "a, , c");
    assert_eq!(join(&parts, ""), "ac");
}
