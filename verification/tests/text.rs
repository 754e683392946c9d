use portrait::text::{decimal_string, hexadecimal_string, join_strings};

#[test]
fn decimal_of_numbers() {
    assert_eq!(decimal_string(0), "0");
    assert_eq!(decimal_string(7), "7");
    assert_eq!(decimal_string(10), "10");
    assert_eq!(decimal_string(4096), "4096");
}

#[test]
fn hexadecimal_of_numbers() {
    assert_eq!(hexadecimal_string(0), "0");
    assert_eq!(hexadecimal_string(255), "ff");
    assert_eq!(hexadecimal_string(0xdead_beef), "deadbeef");
}

#[test]
fn join_puts_separator_between() {
    let parts = vec!["a".to_string(), "b".to_string(), "c".to_string()];
    assert_eq!(join_strings(&parts, ", "), "a, b, c");
    assert_eq!(join_strings(&Vec::new(), ", "), "");
}
