use meta_contract::errors::{ErrorKind, PipelineError};
use meta_contract::text::{decimal_string, signed_decimal_string};

#[test]
fn decimal_of_zero_is_one_digit() {
    assert_eq!(decimal_string(0), "0");
}

#[test]
fn decimal_of_single_digits() {
    let expected = ["0", "1", "2", "3", "4", "5", "6", "7", "8", "9"];
    for (n, text) in expected.iter().enumerate() {
        assert_eq!(decimal_string(n as u64), *text);
    }
}

#[test]
fn decimal_keeps_inner_zeros() {
    assert_eq!(decimal_string(10), "10");
    assert_eq!(decimal_string(1005), "1005");
    assert_eq!(decimal_string(90_000), "90000");
}

#[test]
fn decimal_of_the_largest_number() {
    assert_eq!(decimal_string(u64::MAX), "18446744073709551615");
}

#[test]
fn decimal_agrees_with_the_standard_formatter() {
    let mut n: u64 = 1;
    for _ in 0..60 {
        assert_eq!(decimal_string(n), n.to_string());
        assert_eq!(decimal_string(n - 1), (n - 1).to_string());
        n = n.wrapping_mul(3).wrapping_add(7);
    }
}

#[test]
fn signed_decimal_of_negative_numbers() {
    assert_eq!(signed_decimal_string(-1), "-1");
    assert_eq!(signed_decimal_string(-120), "-120");
    assert_eq!(signed_decimal_string(i32::MIN), "-2147483648");
}

#[test]
fn signed_decimal_of_other_numbers() {
    assert_eq!(signed_decimal_string(0), "0");
    assert_eq!(signed_decimal_string(7), "7");
    assert_eq!(signed_decimal_string(i32::MAX), "2147483647");
}

#[test]
fn error_message_is_label_colon_cause() {
    let e = PipelineError::new(ErrorKind::HexDecode, "odd number of digits".to_string());
    assert_eq!(e.message(), "invalid hex payload: odd number of digits");
    let e = PipelineError::new(ErrorKind::AbiShape, "Invalid data".to_string());
    assert_eq!(e.message(), "payload does not match the ABI schema: Invalid data");
    let e = PipelineError::new(ErrorKind::ContentFetch, "x".to_string());
    assert_eq!(e.message(), "content fetch failed: x");
    let e = PipelineError::new(ErrorKind::Structure, "y".to_string());
    assert_eq!(e.message(), "invalid dataset structure: y");
}

#[test]
fn error_message_is_never_empty() {
    let e = PipelineError::new(ErrorKind::Structure, String::new());
    assert_eq!(e.message(), "invalid dataset structure: ");
    assert!(!e.message().is_empty());
}
