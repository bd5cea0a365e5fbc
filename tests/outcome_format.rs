use scarb_hints_run::error::RunError;
use scarb_hints_run::outcome::{
    format_panic_data, format_return_values, join_pieces, render_panic_value, report,
    ExecutionOutcome, Felt,
};

fn felt(v: u128) -> Felt {
    let mut b = [0u8; 32];
    b[16..].copy_from_slice(&v.to_be_bytes());
    Felt { be_bytes: b }
}

#[test]
fn return_values_are_comma_joined_decimals() {
    let r = format_return_values(&vec![felt(1), felt(22), felt(333)]);
    assert_eq!(r, Some("Return values : [1, 22, 333]".to_string()));
}

#[test]
fn single_return_value() {
    assert_eq!(format_return_values(&vec![felt(0)]), Some("Return values : [0]".to_string()));
}

#[test]
fn large_value_in_decimal() {
    let mut b = [0u8; 32];
    b[15] = 1;
    let r = format_return_values(&vec![Felt { be_bytes: b }]);
    assert_eq!(r, Some("Return values : [340282366920938463463374607431768211456]".to_string()));
    let r = format_return_values(&vec![Felt { be_bytes: [0xff; 32] }]);
    assert_eq!(
        r,
        Some(
            "Return values : [115792089237316195423570985008687907853269984665640564039457584007913129639935]"
                .to_string()
        )
    );
}

#[test]
fn empty_outcomes_print_nothing() {
    assert_eq!(format_return_values(&vec![]), None);
    assert_eq!(format_panic_data(&vec![]), None);
    assert!(matches!(report(ExecutionOutcome::ReturnValues(vec![])), Ok(None)));
    assert!(matches!(report(ExecutionOutcome::Panic(vec![])), Ok(None)));
}

#[test]
fn panic_value_with_text_shows_both_forms() {
    // 'A' with 31 leading zero bytes: valid UTF-8, zero bytes decode to NUL.
    let r = format_panic_data(&vec![felt(0x41)]);
    let expected = format!("Run panicked with: [65 ('{}A')]", "\0".repeat(31));
    assert_eq!(r, Some(expected));
}

#[test]
fn panic_value_without_text_shows_decimal_only() {
    let r = format_panic_data(&vec![felt(0xff)]);
    assert_eq!(r, Some("Run panicked with: [255]".to_string()));
}

#[test]
fn panic_values_mixed() {
    let text = u128::from_be_bytes(*b"\0\0\0\0\0\0\0\0\0\0\0\0\0\0hi");
    let r = format_panic_data(&vec![felt(0xc0), felt(text)]);
    let expected = format!("Run panicked with: [192, {} ('{}hi')]", text, "\0".repeat(30));
    assert_eq!(r, Some(expected));
}

#[test]
fn render_panic_value_uses_given_text() {
    assert_eq!(render_panic_value(&felt(7), Some("x".to_string())), "7 ('x')");
    assert_eq!(render_panic_value(&felt(7), None), "7");
}

#[test]
fn join_pieces_separates_with_comma() {
    assert_eq!(join_pieces(&vec![]), "");
    assert_eq!(join_pieces(&vec!["a".to_string()]), "a");
    assert_eq!(join_pieces(&vec!["a".to_string(), "b".to_string(), "c".to_string()]), "a, b, c");
}

#[test]
fn outcomes_are_reported_exclusively() {
    let r = report(ExecutionOutcome::ReturnValues(vec![felt(5)]));
    assert_eq!(r.unwrap(), Some("Return values : [5]".to_string()));
    let r = report(ExecutionOutcome::Panic(vec![felt(5)]));
    let line = r.unwrap().unwrap();
    assert!(line.starts_with("Run panicked with: [5"));
    let r = report(ExecutionOutcome::Failure(RunError::ExecutorFailure { message: "boom".to_string() }));
    assert!(matches!(r, Err(RunError::ExecutorFailure { ref message }) if message == "boom"));
}
