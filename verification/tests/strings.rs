use delta_kernel_ffi::decimal::decimal_string;
use delta_kernel_ffi::{
    allocate_kernel_string, DeltaError, KernelStringSlice, OptionalValue, TryFromStringSlice,
};

fn utf8_error(bytes: &[u8]) -> (usize, Option<usize>) {
    let read: Result<&str, DeltaError> =
        TryFromStringSlice::try_from_slice(&KernelStringSlice::from_bytes(bytes));
    match read {
        Err(DeltaError::Utf8Error { valid_up_to, error_len }) => (valid_up_to, error_len),
        other => panic!("expected an error, got {other:?}"),
    }
}

#[test]
fn slice_of_a_string_reads_as_the_string() {
    for text in ["", "foo", "gr\u{fc}n \u{20ac} \u{1f980}"] {
        let slice = KernelStringSlice::new(text);
        let borrowed: &str = TryFromStringSlice::try_from_slice(&slice).unwrap();
        assert_eq!(borrowed, text);
        let owned: String = TryFromStringSlice::try_from_slice(&slice).unwrap();
        assert_eq!(owned, text);
    }
}

#[test]
fn slice_of_bytes_reads_as_utf8() {
    let slice = KernelStringSlice::from_bytes(&[0xe2, 0x82, 0xac]);
    let text: String = TryFromStringSlice::try_from_slice(&slice).unwrap();
    assert_eq!(text, "\u{20ac}");
}

#[test]
fn slice_passes_its_bytes_on() {
    assert_eq!(KernelStringSlice::new("\u{20ac}").as_bytes(), [0xe2, 0x82, 0xac]);
    assert_eq!(KernelStringSlice::from_bytes(&[0xff, 0]).as_bytes(), [0xff, 0]);
}

#[test]
fn invalid_bytes_are_located() {
    assert_eq!(utf8_error(&[b'a', b'b', 0xff, b'c']), (2, Some(1)));
    assert_eq!(utf8_error(&[0xf0, 0x9f, b'c']), (0, Some(2)));
    assert_eq!(utf8_error(&[0xf0, 0x9f, 0xa6, b'c']), (0, Some(3)));
}

#[test]
fn input_that_ends_too_early_is_told_apart() {
    assert_eq!(utf8_error(&[b'a', 0xe2, 0x82]), (1, None));
    assert_eq!(utf8_error(&[0xf0, 0x9f, 0xa6]), (0, None));
}

#[test]
fn kernel_strings_hold_what_was_passed() {
    let string = allocate_kernel_string(KernelStringSlice::new("a reason")).unwrap();
    assert_eq!(string.into_inner(), "a reason");
}

#[test]
fn kernel_strings_are_utf8() {
    let refused = allocate_kernel_string(KernelStringSlice::from_bytes(&[b'x', 0xc3]));
    assert!(matches!(
        refused,
        Err(DeltaError::Utf8Error { valid_up_to: 1, error_len: None })
    ));
}

#[test]
fn optional_values_keep_their_value() {
    assert_eq!(OptionalValue::from(Some(7)), OptionalValue::Present(7));
    assert_eq!(OptionalValue::<i64>::from(None), OptionalValue::Absent);
    assert!(OptionalValue::from(Some(7)) != OptionalValue::Present(8));
}

#[test]
fn numbers_are_written_in_decimal() {
    assert_eq!(decimal_string(0), "0");
    assert_eq!(decimal_string(7), "7");
    assert_eq!(decimal_string(10), "10");
    assert_eq!(decimal_string(1203), "1203");
    assert_eq!(decimal_string(u64::MAX), "18446744073709551615");
}
