use hello::decimal::{i32_text, usize_text};

#[test]
fn counts_are_written_in_decimal() {
    assert_eq!(usize_text(0), "0");
    assert_eq!(usize_text(7), "7");
    assert_eq!(usize_text(10), "10");
    assert_eq!(usize_text(109), "109");
    assert_eq!(usize_text(9_876_543_210), "9876543210");
    assert_eq!(usize_text(usize::MAX), usize::MAX.to_string());
}

#[test]
fn negative_numbers_carry_a_minus_sign() {
    assert_eq!(i32_text(0), "0");
    assert_eq!(i32_text(-1), "-1");
    assert_eq!(i32_text(42), "42");
    assert_eq!(i32_text(-100), "-100");
    assert_eq!(i32_text(i32::MAX), "2147483647");
    assert_eq!(i32_text(i32::MIN), "-2147483648");
}

#[test]
fn every_number_of_a_stretch_is_written_as_the_standard_library_writes_it() {
    for value in -1200..1200 {
        assert_eq!(i32_text(value), value.to_string());
    }
    for value in 0..1200usize {
        assert_eq!(usize_text(value), value.to_string());
    }
}
