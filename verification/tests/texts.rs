use astraea::text::{decimal_string, repeat};

#[test]
fn decimal_of_single_digits() {
    assert_eq!(decimal_string(0), "0");
    assert_eq!(decimal_string(7), "7");
    assert_eq!(decimal_string(9), "9");
}

#[test]
fn decimal_of_longer_numbers() {
    assert_eq!(decimal_string(10), "10");
    assert_eq!(decimal_string(100), "100");
    assert_eq!(decimal_string(120), "120");
    assert_eq!(decimal_string(1234567890), "1234567890");
    assert_eq!(decimal_string(u32::MAX), "4294967295");
}

#[test]
fn decimal_agrees_with_the_standard_formatter() {
    let mut n: u32 = 1;
    for _ in 0..200 {
        assert_eq!(decimal_string(n), format!("{}", n));
        n = n.wrapping_mul(2654435761).wrapping_add(12345);
    }
}

#[test]
fn repeat_writes_the_unit_that_often() {
    assert_eq!(repeat("# ", 0), "");
    assert_eq!(repeat("# ", 1), "# ");
    assert_eq!(repeat("# ", 3), "# # # ");
    assert_eq!(repeat("", 5), "");
    assert_eq!(repeat("ab", 4), "abababab");
}
