use user_api::text::{i32_to_decimal, u64_to_decimal};

#[test]
fn unsigned_numbers_render_in_decimal() {
    assert_eq!(u64_to_decimal(0), "0");
    assert_eq!(u64_to_decimal(7), "7");
    assert_eq!(u64_to_decimal(10), "10");
    assert_eq!(u64_to_decimal(1_234_567_890), "1234567890");
    assert_eq!(u64_to_decimal(u64::MAX), "18446744073709551615");
    for n in 0..2_000u64 {
        assert_eq!(u64_to_decimal(n), n.to_string());
        assert_eq!(u64_to_decimal(u64::MAX - n), (u64::MAX - n).to_string());
        assert_eq!(u64_to_decimal(n * 1_000_003), (n * 1_000_003).to_string());
    }
}

#[test]
fn signed_numbers_render_in_decimal() {
    assert_eq!(i32_to_decimal(0), "0");
    assert_eq!(i32_to_decimal(-1), "-1");
    assert_eq!(i32_to_decimal(42), "42");
    assert_eq!(i32_to_decimal(i32::MAX), "2147483647");
    assert_eq!(i32_to_decimal(i32::MIN), "-2147483648");
    for i in -2_000..2_000i32 {
        assert_eq!(i32_to_decimal(i), i.to_string());
    }
}
