//! The exact text of the lines the relay produces.

use chat_relay::decimal::{i64_to_dec, u64_to_dec};
use chat_relay::message::{format_line, greeting_line, guest_name};

#[test]
fn decimal_rendering_is_exact() {
    assert_eq!(u64_to_dec(0), "0");
    assert_eq!(u64_to_dec(7), "7");
    assert_eq!(u64_to_dec(10), "10");
    assert_eq!(u64_to_dec(1234567890), "1234567890");
    assert_eq!(u64_to_dec(u64::MAX), "18446744073709551615");
}

#[test]
fn signed_decimal_rendering_handles_the_extremes() {
    assert_eq!(i64_to_dec(0), "0");
    assert_eq!(i64_to_dec(-1), "-1");
    assert_eq!(i64_to_dec(1700000000), "1700000000");
    assert_eq!(i64_to_dec(i64::MIN), "-9223372036854775808");
    assert_eq!(i64_to_dec(i64::MAX), "9223372036854775807");
}

#[test]
fn broadcast_line_shape() {
    assert_eq!(format_line(1700000000, "Guest42", "hello"), "1700000000 Guest42: hello");
    // A timestamp before the epoch still renders.
    assert_eq!(format_line(-17, "a", "b c"), "-17 a: b c");
    // A body may itself contain the separator.
    assert_eq!(format_line(1, "x", "y: z"), "1 x: y: z");
}

#[test]
fn greeting_shape() {
    assert_eq!(greeting_line("Guest42"), "Your username is: Guest42");
    assert_eq!(greeting_line(""), "Your username is: ");
}

#[test]
fn guest_names_are_guest_plus_number() {
    assert_eq!(guest_name(42), "Guest42");
    assert_eq!(guest_name(0), "Guest0");
}
