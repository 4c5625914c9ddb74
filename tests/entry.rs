use nchat::text::decimal_text;
use nchat::{format_timestamp, log_line, payload_text, LocalTime};

#[test]
fn decimal_values() {
    assert_eq!(decimal_text(0), "0");
    assert_eq!(decimal_text(7), "7");
    assert_eq!(decimal_text(10), "10");
    assert_eq!(decimal_text(65535), "65535");
    assert_eq!(decimal_text(u64::MAX), "18446744073709551615");
}

#[test]
fn timestamp_is_zero_padded() {
    let t = LocalTime { year: 987, month: 1, day: 2, hour: 3, minute: 4, second: 5, millisecond: 6 };
    assert_eq!(format_timestamp(&t), "0987-01-02 03:04:05.006");
}

#[test]
fn leap_second_millis_wrap() {
    let t = LocalTime { year: 2016, month: 12, day: 31, hour: 23, minute: 59, second: 59, millisecond: 1500 };
    assert_eq!(format_timestamp(&t), "2016-12-31 23:59:59.500");
}

#[test]
fn years_outside_four_digits_carry_a_sign() {
    let t = LocalTime { year: 10000, month: 1, day: 1, hour: 0, minute: 0, second: 0, millisecond: 0 };
    assert_eq!(format_timestamp(&t), "+10000-01-01 00:00:00.000");
    let t = LocalTime { year: -5, month: 1, day: 1, hour: 0, minute: 0, second: 0, millisecond: 999 };
    assert_eq!(format_timestamp(&t), "-0005-01-01 00:00:00.999");
}

#[test]
fn utf8_payload_is_text() {
    assert_eq!(payload_text("grüße".as_bytes()), "grüße");
    assert_eq!(payload_text(b""), "");
}

#[test]
fn non_utf8_payload_is_placeholder() {
    assert_eq!(payload_text(&[0xc3]), "<BINARY DATA: 1 bytes>");
    let big = vec![0xffu8; 1234];
    assert_eq!(payload_text(&big), "<BINARY DATA: 1234 bytes>");
}

#[test]
fn hello_from_local_sender() {
    let t = LocalTime { year: 2025, month: 11, day: 30, hour: 8, minute: 0, second: 1, millisecond: 999 };
    let line = log_line(&t, "127.0.0.1:12345", b"hello");
    assert_eq!(line, "[2025-11-30 08:00:01.999] FROM 127.0.0.1:12345: hello\n");
    assert!(line.contains("FROM 127.0.0.1:12345: hello"));
}
