use podpingd::decimal::{dec_u64, parse_watermark};

#[test]
fn renders_zero() {
    assert_eq!(dec_u64(0), b"0".to_vec());
}

#[test]
fn renders_single_digit() {
    assert_eq!(dec_u64(7), b"7".to_vec());
}

#[test]
fn renders_block_number() {
    assert_eq!(dec_u64(53691004), b"53691004".to_vec());
}

#[test]
fn renders_u64_max() {
    assert_eq!(dec_u64(u64::MAX), b"18446744073709551615".to_vec());
}

#[test]
fn parses_plain_decimal() {
    assert_eq!(parse_watermark(&b"200".to_vec()), Some(200));
}

#[test]
fn parses_trailing_newline() {
    assert_eq!(parse_watermark(&b"777\n".to_vec()), Some(777));
}

#[test]
fn parses_surrounding_whitespace() {
    assert_eq!(parse_watermark(&b"  42\r\n".to_vec()), Some(42));
}

#[test]
fn rejects_empty() {
    assert_eq!(parse_watermark(&b"".to_vec()), None);
}

#[test]
fn rejects_whitespace_only() {
    assert_eq!(parse_watermark(&b" \n".to_vec()), None);
}

#[test]
fn rejects_non_numeric() {
    assert_eq!(parse_watermark(&b"12a4".to_vec()), None);
    assert_eq!(parse_watermark(&b"-5".to_vec()), None);
}

#[test]
fn parses_u64_max_exactly() {
    assert_eq!(parse_watermark(&b"18446744073709551615".to_vec()), Some(u64::MAX));
}

#[test]
fn rejects_overflow() {
    assert_eq!(parse_watermark(&b"18446744073709551616".to_vec()), None);
    assert_eq!(parse_watermark(&b"99999999999999999999999".to_vec()), None);
}

#[test]
fn round_trip_render_parse() {
    for n in [0u64, 1, 9, 10, 105, 201, 53691004, u64::MAX] {
        assert_eq!(parse_watermark(&dec_u64(n)), Some(n));
    }
}
