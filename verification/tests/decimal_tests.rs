use presence_detector::decimal::{decimal_string, parse_unsigned_decimal, NumberError};

#[test]
fn decimal_string_matches_format() {
    for n in [0u32, 1, 9, 10, 42, 1883, 65535, 4294967295] {
        assert_eq!(decimal_string(n), format!("{}", n));
    }
}

#[test]
fn parse_reads_what_std_reads() {
    for s in ["0", "+7", "007", "255", "256", "", "+", "-3", "1 ", "x", "٣"] {
        match (parse_unsigned_decimal(s, 255), s.parse::<u8>()) {
            (Ok(a), Ok(b)) => assert_eq!(a, u32::from(b)),
            (Err(a), Err(b)) => assert_eq!(a.message(), b.to_string(), "{:?}", s),
            (a, b) => panic!("{:?}: {:?} vs {:?}", s, a, b),
        }
    }
    assert_eq!(parse_unsigned_decimal("65535", 65535), Ok(65535));
    assert_eq!(parse_unsigned_decimal("65536", 65535), Err(NumberError::PosOverflow));
    assert_eq!(parse_unsigned_decimal("", 65535), Err(NumberError::Empty));
    assert_eq!(parse_unsigned_decimal("99999x", 65535), Err(NumberError::PosOverflow));
    assert_eq!(parse_unsigned_decimal("9x9999", 65535), Err(NumberError::InvalidDigit));
}

#[test]
fn decimal_roundtrip_on_values() {
    for n in [0u32, 5, 80, 1883, 65535] {
        assert_eq!(parse_unsigned_decimal(&decimal_string(n), 65535), Ok(n));
    }
}
