use monrs::decimal::{parse_u32, parse_u64};

#[test]
fn parse_u64_reads_plain_and_signed_numbers() {
    assert_eq!(parse_u64("0"), Some(0));
    assert_eq!(parse_u64("123"), Some(123));
    assert_eq!(parse_u64("+5"), Some(5));
    assert_eq!(parse_u64("007"), Some(7));
    assert_eq!(parse_u64("18446744073709551615"), Some(u64::MAX));
}

#[test]
fn parse_u64_rejects_what_std_rejects() {
    for s in ["", "+", "-1", "-", " 1", "1 ", "1a", "++1", "18446744073709551616", "99999999999999999999999"].iter() {
        assert_eq!(parse_u64(s), None, "{:?}", s);
        assert_eq!(parse_u64(s), s.parse::<u64>().ok(), "{:?}", s);
    }
}

#[test]
fn parse_agrees_with_std_on_samples() {
    for s in ["42", "+0", "4294967295", "4294967296", "1234 kB", "x", "٣"].iter() {
        assert_eq!(parse_u64(s), s.parse::<u64>().ok(), "{:?}", s);
        assert_eq!(parse_u32(s), s.parse::<u32>().ok(), "{:?}", s);
    }
}

#[test]
fn parse_u32_bounds() {
    assert_eq!(parse_u32("4294967295"), Some(u32::MAX));
    assert_eq!(parse_u32("4294967296"), None);
    assert_eq!(parse_u32("+12"), Some(12));
}
