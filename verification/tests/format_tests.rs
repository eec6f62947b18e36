use elastic_explorer::format::{
    format_bytes, format_bytes_fixed2, format_number, parse_size_to_bytes,
};
use elastic_explorer::text::{parse_u32, parse_u64};

#[test]
fn test_format_number() {
    assert_eq!(format_number(0), "0");
    assert_eq!(format_number(123), "123");
    assert_eq!(format_number(1234), "1 234");
    assert_eq!(format_number(1234567), "1 234 567");
    assert_eq!(format_number(1234567890), "1 234 567 890");
}

#[test]
fn test_format_bytes() {
    assert_eq!(format_bytes(0), "0 B");
    assert_eq!(format_bytes(512), "512 B");
    assert_eq!(format_bytes(1024), "1.00 KB");
    assert_eq!(format_bytes(1536), "1.50 KB");
    assert_eq!(format_bytes(1048576), "1.00 MB");
    assert_eq!(format_bytes(1073741824), "1.00 GB");
}

#[test]
fn format_bytes_picks_the_precision_per_magnitude() {
    assert_eq!(format_bytes(10240), "10.0 KB");
    assert_eq!(format_bytes(102400), "100 KB");
    assert_eq!(format_bytes(1099511627776), "1.00 TB");
    assert_eq!(format_bytes(1125899906842624), "1.00 PB");
}

#[test]
fn test_parse_size_to_bytes() {
    assert_eq!(parse_size_to_bytes("1kb"), 1024);
    assert_eq!(parse_size_to_bytes("1.5mb"), 1572864);
    assert_eq!(parse_size_to_bytes("2gb"), 2147483648);
    assert_eq!(parse_size_to_bytes("-"), 0);
}

#[test]
fn parse_size_tolerates_case_whitespace_and_junk() {
    assert_eq!(parse_size_to_bytes(" 1KB "), 1024);
    assert_eq!(parse_size_to_bytes("1.5MB"), 1572864);
    assert_eq!(parse_size_to_bytes(""), 0);
    assert_eq!(parse_size_to_bytes("512b"), 512);
    // An unknown unit counts plain bytes.
    assert_eq!(parse_size_to_bytes("512xyz"), 512);
    // An unreadable number counts zero.
    assert_eq!(parse_size_to_bytes("1.2.3kb"), 0);
    assert_eq!(parse_size_to_bytes("1tb"), 1099511627776);
}

#[test]
fn fixed_two_decimal_rendering() {
    assert_eq!(format_bytes_fixed2(0), "0 B");
    assert_eq!(format_bytes_fixed2(512), "512 B");
    assert_eq!(format_bytes_fixed2(1536), "1.50 KB");
    assert_eq!(format_bytes_fixed2(1048576), "1.00 MB");
    assert_eq!(format_bytes_fixed2(1073741824), "1.00 GB");
    assert_eq!(format_bytes_fixed2(1099511627776), "1.00 TB");
}

#[test]
fn decimal_parsing_handles_the_integer_boundaries() {
    assert_eq!(parse_u64("18446744073709551615"), Some(u64::MAX));
    assert_eq!(parse_u64("18446744073709551616"), None);
    assert_eq!(parse_u64("+7"), Some(7));
    assert_eq!(parse_u64("7a"), None);
    assert_eq!(parse_u64(""), None);
    assert_eq!(parse_u32("4294967295"), Some(u32::MAX));
    assert_eq!(parse_u32("4294967296"), None);
}

#[test]
fn rounding_carries_into_the_next_magnitude() {
    // 1048575 bytes is 1023.999 KB; rounded to no decimals it reads 1024 KB,
    // as the next unit only starts at 1048576.
    assert_eq!(elastic_explorer::format::format_bytes(1048575), "1024 KB");
    assert_eq!(elastic_explorer::format::format_bytes(1023), "1023 B");
}
