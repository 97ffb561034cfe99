use std::time::Duration;
use tor_proxy::settings::{parse_byte_size, parse_duration};

#[test]
fn duration_in_seconds() {
    assert_eq!(parse_duration("4").unwrap(), Duration::from_secs(4));
    assert_eq!(parse_duration("3600").unwrap(), Duration::from_secs(3600));
    assert_eq!(parse_duration("+7").unwrap(), Duration::from_secs(7));
    assert_eq!(parse_duration("0").unwrap(), Duration::from_secs(0));
}

#[test]
fn duration_rejects_other_text() {
    assert!(parse_duration("").is_err());
    assert!(parse_duration("-1").is_err());
    assert!(parse_duration("1.5").is_err());
    assert!(parse_duration("4s").is_err());
    assert!(parse_duration("18446744073709551616").is_err());
}

#[test]
fn byte_size_with_and_without_unit() {
    assert_eq!(parse_byte_size("512").unwrap(), 512);
    assert_eq!(parse_byte_size("512B").unwrap(), 512);
    assert_eq!(parse_byte_size("4KiB").unwrap(), 4096);
    assert_eq!(parse_byte_size("1KB").unwrap(), 1000);
}

#[test]
fn byte_size_rejects_garbage() {
    assert!(parse_byte_size("lots").is_err());
    assert!(parse_byte_size("").is_err());
}
