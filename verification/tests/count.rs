use ceph_rbd_metrics::ceph::count::{format_count, parse_count};

#[test]
fn parse_count_reads_plain_digits() {
    assert_eq!(parse_count(b"3"), Some(3));
    assert_eq!(parse_count(b"0"), Some(0));
    assert_eq!(parse_count(b"0042"), Some(42));
    assert_eq!(parse_count(b"18446744073709551615"), Some(u64::MAX));
}

#[test]
fn parse_count_rejects_what_is_no_count() {
    assert_eq!(parse_count(b""), None);
    assert_eq!(parse_count(b"-1"), None);
    assert_eq!(parse_count(b"+1"), None);
    assert_eq!(parse_count(b" 1"), None);
    assert_eq!(parse_count(b"1 "), None);
    assert_eq!(parse_count(b"12a"), None);
    assert_eq!(parse_count(b"1.0"), None);
    assert_eq!(parse_count(b"18446744073709551616"), None);
    assert_eq!(parse_count(b"99999999999999999999999"), None);
}

#[test]
fn format_count_writes_shortest_decimal() {
    assert_eq!(format_count(0), "0");
    assert_eq!(format_count(7), "7");
    assert_eq!(format_count(10), "10");
    assert_eq!(format_count(1024), "1024");
    assert_eq!(format_count(u64::MAX), "18446744073709551615");
}

#[test]
fn count_round_trips() {
    for n in [0u64, 1, 9, 10, 99, 100, 12345, u64::MAX - 1, u64::MAX] {
        assert_eq!(parse_count(format_count(n).as_bytes()), Some(n));
    }
}
