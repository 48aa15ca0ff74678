use http_drogue::human::human_bytes;

#[test]
fn bytes_below_one_kib() {
    assert_eq!(human_bytes(0), "0 B");
    assert_eq!(human_bytes(1), "1 B");
    assert_eq!(human_bytes(1023), "1023 B");
}

#[test]
fn kib_with_two_decimals() {
    assert_eq!(human_bytes(1024), "1.00 KiB");
    assert_eq!(human_bytes(1536), "1.50 KiB");
    assert_eq!(human_bytes(262144), "256.00 KiB");
    // The fraction is truncated, not rounded: 2047 / 1024 = 1.9990...
    assert_eq!(human_bytes(2047), "1.99 KiB");
}

#[test]
fn mib_and_gib() {
    assert_eq!(human_bytes(1048576), "1.00 MiB");
    assert_eq!(human_bytes(5 * 1048576 + 1048576 / 4), "5.25 MiB");
    assert_eq!(human_bytes(1073741824), "1.00 GiB");
    assert_eq!(human_bytes(2 * 1073741824), "2.00 GiB");
}

#[test]
fn largest_counts_stay_exact() {
    // u64::MAX bytes is 17179869183.99... GiB, truncated to two decimals.
    assert_eq!(human_bytes(u64::MAX), "17179869183.99 GiB");
}
