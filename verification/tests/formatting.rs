use zeckit::{format_bytes, str_contains, str_eq, str_starts_with, u64_to_dec_string};

#[test]
fn small_counts_are_plain_bytes() {
    assert_eq!(format_bytes(0), "0 B");
    assert_eq!(format_bytes(1), "1 B");
    assert_eq!(format_bytes(512), "512 B");
    assert_eq!(format_bytes(1023), "1023 B");
}

#[test]
fn kilobytes_carry_two_decimals() {
    assert_eq!(format_bytes(1024), "1.00 KB");
    assert_eq!(format_bytes(1536), "1.50 KB");
    assert_eq!(format_bytes(2048), "2.00 KB");
    assert_eq!(format_bytes(10_240), "10.00 KB");
}

#[test]
fn megabytes_and_gigabytes_scale_by_binary_units() {
    assert_eq!(format_bytes(1_048_576), "1.00 MB");
    assert_eq!(format_bytes(5 * 1_048_576), "5.00 MB");
    assert_eq!(format_bytes(1_073_741_824), "1.00 GB");
    assert_eq!(format_bytes(3 * 1_073_741_824u64), "3.00 GB");
}

#[test]
fn fractions_round_to_the_nearest_hundredth() {
    // 1.25 KB exactly
    assert_eq!(format_bytes(1280), "1.25 KB");
    // 1100000000 / 2^30 = 1.0244...
    assert_eq!(format_bytes(1_100_000_000), "1.02 GB");
    // 2047 / 1024 = 1.9990...: rounds up into the next whole
    assert_eq!(format_bytes(2047), "2.00 KB");
}

#[test]
fn decimal_rendering_matches_display() {
    for n in [0u64, 1, 9, 10, 99, 100, 12345, u64::MAX] {
        assert_eq!(u64_to_dec_string(n), n.to_string());
    }
}

#[test]
fn string_helpers_behave_like_std() {
    assert!(str_starts_with("miner_address = \"tm\"", "miner_address"));
    assert!(!str_starts_with("miner", "miner_address"));
    assert!(str_eq("[mining]", "[mining]"));
    assert!(!str_eq("[mining]", "[mining] "));
    assert!(str_contains("a Sync error happened", "Sync error"));
    assert!(!str_contains("all good", "Sync error"));
    assert!(str_contains("anything", ""));
}
