use drive_backup::size::{format_size, FileSize, SizeUnit};

#[test]
fn threshold_values_stay_in_lower_bucket() {
    assert_eq!(format_size(1_000), "1000 B");
    assert_eq!(format_size(1_000_000), "1000 KB");
    assert_eq!(format_size(1_000_000_000), "1000 MB");
}

#[test]
fn values_above_thresholds_change_unit() {
    assert_eq!(format_size(1_500), "1.5 KB");
    assert_eq!(format_size(1_000_001), "1 MB");
    assert_eq!(format_size(1_001), "1 KB");
    assert_eq!(format_size(1_000_000_001), "1 GB");
}

#[test]
fn zero_and_small_counts_are_bytes() {
    assert_eq!(format_size(0), "0 B");
    assert_eq!(format_size(7), "7 B");
    let f = FileSize::from_byte_count(999);
    assert_eq!(f.units, SizeUnit::Bytes);
    assert_eq!(f.hundredths, 99_900);
}

#[test]
fn values_round_to_two_decimals() {
    assert_eq!(format_size(1_050), "1.05 KB");
    assert_eq!(format_size(1_234_567_890), "1.23 GB");
    assert_eq!(format_size(1_235_000_000), "1.24 GB");
    assert_eq!(format_size(2_994_999), "2.99 MB");
    assert_eq!(format_size(2_995_000), "3 MB");
}

#[test]
fn largest_count_has_exact_value() {
    let f = FileSize::from_byte_count(u64::MAX);
    assert_eq!(f.units, SizeUnit::Gigabytes);
    assert_eq!(f.hundredths, 1_844_674_407_371);
    assert_eq!(format_size(u64::MAX), "18446744073.71 GB");
}

#[test]
fn unit_symbols() {
    assert_eq!(SizeUnit::Bytes.symbol(), "B");
    assert_eq!(SizeUnit::Kilobytes.symbol(), "KB");
    assert_eq!(SizeUnit::Megabytes.symbol(), "MB");
    assert_eq!(SizeUnit::Gigabytes.symbol(), "GB");
    let f = FileSize { hundredths: 1_210, units: SizeUnit::Megabytes };
    assert_eq!(f.to_text(), "12.1 MB");
}
