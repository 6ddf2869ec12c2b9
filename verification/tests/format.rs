use sysdash::format::{
    bar_string, decimal_string, gb_string, mb_number_string, mb_string, percent_string,
    truncate_chars,
};

#[test]
fn decimal_strings() {
    assert_eq!(decimal_string(0), "0");
    assert_eq!(decimal_string(7), "7");
    assert_eq!(decimal_string(42), "42");
    assert_eq!(decimal_string(1_000_000), "1000000");
    assert_eq!(decimal_string(u64::MAX), "18446744073709551615");
}

#[test]
fn percent_strings() {
    assert_eq!(percent_string(0), "0.00%");
    assert_eq!(percent_string(12_340_000), "12.34%");
    assert_eq!(percent_string(100_000_000), "100.00%");
    // Rounds to the nearest hundredth, ties up.
    assert_eq!(percent_string(12_345_000), "12.35%");
    assert_eq!(percent_string(12_344_999), "12.34%");
}

#[test]
fn gb_formatter() {
    assert_eq!(gb_string(2_500_000_000), "2.50 GB");
    assert_eq!(gb_string(0), "0.00 GB");
    assert_eq!(gb_string(8_000_000_000), "8.00 GB");
    assert_eq!(gb_string(1_234_000_000), "1.23 GB");
}

#[test]
fn mb_formatter() {
    assert_eq!(mb_string(734_000_000), "734.00 MB");
    assert_eq!(mb_string(1_500_000), "1.50 MB");
    assert_eq!(mb_number_string(123_456_789), "123.46");
}

#[test]
fn bar_zero_percent_has_no_filled_cells() {
    assert_eq!(bar_string(0), format!("[ {} ]", "          "));
}

#[test]
fn bar_full_percent_fills_track() {
    assert_eq!(bar_string(100_000_000), format!("[ {} ]", "||||||||||"));
}

#[test]
fn bar_fifty_five_percent_fills_six_cells() {
    // round(55) = 55; 55 cells of percent over a ten-cell track round up to 6.
    assert_eq!(bar_string(55_000_000), format!("[ {} ]", "||||||    "));
}

#[test]
fn bar_clamps_above_track_width() {
    // Readings above 100% keep the bar at the track width.
    assert_eq!(bar_string(250_000_000), format!("[ {} ]", "||||||||||"));
}

#[test]
fn name_truncation() {
    assert_eq!(truncate_chars("short", 21), "short");
    assert_eq!(
        truncate_chars("a-very-long-process-name-indeed", 21),
        "a-very-long-process-n"
    );
    assert_eq!(truncate_chars("", 21), "");
}
