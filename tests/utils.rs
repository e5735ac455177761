use sysmon::text::{
    align_text, color_gradient, create_progress_bar, create_thermal_bar, format_bytes, format_duration,
    format_duration_long, truncate_with_ellipsis, Alignment,
};

#[test]
fn test_format_bytes() {
    assert_eq!(format_bytes(0), "0.00 B");
    assert_eq!(format_bytes(1024), "1.00 KB");
    assert_eq!(format_bytes(1048576), "1.00 MB");
    assert_eq!(format_bytes(1073741824), "1.00 GB");
}

#[test]
fn test_create_progress_bar() {
    assert_eq!(create_progress_bar(0, 10), "[░░░░░░░░░░]");
    assert_eq!(create_progress_bar(50, 10), "[█████░░░░░]");
    assert_eq!(create_progress_bar(100, 10), "[██████████]");
}

#[test]
fn test_truncate_with_ellipsis() {
    assert_eq!(truncate_with_ellipsis("Hello World", 5), "He...");
    assert_eq!(truncate_with_ellipsis("Hello", 10), "Hello");
    assert_eq!(truncate_with_ellipsis("Hello", 3), "...");
}

#[test]
fn test_align_text() {
    assert_eq!(align_text("Test", 10, Alignment::Left), "Test      ");
    assert_eq!(align_text("Test", 10, Alignment::Right), "      Test");
    assert_eq!(align_text("Test", 10, Alignment::Center), "   Test   ");
}

#[test]
fn format_bytes_picks_precision_by_size() {
    assert_eq!(format_bytes(1023), "1023 B");
    assert_eq!(format_bytes(1536), "1.50 KB");
    assert_eq!(format_bytes(15 * 1024), "15.0 KB");
    assert_eq!(format_bytes(150 * 1024), "150 KB");
    assert_eq!(format_bytes(10 * 1024 - 1), "10.00 KB");
    assert_eq!(format_bytes(1u64 << 50), "1.00 PB");
    assert_eq!(format_bytes(u64::MAX), "16384 PB");
}

#[test]
fn format_bytes_rounds_ties_to_even() {
    // 1.125 KB and 1.375 KB are exact ties at two decimals.
    assert_eq!(format_bytes(1152), "1.12 KB");
    assert_eq!(format_bytes(1408), "1.38 KB");
    assert_eq!(format_bytes(9), "9.00 B");
}

#[test]
fn format_duration_long_skips_zero_parts() {
    assert_eq!(format_duration_long(0), "0s");
    assert_eq!(format_duration_long(59), "59s");
    assert_eq!(format_duration_long(60), "1m");
    assert_eq!(format_duration_long(3661), "1h 1m 1s");
    assert_eq!(format_duration_long(90000), "1d 1h");
    assert_eq!(format_duration_long(86400 + 5), "1d 5s");
}

#[test]
fn format_duration_uses_two_largest_units() {
    assert_eq!(format_duration(42), "42s");
    assert_eq!(format_duration(187), "3m 7s");
    assert_eq!(format_duration(7500), "2h 5m");
    assert_eq!(format_duration(90000), "1d 1h");
}

#[test]
fn progress_bar_edges() {
    assert_eq!(create_progress_bar(0, 0), "[]");
    assert_eq!(create_progress_bar(25, 10), "[███░░░░░░░]");
    assert_eq!(create_progress_bar(24, 10), "[██░░░░░░░░]");
    assert_eq!(create_progress_bar(150, 4), "[██████]");
}

#[test]
fn truncate_edges() {
    assert_eq!(truncate_with_ellipsis("Hello", 0), "");
    assert_eq!(truncate_with_ellipsis("Hello", 2), "..");
    assert_eq!(truncate_with_ellipsis("Hello", 5), "Hello");
    assert_eq!(truncate_with_ellipsis("Hello!", 4), "H...");
}

#[test]
fn align_text_cuts_long_text() {
    assert_eq!(align_text("Dashboard", 6, Alignment::Left), "Das...");
    assert_eq!(align_text("Test", 4, Alignment::Right), "Test");
    assert_eq!(align_text("Test", 7, Alignment::Center), " Test  ");
}

#[test]
fn gradient_interpolates_and_rounds() {
    assert_eq!(color_gradient((0, 0, 0), (255, 255, 255), 0), vec![]);
    assert_eq!(color_gradient((10, 20, 30), (40, 50, 60), 1), vec![(0, 0, 0)]);
    assert_eq!(
        color_gradient((0, 100, 255), (10, 0, 0), 3),
        vec![(0, 100, 255), (5, 50, 128), (10, 0, 0)]
    );
    assert_eq!(
        color_gradient((0, 0, 0), (1, 2, 3), 5),
        vec![(0, 0, 0), (0, 1, 1), (1, 1, 2), (1, 2, 2), (1, 2, 3)]
    );
}

#[test]
fn thermal_bar_shades_filled_cells() {
    assert_eq!(create_thermal_bar(0), "[░░░░░░░░░░]");
    assert_eq!(create_thermal_bar(-50), "[░░░░░░░░░░]");
    assert_eq!(create_thermal_bar(655), "[░░░▒▒▓▓░░░]");
    assert_eq!(create_thermal_bar(1200), "[░░░▒▒▓▓▓██]");
}
