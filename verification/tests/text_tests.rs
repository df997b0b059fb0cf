use oled_care::{
    clean_device_name, decimal_string, display_name, percent_label, position_string,
    resolution_string, signed_decimal_string,
};

#[test]
fn decimal_rendering() {
    assert_eq!(decimal_string(0), "0");
    assert_eq!(decimal_string(7), "7");
    assert_eq!(decimal_string(42), "42");
    assert_eq!(decimal_string(1024), "1024");
    assert_eq!(decimal_string(u64::MAX), "18446744073709551615");
}

#[test]
fn signed_decimal_rendering() {
    assert_eq!(signed_decimal_string(0), "0");
    assert_eq!(signed_decimal_string(1080), "1080");
    assert_eq!(signed_decimal_string(-5), "-5");
    assert_eq!(signed_decimal_string(i32::MIN), "-2147483648");
    assert_eq!(signed_decimal_string(i32::MAX), "2147483647");
}

#[test]
fn device_tag_is_removed() {
    assert_eq!(clean_device_name("\\\\.\\DISPLAY1"), "DISPLAY1");
    assert_eq!(clean_device_name("DISPLAY2"), "DISPLAY2");
    assert_eq!(clean_device_name(""), "");
    // Every occurrence goes, wherever it stands.
    assert_eq!(clean_device_name("a\\\\.\\b\\\\.\\c"), "abc");
    // A lone backslash stays.
    assert_eq!(clean_device_name("a\\b"), "a\\b");
}

#[test]
fn display_names_number_the_monitors() {
    assert_eq!(display_name("", 0), "Monitor 1");
    assert_eq!(display_name("", 2), "Monitor 3");
    assert_eq!(display_name("\\\\.\\DISPLAY1", 0), "DISPLAY1 (1)");
    assert_eq!(display_name("\\\\.\\DISPLAY2", 1), "DISPLAY2 (2)");
    assert_eq!(display_name("ultrawide", 4), "ultrawide (5)");
}

#[test]
fn monitor_row_labels() {
    assert_eq!(resolution_string(1920, 1080), "1920x1080");
    assert_eq!(resolution_string(2560, 1440), "2560x1440");
    assert_eq!(position_string(0, 0), "pos: (0, 0)");
    assert_eq!(position_string(-1024, 768), "pos: (-1024, 768)");
}

#[test]
fn percent_labels() {
    assert_eq!(percent_label(0), "0%");
    assert_eq!(percent_label(20), "20%");
    assert_eq!(percent_label(100), "100%");
}
