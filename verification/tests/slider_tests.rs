use oled_care::{opacity_from_position, opacity_to_percent, preset_is_current, preset_target};

#[test]
fn percent_of_known_alpha_values() {
    assert_eq!(opacity_to_percent(0), 0);
    assert_eq!(opacity_to_percent(50), 20);
    assert_eq!(opacity_to_percent(128), 50);
    assert_eq!(opacity_to_percent(255), 100);
}

#[test]
fn preset_targets_round_to_nearest_alpha() {
    assert_eq!(preset_target(0), 0);
    assert_eq!(preset_target(10), 26); // 25.5 rounds up
    assert_eq!(preset_target(20), 51);
    assert_eq!(preset_target(30), 77); // 76.5 rounds up
    assert_eq!(preset_target(50), 128); // 127.5 rounds up
    assert_eq!(preset_target(70), 179); // 178.5 rounds up
    assert_eq!(preset_target(100), 255);
}

#[test]
fn preset_target_caps_at_full_alpha() {
    assert_eq!(preset_target(101), 255);
    assert_eq!(preset_target(255), 255);
}

#[test]
fn preset_is_current_within_three_of_target() {
    // Target of 20% is 51.
    assert!(preset_is_current(20, 51));
    assert!(preset_is_current(20, 48));
    assert!(preset_is_current(20, 54));
    assert!(!preset_is_current(20, 47));
    assert!(!preset_is_current(20, 55));
}

#[test]
fn slider_positions_map_across_the_track() {
    // A 400-pixel track starting at x = 100.
    assert_eq!(opacity_from_position(100, 100, 400), Some(0));
    assert_eq!(opacity_from_position(300, 100, 400), Some(128)); // 127.5 rounds up
    assert_eq!(opacity_from_position(500, 100, 400), Some(255));
}

#[test]
fn slider_positions_clamp_outside_the_track() {
    assert_eq!(opacity_from_position(-50, 100, 400), Some(0));
    assert_eq!(opacity_from_position(10_000, 100, 400), Some(255));
}

#[test]
fn slider_with_no_extent_gives_no_value() {
    assert_eq!(opacity_from_position(100, 100, 0), None);
    assert_eq!(opacity_from_position(100, 100, -5), None);
}
