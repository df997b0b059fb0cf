use oled_care::{Controller, MonitorInfo, PanelStatus, ProtectionChange, DEFAULT_OPACITY};

fn mon(name: &str, x: i32, y: i32, w: i32, h: i32) -> MonitorInfo {
    MonitorInfo { name: name.to_string(), x, y, width: w, height: h, hmonitor: 0 }
}

fn two_monitors() -> Vec<MonitorInfo> {
    vec![mon("\\\\.\\DISPLAY1", 0, 0, 1920, 1080), mon("\\\\.\\DISPLAY2", 1920, 0, 2560, 1440)]
}

#[test]
fn new_controller_starts_inactive_with_default_opacity() {
    let c = Controller::new(two_monitors());
    assert_eq!(c.monitors.len(), 2);
    assert_eq!(c.selected, vec![false, false]);
    assert!(!c.overlays_active);
    assert_eq!(c.opacity, DEFAULT_OPACITY);
    assert_eq!(c.overlay_manager.active_count(), 0);
    assert!(!c.any_selected());
    assert_eq!(c.selected_count(), 0);
}

#[test]
fn toggle_selection_flips_only_while_inactive() {
    let mut c = Controller::new(two_monitors());
    c.toggle_selection(1);
    assert_eq!(c.selected, vec![false, true]);
    c.toggle_selection(1);
    assert_eq!(c.selected, vec![false, false]);

    c.toggle_selection(0);
    let change = c.toggle_protection();
    assert!(matches!(change, ProtectionChange::Enabled(_)));
    // Selection is locked while protection is on.
    c.toggle_selection(1);
    assert_eq!(c.selected, vec![true, false]);
}

#[test]
fn toggle_protection_without_selection_does_nothing() {
    let mut c = Controller::new(two_monitors());
    let change = c.toggle_protection();
    assert!(matches!(change, ProtectionChange::Unchanged));
    assert!(!c.overlays_active);
}

#[test]
fn toggle_protection_round_trip() {
    let mut c = Controller::new(two_monitors());
    c.toggle_selection(0);
    c.toggle_selection(1);

    let change = c.toggle_protection();
    let requests = match change {
        ProtectionChange::Enabled(r) => r,
        _ => panic!("expected an activation"),
    };
    assert!(c.overlays_active);
    assert_eq!(requests.len(), 2);
    assert_eq!(requests[0].0, 0);
    assert_eq!(requests[1].0, 1);
    assert_eq!(requests[0].1.opacity, DEFAULT_OPACITY);
    assert_eq!(requests[1].1.width, 2560);

    // The shell reports the spawned window handles back.
    c.register_hwnd(0, 0x100);
    c.register_hwnd(1, 0x200);
    assert_eq!(c.overlay_manager.active_count(), 2);

    let change = c.toggle_protection();
    let closed = match change {
        ProtectionChange::Disabled(h) => h,
        _ => panic!("expected a deactivation"),
    };
    assert!(!c.overlays_active);
    assert_eq!(closed, vec![0x100, 0x200]);
    assert_eq!(c.overlay_manager.active_count(), 0);
}

#[test]
fn activation_skips_monitors_already_covered() {
    let mut c = Controller::new(two_monitors());
    c.toggle_selection(0);
    c.toggle_selection(1);
    // A handle delivered late, before the switch is flipped.
    c.register_hwnd(0, 0x42);
    let change = c.toggle_protection();
    let requests = match change {
        ProtectionChange::Enabled(r) => r,
        _ => panic!("expected an activation"),
    };
    assert_eq!(requests.len(), 1);
    assert_eq!(requests[0].0, 1);
}

#[test]
fn set_opacity_posts_only_while_active_and_on_change() {
    let mut c = Controller::new(two_monitors());
    c.toggle_selection(0);

    // Inactive: the value changes, nothing is owed.
    let posts = c.set_opacity(90);
    assert_eq!(c.opacity, 90);
    assert!(posts.is_empty());

    c.toggle_protection();
    c.register_hwnd(0, 0x77);

    // Unchanged value: nothing is owed.
    let posts = c.set_opacity(90);
    assert!(posts.is_empty());

    // Changed value while active: one post per live overlay.
    let posts = c.set_opacity(120);
    assert_eq!(c.opacity, 120);
    assert_eq!(posts, vec![(0x77, 120)]);
}

#[test]
fn apply_preset_sets_target_alpha_and_posts() {
    let mut c = Controller::new(two_monitors());
    c.toggle_selection(1);
    c.toggle_protection();
    c.register_hwnd(1, 0x88);

    let posts = c.apply_preset(20);
    assert_eq!(c.opacity, 51);
    assert_eq!(posts, vec![(0x88, 51)]);

    // Applying the same preset again still posts: the original always
    // re-sends on a preset click.
    let posts = c.apply_preset(20);
    assert_eq!(posts, vec![(0x88, 51)]);
}

#[test]
fn opacity_percent_of_default_is_twenty() {
    let c = Controller::new(two_monitors());
    assert_eq!(c.opacity_percent(), 20);
}

#[test]
fn panel_status_follows_the_state() {
    let mut c = Controller::new(two_monitors());
    assert!(matches!(c.panel_status(), PanelStatus::SelectMonitors));

    c.toggle_selection(0);
    assert!(matches!(c.panel_status(), PanelStatus::SelectedMonitors(1)));

    c.toggle_protection();
    c.register_hwnd(0, 0x1);
    assert!(matches!(c.panel_status(), PanelStatus::ActiveOverlays(1)));
}
