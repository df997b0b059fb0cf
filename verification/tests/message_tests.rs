use oled_care::{classify_overlay_message, OverlayMessageAction, WM_UPDATE_OPACITY};

#[test]
fn paint_message_paints() {
    assert!(matches!(
        classify_overlay_message(0x000F, 0),
        OverlayMessageAction::Paint
    ));
}

#[test]
fn opacity_message_carries_the_low_byte() {
    assert!(matches!(
        classify_overlay_message(WM_UPDATE_OPACITY, 200),
        OverlayMessageAction::SetOpacity(200)
    ));
    // Only the low byte of the word parameter counts.
    assert!(matches!(
        classify_overlay_message(WM_UPDATE_OPACITY, 0x1234),
        OverlayMessageAction::SetOpacity(0x34)
    ));
}

#[test]
fn destroy_message_quits() {
    assert!(matches!(
        classify_overlay_message(0x0002, 0),
        OverlayMessageAction::Quit
    ));
}

#[test]
fn other_messages_pass_on() {
    assert!(matches!(
        classify_overlay_message(0x0010, 0),
        OverlayMessageAction::PassOn
    ));
    assert!(matches!(
        classify_overlay_message(0x0400, 0),
        OverlayMessageAction::PassOn
    ));
}
