use std::collections::HashMap;

use sow_client::app::state::HoverPointer;
use sow_client::input::touch::{
    hold_opens_menu, hover_step, release_action, single_touch_position, PointerPress, ReleaseAction,
    TOUCH_HOLD_MS,
};

#[test]
fn touch_hover_requires_exactly_one_finger() {
    let mut touches = HashMap::new();
    assert_eq!(single_touch_position(&touches), None);

    touches.insert(7, (120.0, 240.0));
    assert_eq!(single_touch_position(&touches), Some((120.0, 240.0)));

    touches.insert(8, (320.0, 480.0));
    assert_eq!(single_touch_position(&touches), None);
}

#[test]
fn hover_follows_mouse_and_single_finger() {
    let mut touches: HashMap<u64, (f64, f64)> = HashMap::new();
    assert_eq!(hover_step(HoverPointer::Absent, Some((1.0, 2.0)), &touches), Some((HoverPointer::Absent, None)));
    assert_eq!(hover_step(HoverPointer::Mouse, None, &touches), None);
    assert_eq!(
        hover_step(HoverPointer::Mouse, Some((1.0, 2.0)), &touches),
        Some((HoverPointer::Mouse, Some((1.0, 2.0))))
    );
    assert_eq!(hover_step(HoverPointer::Touch, None, &touches), Some((HoverPointer::Absent, None)));
    touches.insert(3, (5.0, 6.0));
    assert_eq!(
        hover_step(HoverPointer::Touch, None, &touches),
        Some((HoverPointer::Touch, Some((5.0, 6.0))))
    );
}

#[test]
fn tap_hold_and_drag_on_release() {
    let touch = Some(PointerPress { is_touch: true, attack_sent: false });
    let mouse = Some(PointerPress { is_touch: false, attack_sent: false });
    let attacked = Some(PointerPress { is_touch: false, attack_sent: true });
    assert_eq!(release_action(None, false, true, 0, false), ReleaseAction::Nothing);
    assert_eq!(release_action(touch, false, true, TOUCH_HOLD_MS - 1, false), ReleaseAction::Click);
    assert_eq!(release_action(touch, false, true, TOUCH_HOLD_MS, false), ReleaseAction::ContextMenu);
    assert_eq!(release_action(touch, false, true, TOUCH_HOLD_MS, true), ReleaseAction::Nothing);
    assert_eq!(release_action(touch, true, true, 1, false), ReleaseAction::Nothing);
    assert_eq!(release_action(touch, false, false, 1, false), ReleaseAction::Nothing);
    assert_eq!(release_action(mouse, false, true, 5000, false), ReleaseAction::Click);
    assert_eq!(release_action(attacked, false, true, 1, false), ReleaseAction::Nothing);

    assert!(hold_opens_menu(touch, 1, true, false, TOUCH_HOLD_MS));
    assert!(!hold_opens_menu(touch, 1, true, false, TOUCH_HOLD_MS - 1));
    assert!(!hold_opens_menu(touch, 2, true, false, TOUCH_HOLD_MS));
    assert!(!hold_opens_menu(touch, 1, true, true, TOUCH_HOLD_MS));
    assert!(!hold_opens_menu(mouse, 1, true, false, TOUCH_HOLD_MS));
}
