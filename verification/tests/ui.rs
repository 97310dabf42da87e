use fyrox_ui::message::{ButtonState, Handle, KeyboardModifiers, MessageData, MessageDirection, MouseButton, UiMessage, WidgetMessage};
use fyrox_ui::ui::{RcUiNodeHandle, RestrictionEntry, UserInterface};

fn h(i: u32) -> Handle {
    Handle::new(i, 1)
}

fn entry(i: u32, stop: bool) -> RestrictionEntry {
    RestrictionEntry { handle: h(i), stop }
}

#[test]
fn mouse_capture_is_exclusive() {
    let mut ui = UserInterface::new(0x3e99_999a, Handle::none());
    assert!(ui.capture_mouse(h(1)));
    assert!(!ui.capture_mouse(h(2)));
    assert_eq!(ui.captured_node(), h(1));
    ui.release_mouse_capture();
    assert!(ui.captured_node().is_none());
    assert!(ui.capture_mouse(h(2)));
}

#[test]
fn push_then_remove_restriction_restores_stack() {
    let mut ui = UserInterface::new(0, Handle::none());
    ui.push_picking_restriction(entry(1, false));
    let before: Vec<RestrictionEntry> = ui.picking_restriction_stack().to_vec();
    ui.push_picking_restriction(entry(2, true));
    assert_eq!(ui.top_picking_restriction(), Some(entry(2, true)));
    ui.remove_picking_restriction(h(2));
    assert_eq!(ui.picking_restriction_stack(), before.as_slice());
    ui.remove_picking_restriction(h(9));
    assert_eq!(ui.picking_restriction_stack(), before.as_slice());
    ui.drop_picking_restrictions();
    assert_eq!(ui.top_picking_restriction(), None);
}

#[test]
fn hit_test_order() {
    let mut ui = UserInterface::new(0, Handle::none());
    assert_eq!(ui.hit_test(false, h(7), &[]), h(7));
    ui.push_picking_restriction(entry(1, false));
    ui.push_picking_restriction(entry(2, false));
    assert_eq!(ui.hit_test(false, h(7), &[h(10), h(20)]), h(20));
    assert_eq!(ui.hit_test(false, h(7), &[h(10), Handle::none()]), h(10));
    ui.capture_mouse(h(5));
    assert_eq!(ui.hit_test(true, h(7), &[h(10), h(20)]), h(5));
    assert_eq!(ui.hit_test(false, h(7), &[h(10), h(20)]), h(20));
}

#[test]
fn hit_test_stops_at_stop_entry() {
    let mut ui = UserInterface::new(0, Handle::none());
    ui.push_picking_restriction(entry(1, false));
    ui.push_picking_restriction(entry(2, true));
    assert!(ui.hit_test(false, h(7), &[h(10), Handle::none()]).is_none());
}

#[test]
fn picking_resets_double_clicks_only_on_change() {
    let mut ui = UserInterface::new(42, Handle::none());
    assert!(ui.try_set_picked_node(h(3)));
    assert!(!ui.try_set_picked_node(h(3)));
    assert_eq!(ui.picked_node, h(3));
}

#[test]
fn focus_moves_with_messages() {
    let mut ui = UserInterface::new(0, Handle::none());
    let out = ui.request_focus(h(1));
    assert_eq!(out, vec![UiMessage::from_widget(h(1), MessageData::Widget(WidgetMessage::Focus))]);
    let out = ui.request_focus(h(2));
    assert_eq!(out.len(), 2);
    assert_eq!(out[0].destination, h(1));
    assert_eq!(out[0].direction, MessageDirection::FromWidget);
    assert_eq!(out[0].data, MessageData::Widget(WidgetMessage::Unfocus));
    assert!(ui.request_focus(h(2)).is_empty());
    assert_eq!(ui.request_focus(Handle::none()).len(), 1);
}

#[test]
fn shared_handle_keeps_its_widget() {
    assert_eq!(RcUiNodeHandle::new(h(4)).handle(), h(4));
    assert_eq!(UserInterface::new(0, Handle::none()).keyboard_modifiers(), KeyboardModifiers::none());
}

#[test]
fn widget_is_enabled_only_with_all_ancestors() {
    assert!(fyrox_ui::ui::is_node_enabled(&[true, true, true]));
    assert!(!fyrox_ui::ui::is_node_enabled(&[true, false, true]));
    assert!(!fyrox_ui::ui::is_node_enabled(&[false]));
}

#[test]
fn two_quick_presses_make_a_double_click() {
    let mut ui = UserInterface::new(7, Handle::none());
    assert!(!ui.register_press(MouseButton::Left, false));
    assert_eq!(ui.double_click_entries[0].click_count, 1);
    assert_eq!(ui.double_click_entries[0].timer, 7);
    assert!(ui.register_press(MouseButton::Left, true));
    assert_eq!(ui.double_click_entries[0].click_count, 0);
    assert!(!ui.register_press(MouseButton::Right, true));
    assert_eq!(ui.double_click_entries.len(), 2);
    assert!(!ui.register_press(MouseButton::Left, false));
    assert_eq!(ui.double_click_entries[0].click_count, 1);
}

#[test]
fn mouse_and_modifier_state() {
    let mut ui = UserInterface::new(0, Handle::none());
    ui.set_mouse_button_state(MouseButton::Right, ButtonState::Pressed);
    assert_eq!(ui.mouse_state.right, ButtonState::Pressed);
    assert_eq!(ui.mouse_state.left, ButtonState::Released);
    ui.set_mouse_button_state(MouseButton::Back, ButtonState::Pressed);
    assert_eq!(ui.mouse_state.middle, ButtonState::Released);
    let m = KeyboardModifiers { alt: true, shift: false, control: false, system: false };
    ui.set_keyboard_modifiers(m);
    assert_eq!(ui.keyboard_modifiers(), m);
}

#[test]
fn shared_handle_removes_widget_after_last_release() {
    let mut shared = RcUiNodeHandle::new(h(4));
    assert_eq!(shared.uses(), 1);
    shared.acquire();
    assert_eq!(shared.uses(), 2);
    assert_eq!(shared.release(), None);
    assert_eq!(
        shared.release(),
        Some(UiMessage::for_widget(h(4), MessageData::Widget(WidgetMessage::Remove)))
    );
    assert_eq!(shared.uses(), 0);
}

#[test]
fn root_canvas_starts_focused() {
    let mut ui = UserInterface::new(0, h(1));
    assert_eq!(ui.keyboard_focus_node, h(1));
    let out = ui.request_focus(h(2));
    assert_eq!(out.len(), 2);
    assert_eq!(out[0], UiMessage::from_widget(h(1), MessageData::Widget(WidgetMessage::Unfocus)));
    assert_eq!(out[1], UiMessage::from_widget(h(2), MessageData::Widget(WidgetMessage::Focus)));
}

#[test]
fn shared_handle_sequence_removes_once() {
    let mut shared = RcUiNodeHandle::new(h(6));
    let mut removals = 0;
    shared.acquire();
    shared.acquire();
    for _ in 0..3 {
        if shared.release().is_some() {
            removals += 1;
        }
    }
    assert_eq!(removals, 1);
    assert_eq!(shared.uses(), 0);
}
