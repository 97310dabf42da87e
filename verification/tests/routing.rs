use fyrox_ui::events::{OsEvent, TouchPhase};
use fyrox_ui::message::{
    ButtonState, Handle, KeyCode, KeyboardModifiers, MessageData, MouseButton, PopupMessage, UiMessage, WidgetMessage,
};
use fyrox_ui::tree::{WidgetNode, WidgetTree};
use fyrox_ui::ui::UserInterface;

fn h(i: u32) -> Handle {
    Handle::new(i, 1)
}

fn node(parent: Handle) -> WidgetNode {
    WidgetNode {
        alive: true,
        generation: 1,
        parent,
        drag_allowed: false,
        drop_allowed: false,
        mouse_directly_over: false,
        globally_visible: true,
        context_menu: Handle::none(),
        tooltip: Handle::none(),
    }
}

/// Slot 0 is empty; 1 is the root, 2 and 3 its children, 4 a child of 2.
fn tree() -> WidgetTree {
    let dead = WidgetNode { alive: false, generation: 0, ..node(Handle::none()) };
    WidgetTree {
        nodes: vec![dead, node(Handle::none()), node(h(1)), node(h(1)), node(h(2))],
        children: vec![vec![], vec![h(2), h(3)], vec![h(4)], vec![], vec![]],
    }
}

fn from(dest: Handle, w: WidgetMessage) -> UiMessage {
    UiMessage::from_widget(dest, MessageData::Widget(w))
}

#[test]
fn messages_bubble_up_to_the_root() {
    let mut ui = UserInterface::new(0, h(1));
    let mut t = tree();
    let step = ui.poll_message_step(&mut t, &from(h(4), WidgetMessage::MouseMove));
    assert_eq!(step.route, vec![h(4), h(2), h(1)]);
    let step = ui.poll_message_step(&mut t, &from(h(9), WidgetMessage::MouseMove));
    assert!(step.route.is_empty());
}

#[test]
fn focus_unfocus_and_reordering() {
    let mut ui = UserInterface::new(0, h(1));
    let mut t = tree();
    let step = ui.poll_message_step(&mut t, &UiMessage::for_widget(h(3), MessageData::Widget(WidgetMessage::Focus)));
    assert_eq!(ui.keyboard_focus_node, h(3));
    assert_eq!(step.out, vec![from(h(1), WidgetMessage::Unfocus), from(h(3), WidgetMessage::Focus)]);
    ui.poll_message_step(&mut t, &UiMessage::for_widget(h(3), MessageData::Widget(WidgetMessage::Unfocus)));
    assert_eq!(ui.keyboard_focus_node, h(1));
    ui.poll_message_step(&mut t, &UiMessage::for_widget(h(2), MessageData::Widget(WidgetMessage::Topmost)));
    assert_eq!(t.children[1], vec![h(3), h(2)]);
    ui.poll_message_step(&mut t, &UiMessage::for_widget(h(2), MessageData::Widget(WidgetMessage::Lowermost)));
    assert_eq!(t.children[1], vec![h(2), h(3)]);
}

#[test]
fn linking_unlinking_and_removal() {
    let mut ui = UserInterface::new(0, h(1));
    let mut t = tree();
    ui.poll_message_step(&mut t, &UiMessage::for_widget(h(4), MessageData::Widget(WidgetMessage::LinkWith(h(3)))));
    assert_eq!(t.nodes[4].parent, h(3));
    assert!(t.children[2].is_empty());
    assert_eq!(t.children[3], vec![h(4)]);
    ui.poll_message_step(&mut t, &UiMessage::for_widget(h(4), MessageData::Widget(WidgetMessage::Unlink)));
    assert_eq!(t.nodes[4].parent, h(1));
    assert_eq!(t.children[1], vec![h(2), h(3), h(4)]);
    ui.poll_message_step(&mut t, &UiMessage::for_widget(h(4), MessageData::Widget(WidgetMessage::LinkWith(h(2)))));
    ui.poll_message_step(&mut t, &UiMessage::for_widget(h(4), MessageData::Widget(WidgetMessage::Focus)));
    ui.poll_message_step(&mut t, &UiMessage::for_widget(h(2), MessageData::Widget(WidgetMessage::Remove)));
    assert!(!t.nodes[2].alive);
    assert!(!t.nodes[4].alive);
    assert!(t.nodes[3].alive);
    assert_eq!(t.children[1], vec![h(3)]);
    assert_eq!(ui.keyboard_focus_node, Handle::none());
    ui.poll_message_step(&mut t, &UiMessage::for_widget(h(3), MessageData::Widget(WidgetMessage::ContextMenu(Some(h(7))))));
    assert_eq!(t.nodes[3].context_menu, h(7));
}

#[test]
fn mouse_press_focuses_and_double_clicks() {
    let mut ui = UserInterface::new(0x3f00_0000, h(1));
    let mut t = tree();
    let press = || OsEvent::MouseInput { button: MouseButton::Left, state: ButtonState::Pressed };
    let (out, _) = ui.process_os_event(&mut t, press(), h(4));
    assert_eq!(ui.picked_node, h(4));
    assert_eq!(ui.prev_picked_node, h(4));
    assert_eq!(
        out,
        vec![
            from(h(1), WidgetMessage::Unfocus),
            from(h(4), WidgetMessage::Focus),
            from(h(4), WidgetMessage::MouseDown { button: MouseButton::Left }),
        ]
    );
    let (out, _) = ui.process_os_event(&mut t, press(), h(4));
    assert_eq!(out, vec![from(h(4), WidgetMessage::MouseDown { button: MouseButton::Left })]);
    let (out, _) = ui.process_os_event(&mut t, press(), h(4));
    assert_eq!(
        out,
        vec![
            from(h(4), WidgetMessage::MouseDown { button: MouseButton::Left }),
            from(h(4), WidgetMessage::DoubleClick { button: MouseButton::Left }),
        ]
    );
}

#[test]
fn drag_and_drop() {
    let mut ui = UserInterface::new(0, h(1));
    let mut t = tree();
    t.nodes[2].drag_allowed = true;
    t.nodes[3].drop_allowed = true;
    ui.process_os_event(&mut t, OsEvent::MouseInput { button: MouseButton::Left, state: ButtonState::Pressed }, h(4));
    assert_eq!(ui.drag_node, h(2));
    let (out, _) = ui.process_os_event(&mut t, OsEvent::CursorMoved { past_drag_threshold: true }, h(3));
    assert!(ui.is_dragging);
    assert_eq!(
        out,
        vec![
            from(h(3), WidgetMessage::DragStarted(h(2))),
            from(h(3), WidgetMessage::MouseEnter),
            from(h(3), WidgetMessage::MouseMove),
            from(h(3), WidgetMessage::DragOver(h(2))),
        ]
    );
    assert!(t.nodes[3].mouse_directly_over);
    let (out, _) = ui.process_os_event(&mut t, OsEvent::MouseInput { button: MouseButton::Left, state: ButtonState::Released }, h(3));
    assert_eq!(out, vec![from(h(3), WidgetMessage::MouseUp { button: MouseButton::Left }), from(h(3), WidgetMessage::Drop(h(2)))]);
    assert!(!ui.is_dragging);
    assert_eq!(ui.drag_node, Handle::none());
    let (out, _) = ui.process_os_event(&mut t, OsEvent::CursorMoved { past_drag_threshold: false }, h(2));
    assert_eq!(out[0], from(h(3), WidgetMessage::MouseLeave));
}

#[test]
fn keys_text_wheel_modifiers_and_touch() {
    let mut ui = UserInterface::new(0, h(1));
    let mut t = tree();
    let (out, _) = ui.process_os_event(
        &mut t,
        OsEvent::KeyboardInput { button: KeyCode::KeyA, state: ButtonState::Pressed, text: "a".to_string() },
        Handle::none(),
    );
    assert_eq!(out, vec![from(h(1), WidgetMessage::KeyDown(KeyCode::KeyA)), UiMessage::from_widget(h(1), MessageData::WidgetText("a".to_string()))]);
    let (out, _) = ui.process_os_event(&mut t, OsEvent::KeyboardInput { button: KeyCode::KeyA, state: ButtonState::Released, text: String::new() }, Handle::none());
    assert_eq!(out, vec![from(h(1), WidgetMessage::KeyUp(KeyCode::KeyA))]);
    assert_eq!(ui.process_os_event(&mut t, OsEvent::MouseWheel, Handle::none()), (vec![], false));
    let m = KeyboardModifiers { alt: true, shift: false, control: false, system: false };
    ui.process_os_event(&mut t, OsEvent::KeyboardModifiers(m), Handle::none());
    assert_eq!(ui.keyboard_modifiers, m);
    let (out, _) = ui.process_os_event(&mut t, OsEvent::Touch { phase: TouchPhase::Started, id: 5 }, h(3));
    assert_eq!(out.last(), Some(&from(h(3), WidgetMessage::TouchStarted { id: 5 })));
    let (out, _) = ui.process_os_event(&mut t, OsEvent::MouseWheel, Handle::none());
    assert_eq!(out, vec![from(h(3), WidgetMessage::MouseWheel)]);
    let (out, _) = ui.process_os_event(&mut t, OsEvent::Touch { phase: TouchPhase::Cancelled, id: 5 }, Handle::none());
    assert_eq!(out, vec![from(h(3), WidgetMessage::TouchCancelled { id: 5 })]);
    assert_eq!(ui.keyboard_focus_node, h(3));
}

#[test]
fn processed_flag() {
    let mut ui = UserInterface::new(0, h(1));
    let mut t = tree();
    let (_, p) = ui.process_os_event(&mut t, OsEvent::CursorMoved { past_drag_threshold: false }, h(2));
    assert!(p);
    let (_, p) = ui.process_os_event(&mut t, OsEvent::KeyboardModifiers(KeyboardModifiers::none()), h(2));
    assert!(!p);
    let (_, p) = ui.process_os_event(&mut t, OsEvent::CursorMoved { past_drag_threshold: false }, Handle::none());
    assert!(!p);
}

#[test]
fn right_click_shows_nearest_context_menu() {
    let mut ui = UserInterface::new(0, h(1));
    let mut t = tree();
    t.nodes[2].context_menu = h(8);
    ui.process_os_event(&mut t, OsEvent::MouseInput { button: MouseButton::Right, state: ButtonState::Pressed }, h(4));
    let down = from(h(4), WidgetMessage::MouseDown { button: MouseButton::Right });
    let step = ui.poll_message_step(&mut t, &down);
    assert_eq!(
        step.out,
        vec![
            UiMessage::for_widget(h(8), MessageData::Popup(PopupMessage::PlacementAtCursor(h(2)))),
            UiMessage::for_widget(h(8), MessageData::Popup(PopupMessage::Open)),
            UiMessage::for_widget(h(8), MessageData::Popup(PopupMessage::Owner(h(4)))),
        ]
    );
    let left = from(h(4), WidgetMessage::MouseDown { button: MouseButton::Left });
    assert!(ui.poll_message_step(&mut t, &left).out.is_empty());
}
