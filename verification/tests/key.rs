use fyrox_ui::key::{
    is_modifier_key, HotKey, HotKeyEditorBuilder, HotKeyEditorMessage, KeyBinding, KeyBindingEditorBuilder,
    KeyBindingEditorMessage,
};
use fyrox_ui::message::{
    Handle, KeyCode, KeyboardModifiers, MessageData, MessageDirection, MouseButton, TextMessage, UiMessage,
    WidgetMessage,
};

fn h(i: u32) -> Handle {
    Handle::new(i, 1)
}

fn text_of(m: &UiMessage) -> String {
    match &m.data {
        MessageData::Text(TextMessage::Text(s)) => s.clone(),
        _ => panic!("not a text message"),
    }
}

#[test]
fn hot_key_texts() {
    assert_eq!(HotKey::NotSet.to_string(), "Not Set");
    assert_eq!(HotKey::from_key_code(KeyCode::KeyA).to_string(), "KeyA");
    assert_eq!(HotKey::ctrl_key(KeyCode::KeyA).to_string(), "Ctrl+KeyA");
    assert_eq!(HotKey::shift_key(KeyCode::Space).to_string(), "Shift+Space");
    assert_eq!(HotKey::alt_key(KeyCode::Escape).to_string(), "Alt+Escape");
    let all = HotKey::Keys {
        code: KeyCode::KeyA,
        modifiers: KeyboardModifiers { alt: true, shift: true, control: true, system: true },
    };
    assert_eq!(all.to_string(), "Ctrl+Alt+Shift+Sys+KeyA");
}

#[test]
fn hot_key_constructors_set_one_modifier() {
    match HotKey::alt_key(KeyCode::KeyB) {
        HotKey::Keys { code, modifiers } => {
            assert_eq!(code, KeyCode::KeyB);
            assert!(modifiers.alt && !modifiers.shift && !modifiers.control && !modifiers.system);
        }
        HotKey::NotSet => panic!(),
    }
}

#[test]
fn key_binding_texts_and_comparison() {
    assert_eq!(KeyBinding::NotSet.to_string(), "Not Set");
    let k = KeyBinding::from_key_code(KeyCode::KeyA);
    assert_eq!(k.to_string(), "KeyA");
    assert!(k.eq_key_code(KeyCode::KeyA));
    assert!(!k.eq_key_code(KeyCode::Space));
    assert!(!KeyBinding::NotSet.eq_key_code(KeyCode::KeyA));
}

#[test]
fn modifier_keys() {
    assert!(is_modifier_key(KeyCode::ControlLeft));
    assert!(is_modifier_key(KeyCode::ShiftLeft));
    assert!(!is_modifier_key(KeyCode::KeyA));
}

#[test]
fn hot_key_editor_takes_key_with_modifiers_while_editing() {
    let (mut editor, shown) = HotKeyEditorBuilder::new().build(h(1), h(2));
    assert_eq!(shown, "Not Set");
    let mut click = UiMessage::for_widget(h(1), MessageData::Widget(WidgetMessage::MouseDown { button: MouseButton::Left }));
    let out = editor.handle_routed_message(KeyboardModifiers::none(), &mut click);
    assert_eq!(out.len(), 1);
    assert_eq!(text_of(&out[0]), "[WAITING INPUT]");
    assert!(editor.editing);

    let ctrl = KeyboardModifiers { alt: false, shift: false, control: true, system: false };
    let mut modifier = UiMessage::for_widget(h(1), MessageData::Widget(WidgetMessage::KeyDown(KeyCode::ControlLeft)));
    assert!(editor.handle_routed_message(ctrl, &mut modifier).is_empty());
    assert!(!modifier.handled);

    let mut key = UiMessage::for_widget(h(1), MessageData::Widget(WidgetMessage::KeyDown(KeyCode::KeyS)));
    let out = editor.handle_routed_message(ctrl, &mut key);
    assert!(key.handled);
    assert_eq!(out, vec![HotKeyEditorMessage::value(h(1), MessageDirection::ToWidget, HotKey::ctrl_key(KeyCode::KeyS))]);

    let mut set = out[0].clone();
    let out = editor.handle_routed_message(ctrl, &mut set);
    assert_eq!(editor.value, HotKey::ctrl_key(KeyCode::KeyS));
    assert_eq!(out.len(), 2);
    assert_eq!(text_of(&out[0]), "Ctrl+KeyS");
    assert_eq!(out[1], HotKeyEditorMessage::value(h(1), MessageDirection::FromWidget, HotKey::ctrl_key(KeyCode::KeyS)));

    let mut unfocus = UiMessage::for_widget(h(1), MessageData::Widget(WidgetMessage::Unfocus));
    let out = editor.handle_routed_message(ctrl, &mut unfocus);
    assert!(!editor.editing);
    assert_eq!(text_of(&out[0]), "Ctrl+KeyS");
}

#[test]
fn hot_key_editor_ignores_keys_when_not_editing() {
    let (mut editor, _) = HotKeyEditorBuilder::new().with_value(HotKey::from_key_code(KeyCode::KeyA)).build(h(1), h(2));
    let mut key = UiMessage::for_widget(h(1), MessageData::Widget(WidgetMessage::KeyDown(KeyCode::KeyS)));
    assert!(editor.handle_routed_message(KeyboardModifiers::none(), &mut key).is_empty());
    let mut same = HotKeyEditorMessage::value(h(1), MessageDirection::ToWidget, HotKey::from_key_code(KeyCode::KeyA));
    assert!(editor.handle_routed_message(KeyboardModifiers::none(), &mut same).is_empty());
}

#[test]
fn key_binding_editor_takes_any_key() {
    let (mut editor, shown) = KeyBindingEditorBuilder::new().with_value(KeyBinding::from_key_code(KeyCode::KeyQ)).build(h(3), h(4));
    assert_eq!(shown, "KeyQ");
    let mut key = UiMessage::for_widget(h(3), MessageData::Widget(WidgetMessage::KeyDown(KeyCode::ShiftLeft)));
    let out = editor.handle_routed_message(&mut key);
    assert!(key.handled);
    assert_eq!(out, vec![KeyBindingEditorMessage::value(h(3), MessageDirection::ToWidget, KeyBinding::Key(KeyCode::ShiftLeft))]);
    let mut set = out[0].clone();
    let out = editor.handle_routed_message(&mut set);
    assert_eq!(editor.value, KeyBinding::Key(KeyCode::ShiftLeft));
    assert_eq!(text_of(&out[0]), "ShiftLeft");
    assert_eq!(out[1], KeyBindingEditorMessage::value(h(3), MessageDirection::FromWidget, KeyBinding::Key(KeyCode::ShiftLeft)));
}
