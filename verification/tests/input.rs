use fyrox_ui::input::{InputBoxBuilder, InputBoxMessage, InputBoxResult};
use fyrox_ui::message::{
    ButtonMessage, Handle, KeyCode, MessageData, MessageDirection, TextMessage, UiMessage, WidgetMessage, WindowMessage,
};

fn h(i: u32) -> Handle {
    Handle::new(i, 1)
}

fn input_box() -> fyrox_ui::input::InputBox {
    let (b, shown) = InputBoxBuilder::new()
        .with_text("Name?")
        .with_value("x".to_string())
        .build(h(1), h(2), h(3), h(4), h(5));
    assert_eq!(shown.text, "Name?");
    assert_eq!(shown.value_text, "x");
    assert!(shown.handle_os_events);
    assert_eq!(b.value, "x");
    b
}

#[test]
fn open_as_is_changes_nothing() {
    assert_eq!(InputBoxMessage::open_as_is(), InputBoxMessage::Open { title: None, text: None, value: None });
}

#[test]
fn open_sets_title_text_value_then_opens_and_focuses() {
    let mut b = input_box();
    let open = UiMessage::for_widget(
        h(1),
        MessageData::InputBox(InputBoxMessage::Open { title: Some("T".into()), text: None, value: Some("v".into()) }),
    );
    let out = b.handle_routed_message(&open);
    assert_eq!(out.len(), 5);
    assert_eq!(out[0].data, MessageData::Window(WindowMessage::Title("T".into())));
    assert_eq!(out[1].destination, h(5));
    assert_eq!(out[1].data, MessageData::Text(TextMessage::Text("v".into())));
    assert!(matches!(out[2].data, MessageData::Window(WindowMessage::Open { modal: true, .. })));
    assert_eq!(out[3].data, MessageData::Widget(WidgetMessage::Focus));
    assert_eq!(out[4].direction, MessageDirection::FromWidget);
}

#[test]
fn typed_value_is_confirmed_by_ok_or_enter() {
    let mut b = input_box();
    let typed = UiMessage::from_widget(h(5), MessageData::Text(TextMessage::Text("hello".into())));
    assert!(b.handle_routed_message(&typed).is_empty());
    assert_eq!(b.value, "hello");
    let ok = UiMessage::from_widget(h(2), MessageData::Button(ButtonMessage::Click));
    let out = b.handle_routed_message(&ok);
    assert_eq!(out, vec![UiMessage::for_widget(h(1), MessageData::InputBox(InputBoxMessage::Close(InputBoxResult::Confirmed("hello".into()))))]);
    let enter = UiMessage::for_widget(h(1), MessageData::Widget(WidgetMessage::KeyDown(KeyCode::Enter)));
    assert_eq!(b.handle_routed_message(&enter), out);
    assert_eq!(b.close_ok(), out[0]);
}

#[test]
fn cancel_closes_without_value() {
    let mut b = input_box();
    let cancel = UiMessage::from_widget(h(3), MessageData::Button(ButtonMessage::Click));
    let out = b.handle_routed_message(&cancel);
    assert_eq!(out, vec![UiMessage::for_widget(h(1), MessageData::InputBox(InputBoxMessage::Close(InputBoxResult::Cancel)))]);
}

#[test]
fn close_closes_window_and_reports_result() {
    let mut b = input_box();
    let close = UiMessage::for_widget(h(1), MessageData::InputBox(InputBoxMessage::Close(InputBoxResult::Cancel)));
    let out = b.handle_routed_message(&close);
    assert_eq!(out[0].data, MessageData::Window(WindowMessage::Close));
    assert_eq!(out[1], UiMessage::from_widget(h(1), MessageData::InputBox(InputBoxMessage::Close(InputBoxResult::Cancel))));
}
