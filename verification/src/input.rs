//! Input box: a dialog that asks for one line of text, with `Ok` and `Cancel` buttons.

use vstd::prelude::*;
use vstd::string::StringExecFns;
use crate::message::{
    ButtonMessage, Handle, KeyCode, MessageData, MessageDirection, TextMessage, UiMessage,
    WidgetMessage, WindowAlignment, WindowMessage,
};

verus! {

/// A set of possible reasons why a input box was closed.
#[derive(PartialEq, Eq, Debug)]
pub enum InputBoxResult {
    /// `Ok` button was pressed (or Enter), with the entered text.
    Confirmed(String),
    /// `Cancel` button was pressed.
    Cancel,
}

/// The entered text of a result, or none for `Cancel`.
pub open spec fn result_view(r: InputBoxResult) -> Option<Seq<char>> {
    match r {
        InputBoxResult::Confirmed(s) => Some(s@),
        InputBoxResult::Cancel => None,
    }
}

/// The characters of an optional string.
pub open spec fn opt_view(o: Option<String>) -> Option<Seq<char>> {
    match o {
        Some(s) => Some(s@),
        None => None,
    }
}

/// Messages that open and close input boxes.
#[derive(PartialEq, Eq, Debug)]
pub enum InputBoxMessage {
    /// Opens the input box, optionally changing its title, text and value.
    Open { title: Option<String>, text: Option<String>, value: Option<String> },
    /// Closes the input box with a result.
    Close(InputBoxResult),
}

impl Clone for InputBoxResult {
    fn clone(&self) -> (r: Self)
        ensures
            r == *self,
    {
        match self {
            InputBoxResult::Confirmed(s) => InputBoxResult::Confirmed(s.clone()),
            InputBoxResult::Cancel => InputBoxResult::Cancel,
        }
    }
}

fn copy_opt(o: &Option<String>) -> (r: Option<String>)
    ensures
        r == *o,
{
    match o {
        Some(s) => Some(s.clone()),
        None => None,
    }
}

impl Clone for InputBoxMessage {
    fn clone(&self) -> (r: Self)
        ensures
            r == *self,
    {
        match self {
            InputBoxMessage::Open { title, text, value } => InputBoxMessage::Open {
                title: copy_opt(title),
                text: copy_opt(text),
                value: copy_opt(value),
            },
            InputBoxMessage::Close(res) => InputBoxMessage::Close(res.clone()),
        }
    }
}

impl InputBoxMessage {
    /// Opens the input box without changing its title, text or value.
    pub fn open_as_is() -> (r: Self)
        ensures
            r == (InputBoxMessage::Open { title: None, text: None, value: None }),
    {
        InputBoxMessage::Open { title: None, text: None, value: None }
    }
}

/// `m` is addressed to `destination` in `direction`, not handled.
pub open spec fn addressed(m: UiMessage, destination: Handle, direction: MessageDirection) -> bool {
    m.destination == destination && m.direction == direction && !m.handled
}

/// `m` closes the input box `destination` with the given result.
pub open spec fn is_close_message(m: UiMessage, destination: Handle, direction: MessageDirection, result: Option<Seq<char>>) -> bool {
    &&& addressed(m, destination, direction)
    &&& match m.data {
        MessageData::InputBox(InputBoxMessage::Close(r)) => result_view(r) == result,
        _ => false,
    }
}

/// `m` reports the opening of the input box with the given changes.
pub open spec fn is_open_message(m: UiMessage, destination: Handle, direction: MessageDirection, title: Option<Seq<char>>, text: Option<Seq<char>>, value: Option<Seq<char>>) -> bool {
    &&& addressed(m, destination, direction)
    &&& match m.data {
        MessageData::InputBox(InputBoxMessage::Open { title: t, text: x, value: v }) => opt_view(t) == title && opt_view(x) == text && opt_view(v) == value,
        _ => false,
    }
}

/// `m` sets the title of the window `destination` to `s`.
pub open spec fn is_title_message(m: UiMessage, destination: Handle, s: Seq<char>) -> bool {
    &&& addressed(m, destination, MessageDirection::ToWidget)
    &&& match m.data {
        MessageData::Window(WindowMessage::Title(t)) => t@ == s,
        _ => false,
    }
}

/// `m` sets the text of the widget `destination` to `s`.
pub open spec fn is_set_text_message(m: UiMessage, destination: Handle, s: Seq<char>) -> bool {
    &&& addressed(m, destination, MessageDirection::ToWidget)
    &&& match m.data {
        MessageData::Text(TextMessage::Text(t)) => t@ == s,
        _ => false,
    }
}

/// The messages that opening sends: the optional title, text and value updates, then the
/// window opening (centered, modal, without focusing its content), the focus request for the
/// value box, and the report back.
pub open spec fn open_messages_ok(out: Seq<UiMessage>, b: InputBox, title: Option<Seq<char>>, text: Option<Seq<char>>, value: Option<Seq<char>>) -> bool {
    let n0 = if title is Some { 1int } else { 0int };
    let n1 = n0 + if text is Some { 1int } else { 0int };
    let n2 = n1 + if value is Some { 1int } else { 0int };
    &&& out.len() == n2 + 3
    &&& title matches Some(t) ==> is_title_message(out[0], b.handle, t)
    &&& text matches Some(t) ==> is_set_text_message(out[n0], b.text, t)
    &&& value matches Some(v) ==> is_set_text_message(out[n1], b.value_box, v)
    &&& out[n2] == UiMessage {
        destination: b.handle,
        direction: MessageDirection::ToWidget,
        handled: false,
        data: MessageData::Window(WindowMessage::Open { alignment: WindowAlignment::Center, modal: true, focus_content: false }),
    }
    &&& out[n2 + 1] == UiMessage {
        destination: b.value_box,
        direction: MessageDirection::ToWidget,
        handled: false,
        data: MessageData::Widget(WidgetMessage::Focus),
    }
    &&& is_open_message(out[n2 + 2], b.handle, MessageDirection::FromWidget, title, text, value)
}

/// Input box is a window that shows a text, an input field and `Ok` + `Cancel` buttons.
#[derive(Clone, Debug)]
pub struct InputBox {
    /// The window of the input box.
    pub handle: Handle,
    /// The `Ok` button.
    pub ok: Handle,
    /// The `Cancel` button.
    pub cancel: Handle,
    /// The text widget.
    pub text: Handle,
    /// The input field.
    pub value_box: Handle,
    /// The entered text.
    pub value: String,
}

impl InputBox {
    /// The message that closes the box with the entered text.
    pub fn close_ok(&self) -> (m: UiMessage)
        ensures
            is_close_message(m, self.handle, MessageDirection::ToWidget, Some(self.value@)),
    {
        UiMessage::for_widget(self.handle, MessageData::InputBox(InputBoxMessage::Close(InputBoxResult::Confirmed(self.value.clone()))))
    }

    /// Handles a message routed through the input box; returns the messages it sends, in
    /// order. A click on `Ok`, or Enter, closes the box with the entered text; a click on
    /// `Cancel` closes it with `Cancel`. An open request addressed to the box applies the
    /// given title, text and value, opens the window, focuses the input field and is
    /// reported back; a close request closes the window and is reported back. A new text
    /// from the input field becomes the entered text.
    pub fn handle_routed_message(&mut self, message: &UiMessage) -> (out: Vec<UiMessage>)
        ensures
            final(self).handle == old(self).handle,
            final(self).ok == old(self).ok,
            final(self).cancel == old(self).cancel,
            final(self).text == old(self).text,
            final(self).value_box == old(self).value_box,
            ({
                let b = *old(self);
                let m = *message;
                if m.data == MessageData::Button(ButtonMessage::Click) && m.spec_is_from(b.ok) {
                    out@.len() == 1 && is_close_message(out@[0], b.handle, MessageDirection::ToWidget, Some(b.value@))
                        && final(self).value@ == b.value@
                } else if m.data == MessageData::Button(ButtonMessage::Click) && m.spec_is_from(b.cancel) {
                    out@.len() == 1 && is_close_message(out@[0], b.handle, MessageDirection::ToWidget, None)
                        && final(self).value@ == b.value@
                } else {
                    match m.data {
                        MessageData::InputBox(InputBoxMessage::Open { title, text, value }) => if m.spec_is_for(b.handle) {
                            open_messages_ok(out@, b, opt_view(title), opt_view(text), opt_view(value)) && final(self).value@ == b.value@
                        } else {
                            out@.len() == 0 && final(self).value@ == b.value@
                        },
                        MessageData::InputBox(InputBoxMessage::Close(r)) => if m.spec_is_for(b.handle) {
                            &&& out@.len() == 2
                            &&& out@[0] == UiMessage {
                                destination: b.handle,
                                direction: MessageDirection::ToWidget,
                                handled: false,
                                data: MessageData::Window(WindowMessage::Close),
                            }
                            &&& is_close_message(out@[1], b.handle, MessageDirection::FromWidget, result_view(r))
                            &&& final(self).value@ == b.value@
                        } else {
                            out@.len() == 0 && final(self).value@ == b.value@
                        },
                        MessageData::Text(TextMessage::Text(t)) => if m.spec_is_from(b.value_box) {
                            out@.len() == 0 && final(self).value@ == t@
                        } else {
                            out@.len() == 0 && final(self).value@ == b.value@
                        },
                        MessageData::Widget(WidgetMessage::KeyDown(code)) => if code == KeyCode::Enter || code == KeyCode::NumpadEnter {
                            out@.len() == 1 && is_close_message(out@[0], b.handle, MessageDirection::ToWidget, Some(b.value@))
                                && final(self).value@ == b.value@
                        } else {
                            out@.len() == 0 && final(self).value@ == b.value@
                        },
                        _ => out@.len() == 0 && final(self).value@ == b.value@,
                    }
                }
            }),
    {
        let mut out: Vec<UiMessage> = Vec::new();
        let is_click = match message.data {
            MessageData::Button(ButtonMessage::Click) => true,
            _ => false,
        };
        if is_click && message.is_from(self.ok) {
            out.push(self.close_ok());
        } else if is_click && message.is_from(self.cancel) {
            out.push(UiMessage::for_widget(self.handle, MessageData::InputBox(InputBoxMessage::Close(InputBoxResult::Cancel))));
        } else {
            match &message.data {
                MessageData::InputBox(InputBoxMessage::Open { title, text, value }) => {
                    if message.is_for(self.handle) {
                        match title {
                            Some(t) => out.push(UiMessage::for_widget(self.handle, MessageData::Window(WindowMessage::Title(t.clone())))),
                            None => {},
                        }
                        match text {
                            Some(t) => out.push(UiMessage::for_widget(self.text, MessageData::Text(TextMessage::Text(t.clone())))),
                            None => {},
                        }
                        match value {
                            Some(v) => out.push(UiMessage::for_widget(self.value_box, MessageData::Text(TextMessage::Text(v.clone())))),
                            None => {},
                        }
                        out.push(UiMessage::for_widget(self.handle, MessageData::Window(WindowMessage::Open {
                            alignment: WindowAlignment::Center,
                            modal: true,
                            focus_content: false,
                        })));
                        out.push(UiMessage::for_widget(self.value_box, MessageData::Widget(WidgetMessage::Focus)));
                        out.push(UiMessage::from_widget(self.handle, MessageData::InputBox(InputBoxMessage::Open {
                            title: copy_opt(title),
                            text: copy_opt(text),
                            value: copy_opt(value),
                        })));
                    }
                },
                MessageData::InputBox(InputBoxMessage::Close(r)) => {
                    if message.is_for(self.handle) {
                        out.push(UiMessage::for_widget(self.handle, MessageData::Window(WindowMessage::Close)));
                        out.push(UiMessage::from_widget(self.handle, MessageData::InputBox(InputBoxMessage::Close(r.clone()))));
                    }
                },
                MessageData::Text(TextMessage::Text(t)) => {
                    if message.is_from(self.value_box) {
                        self.value = t.clone();
                    }
                },
                MessageData::Widget(WidgetMessage::KeyDown(code)) => {
                    if *code == KeyCode::Enter || *code == KeyCode::NumpadEnter {
                        out.push(self.close_ok());
                    }
                },
                _ => {},
            }
        }
        out
    }
}

/// Builds input boxes.
#[derive(Clone, Debug)]
pub struct InputBoxBuilder {
    text: String,
    value: String,
}

impl InputBoxBuilder {
    pub closed spec fn spec_text(&self) -> Seq<char> {
        self.text@
    }

    pub closed spec fn spec_value(&self) -> Seq<char> {
        self.value@
    }

    /// A builder with empty text and value.
    pub fn new() -> (r: Self)
        ensures
            r.spec_text() == Seq::<char>::empty(),
            r.spec_value() == Seq::<char>::empty(),
    {
        InputBoxBuilder { text: String::new(), value: String::new() }
    }

    /// Sets the text shown above the input field.
    pub fn with_text(self, text: &str) -> (r: Self)
        ensures
            r.spec_text() == text@,
            r.spec_value() == self.spec_value(),
    {
        InputBoxBuilder { text: String::from_str(text), value: self.value }
    }

    /// Sets the value the input field starts with.
    pub fn with_value(self, value: String) -> (r: Self)
        ensures
            r.spec_text() == self.spec_text(),
            r.spec_value() == value@,
    {
        InputBoxBuilder { text: self.text, value }
    }

    /// The input box made of the given widgets, with the builder's value entered; and what
    /// its widgets start with: the text widget shows the builder's text, the input field
    /// shows the builder's value, and the window handles events of the operating system.
    pub fn build(self, handle: Handle, ok: Handle, cancel: Handle, text: Handle, value_box: Handle) -> (r: (InputBox, InputBoxContent))
        ensures
            r.0.handle == handle,
            r.0.ok == ok,
            r.0.cancel == cancel,
            r.0.text == text,
            r.0.value_box == value_box,
            r.0.value@ == self.spec_value(),
            r.1.text@ == self.spec_text(),
            r.1.value_text@ == self.spec_value(),
            r.1.handle_os_events,
    {
        let value_text = self.value.clone();
        (InputBox { handle, ok, cancel, text, value_box, value: self.value }, InputBoxContent { text: self.text, value_text, handle_os_events: true })
    }
}

/// What the widgets of a new input box start with.
#[derive(Clone, Debug)]
pub struct InputBoxContent {
    /// The text the text widget shows.
    pub text: String,
    /// The text the input field shows.
    pub value_text: String,
    /// Whether the window handles events of the operating system.
    pub handle_os_events: bool,
}

} // verus!
