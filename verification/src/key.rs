//! Hot keys (a key with modifiers) and key bindings (a single key), and the state machines of
//! their editor widgets.

use vstd::prelude::*;
use vstd::string::StringExecFns;
use crate::message::{
    Handle, KeyCode, KeyboardModifiers, MessageData, MessageDirection, MouseButton, TextMessage,
    UiMessage, WidgetMessage, key_code_name,
};

verus! {

/// Hot key is a combination of a key code with an arbitrary set of keyboard modifiers (such as
/// Ctrl, Shift, Alt keys).
#[derive(Copy, Clone, Debug, PartialEq, Eq, Hash, Structural)]
pub enum HotKey {
    /// Unset hot key. Does nothing. This is default value.
    NotSet,
    /// A key with modifiers.
    Keys {
        /// Physical key code.
        code: KeyCode,
        /// A set of keyboard modifiers.
        modifiers: KeyboardModifiers,
    },
}

impl Default for HotKey {
    fn default() -> (r: HotKey)
        ensures
            r == HotKey::NotSet,
    {
        HotKey::NotSet
    }
}

pub open spec fn no_modifiers() -> KeyboardModifiers {
    KeyboardModifiers { alt: false, shift: false, control: false, system: false }
}

/// The text shown for a hot key: the held modifiers in the order Ctrl, Alt, Shift, Sys, each
/// followed by `+`, then the key's name; or "Not Set".
pub open spec fn hot_key_text(h: HotKey) -> Seq<char> {
    match h {
        HotKey::NotSet => "Not Set"@,
        HotKey::Keys { code, modifiers } => (if modifiers.control { "Ctrl+"@ } else { Seq::empty() })
            + (if modifiers.alt { "Alt+"@ } else { Seq::empty() }) + (if modifiers.shift {
            "Shift+"@
        } else {
            Seq::empty()
        }) + (if modifiers.system { "Sys+"@ } else { Seq::empty() }) + key_code_name(code),
    }
}

impl HotKey {
    /// A hot key that consists of a single key, without any modifiers.
    pub fn from_key_code(key: KeyCode) -> (r: Self)
        ensures
            r == (HotKey::Keys { code: key, modifiers: no_modifiers() }),
    {
        HotKey::Keys { code: key, modifiers: KeyboardModifiers::none() }
    }

    /// A hot key that consists of combination `Ctrl + Key`.
    pub fn ctrl_key(key: KeyCode) -> (r: Self)
        ensures
            r == (HotKey::Keys { code: key, modifiers: KeyboardModifiers { control: true, ..no_modifiers() } }),
    {
        HotKey::Keys {
            code: key,
            modifiers: KeyboardModifiers { alt: false, shift: false, control: true, system: false },
        }
    }

    /// A hot key that consists of combination `Shift + Key`.
    pub fn shift_key(key: KeyCode) -> (r: Self)
        ensures
            r == (HotKey::Keys { code: key, modifiers: KeyboardModifiers { shift: true, ..no_modifiers() } }),
    {
        HotKey::Keys {
            code: key,
            modifiers: KeyboardModifiers { alt: false, shift: true, control: false, system: false },
        }
    }

    /// A hot key that consists of combination `Alt + Key`.
    pub fn alt_key(key: KeyCode) -> (r: Self)
        ensures
            r == (HotKey::Keys { code: key, modifiers: KeyboardModifiers { alt: true, ..no_modifiers() } }),
    {
        HotKey::Keys {
            code: key,
            modifiers: KeyboardModifiers { alt: true, shift: false, control: false, system: false },
        }
    }

    /// The text shown for the hot key, such as `Ctrl+Shift+KeyC` or `Not Set`.
    pub fn to_string(&self) -> (r: String)
        ensures
            r@ == hot_key_text(*self),
    {
        match self {
            HotKey::NotSet => String::from_str("Not Set"),
            HotKey::Keys { code, modifiers } => {
                let mut s = String::new();
                if modifiers.control {
                    s.append("Ctrl+");
                }
                if modifiers.alt {
                    s.append("Alt+");
                }
                if modifiers.shift {
                    s.append("Shift+");
                }
                if modifiers.system {
                    s.append("Sys+");
                }
                s.append(code.as_str());
                s
            },
        }
    }
}

/// A message that sets or reports the value of a hot key editor.
pub open spec fn hot_key_message(destination: Handle, direction: MessageDirection, value: HotKey) -> UiMessage {
    UiMessage { destination, direction, handled: false, data: MessageData::HotKeyEditor(HotKeyEditorMessage::Value(value)) }
}

/// A message that sets or reports the value of a key binding editor.
pub open spec fn key_binding_message(destination: Handle, direction: MessageDirection, value: KeyBinding) -> UiMessage {
    UiMessage { destination, direction, handled: false, data: MessageData::KeyBindingEditor(KeyBindingEditorMessage::Value(value)) }
}

/// Messages of the hot key editor.
#[derive(Copy, Clone, Debug, PartialEq, Eq)]
pub enum HotKeyEditorMessage {
    /// The value of the editor: sets it (to the widget) or reports it (from the widget).
    Value(HotKey),
}

impl HotKeyEditorMessage {
    /// A [`HotKeyEditorMessage::Value`] message.
    pub fn value(destination: Handle, direction: MessageDirection, value: HotKey) -> (r: UiMessage)
        ensures
            r == (UiMessage {
                destination,
                direction,
                handled: false,
                data: MessageData::HotKeyEditor(HotKeyEditorMessage::Value(value)),
            }),
    {
        UiMessage {
            destination,
            direction,
            handled: false,
            data: MessageData::HotKeyEditor(HotKeyEditorMessage::Value(value)),
        }
    }
}

/// The text shown while an editor waits for a key.
pub open spec fn waiting_text() -> Seq<char> {
    "[WAITING INPUT]"@
}

/// Whether a key is one of the Ctrl, Shift or Alt keys.
pub open spec fn spec_is_modifier_key(key: KeyCode) -> bool {
    key == KeyCode::ControlLeft || key == KeyCode::ControlRight || key == KeyCode::ShiftLeft
        || key == KeyCode::ShiftRight || key == KeyCode::AltLeft || key == KeyCode::AltRight
}

/// Whether a key is one of the Ctrl, Shift or Alt keys.
pub fn is_modifier_key(key: KeyCode) -> (r: bool)
    ensures
        r == spec_is_modifier_key(key),
{
    match key {
        KeyCode::ControlLeft | KeyCode::ControlRight | KeyCode::ShiftLeft | KeyCode::ShiftRight
        | KeyCode::AltLeft | KeyCode::AltRight => true,
        _ => false,
    }
}

/// A message that sets the text of a text widget.
pub open spec fn text_message(text: Handle, s: Seq<char>) -> UiMessage {
    UiMessage {
        destination: text,
        direction: MessageDirection::ToWidget,
        handled: false,
        data: MessageData::Text(TextMessage::Text(s_string(s))),
    }
}

/// Some string whose characters are `s`.
pub open spec fn s_string(s: Seq<char>) -> String {
    choose|t: String| t@ == s
}

/// Whether `m` sets the text of the widget `text` to `s`.
pub open spec fn is_text_message(m: UiMessage, text: Handle, s: Seq<char>) -> bool {
    &&& m.destination == text
    &&& m.direction == MessageDirection::ToWidget
    &&& !m.handled
    &&& m.data matches MessageData::Text(TextMessage::Text(t)) && t@ == s
}

/// Hot key editor: a widget that shows a hot key and, after a left click, takes the next
/// non-modifier key together with the held modifiers as its new value.
#[derive(Copy, Clone, Debug)]
pub struct HotKeyEditor {
    /// The editor widget itself.
    pub handle: Handle,
    /// The text widget that shows the value.
    pub text: Handle,
    /// The current value.
    pub value: HotKey,
    /// Whether the editor waits for a key.
    pub editing: bool,
}

impl HotKeyEditor {
    /// Starts or stops waiting for a key; returns the message that updates the shown text.
    pub fn set_editing(&mut self, editing: bool) -> (m: UiMessage)
        ensures
            final(self).editing == editing,
            final(self).handle == old(self).handle,
            final(self).text == old(self).text,
            final(self).value == old(self).value,
            is_text_message(m, old(self).text, if editing { waiting_text() } else { hot_key_text(old(self).value) }),
    {
        self.editing = editing;
        let s = if self.editing { String::from_str("[WAITING INPUT]") } else { self.value.to_string() };
        UiMessage {
            destination: self.text,
            direction: MessageDirection::ToWidget,
            handled: false,
            data: MessageData::Text(TextMessage::Text(s)),
        }
    }

    /// Handles a message routed through the editor: returns the messages it sends, in order,
    /// updates its state, and marks the message handled when it takes a key.
    ///
    /// A key that is not Ctrl, Shift or Alt, pressed while editing, is sent back to the editor
    /// as its new value together with `modifiers`. A left click toggles editing and loss of
    /// focus ends it, each updating the shown text. A new value addressed to the editor that
    /// differs from the current one replaces it, updates the text and is reported back.
    pub fn handle_routed_message(&mut self, modifiers: KeyboardModifiers, message: &mut UiMessage) -> (out: Vec<UiMessage>)
        ensures
            final(message).destination == old(message).destination,
            final(message).direction == old(message).direction,
            final(message).data == old(message).data,
            final(self).handle == old(self).handle,
            final(self).text == old(self).text,
            ({
                let s = *old(self);
                let m = *old(message);
                match m.data {
                    MessageData::Widget(WidgetMessage::KeyDown(key)) => if s.editing && !spec_is_modifier_key(key) {
                        &&& out@ == seq![hot_key_message(s.handle, MessageDirection::ToWidget, HotKey::Keys { code: key, modifiers })]
                        &&& final(message).handled
                        &&& *final(self) == s
                    } else {
                        &&& out@.len() == 0
                        &&& final(message).handled == m.handled
                        &&& *final(self) == s
                    },
                    MessageData::Widget(WidgetMessage::MouseDown { button }) => if button == MouseButton::Left {
                        &&& out@.len() == 1
                        &&& is_text_message(out@[0], s.text, if !s.editing { waiting_text() } else { hot_key_text(s.value) })
                        &&& *final(self) == HotKeyEditor { editing: !s.editing, ..s }
                        &&& final(message).handled == m.handled
                    } else {
                        &&& out@.len() == 0
                        &&& *final(self) == s
                        &&& final(message).handled == m.handled
                    },
                    MessageData::Widget(WidgetMessage::Unfocus) => if s.editing {
                        &&& out@.len() == 1
                        &&& is_text_message(out@[0], s.text, hot_key_text(s.value))
                        &&& *final(self) == HotKeyEditor { editing: false, ..s }
                        &&& final(message).handled == m.handled
                    } else {
                        &&& out@.len() == 0
                        &&& *final(self) == s
                        &&& final(message).handled == m.handled
                    },
                    MessageData::HotKeyEditor(HotKeyEditorMessage::Value(value)) => if m.spec_is_for(s.handle) && value != s.value {
                        &&& out@.len() == 2
                        &&& is_text_message(out@[0], s.text, hot_key_text(value))
                        &&& out@[1] == hot_key_message(s.handle, MessageDirection::FromWidget, value)
                        &&& *final(self) == HotKeyEditor { value, ..s }
                        &&& final(message).handled == m.handled
                    } else {
                        &&& out@.len() == 0
                        &&& *final(self) == s
                        &&& final(message).handled == m.handled
                    },
                    _ => {
                        &&& out@.len() == 0
                        &&& *final(self) == s
                        &&& final(message).handled == m.handled
                    },
                }
            }),
    {
        let mut out: Vec<UiMessage> = Vec::new();
        match message.data {
            MessageData::Widget(WidgetMessage::KeyDown(key)) => {
                if self.editing && !is_modifier_key(key) {
                    out.push(
                        HotKeyEditorMessage::value(
                            self.handle,
                            MessageDirection::ToWidget,
                            HotKey::Keys { code: key, modifiers },
                        ),
                    );
                    message.handled = true;
                }
            },
            MessageData::Widget(WidgetMessage::MouseDown { button }) => {
                if button == MouseButton::Left {
                    let editing = !self.editing;
                    let m = self.set_editing(editing);
                    out.push(m);
                }
            },
            MessageData::Widget(WidgetMessage::Unfocus) => {
                if self.editing {
                    let m = self.set_editing(false);
                    out.push(m);
                }
            },
            MessageData::HotKeyEditor(HotKeyEditorMessage::Value(value)) => {
                if message.destination == self.handle && message.direction
                    == MessageDirection::ToWidget {
                    if value != self.value {
                        self.value = value;
                        out.push(
                            UiMessage {
                                destination: self.text,
                                direction: MessageDirection::ToWidget,
                                handled: false,
                                data: MessageData::Text(TextMessage::Text(value.to_string())),
                            },
                        );
                        out.push(
                            HotKeyEditorMessage::value(
                                self.handle,
                                MessageDirection::FromWidget,
                                value,
                            ),
                        );
                    }
                }
            },
            _ => {},
        }
        out
    }
}

/// Builds hot key editors.
#[derive(Copy, Clone, Debug)]
pub struct HotKeyEditorBuilder {
    value: HotKey,
}

impl HotKeyEditorBuilder {
    pub closed spec fn spec_value(&self) -> HotKey {
        self.value
    }

    /// A builder whose editor starts unset.
    pub fn new() -> (r: Self)
        ensures
            r.spec_value() == HotKey::NotSet,
    {
        HotKeyEditorBuilder { value: HotKey::NotSet }
    }

    /// Sets the value the editor starts with.
    pub fn with_value(self, hot_key: HotKey) -> (r: Self)
        ensures
            r.spec_value() == hot_key,
    {
        HotKeyEditorBuilder { value: hot_key }
    }

    /// The editor for the widget `handle`, showing its value in the text widget `text`, not
    /// editing; and the text the text widget starts with.
    pub fn build(self, handle: Handle, text: Handle) -> (r: (HotKeyEditor, String))
        ensures
            r.0 == (HotKeyEditor { handle, text, value: self.spec_value(), editing: false }),
            r.1@ == hot_key_text(self.spec_value()),
    {
        let s = self.value.to_string();
        (HotKeyEditor { handle, text, value: self.value, editing: false }, s)
    }
}

/// Key binding is a single physical key, pressed regardless of the modifier keys.
#[derive(Copy, Clone, Debug, PartialEq, Eq, Hash, Structural)]
pub enum KeyBinding {
    /// Unset key binding. Does nothing.
    NotSet,
    /// A physical key.
    Key(KeyCode),
}

impl Default for KeyBinding {
    fn default() -> (r: KeyBinding)
        ensures
            r == KeyBinding::NotSet,
    {
        KeyBinding::NotSet
    }
}

/// The text shown for a key binding: the key's name, or "Not Set".
pub open spec fn key_binding_text(k: KeyBinding) -> Seq<char> {
    match k {
        KeyBinding::NotSet => "Not Set"@,
        KeyBinding::Key(code) => key_code_name(code),
    }
}

impl KeyBinding {
    /// A key binding for a physical key.
    pub fn from_key_code(key: KeyCode) -> (r: Self)
        ensures
            r == KeyBinding::Key(key),
    {
        KeyBinding::Key(key)
    }

    /// Whether the binding is set to the given key.
    pub fn eq_key_code(&self, other: KeyCode) -> (r: bool)
        ensures
            r == (*self == KeyBinding::Key(other)),
    {
        match self {
            KeyBinding::NotSet => false,
            KeyBinding::Key(code) => *code == other,
        }
    }

    /// The text shown for the key binding.
    pub fn to_string(&self) -> (r: String)
        ensures
            r@ == key_binding_text(*self),
    {
        match self {
            KeyBinding::NotSet => String::from_str("Not Set"),
            KeyBinding::Key(code) => String::from_str(code.as_str()),
        }
    }
}

/// Messages of the key binding editor.
#[derive(Copy, Clone, Debug, PartialEq, Eq)]
pub enum KeyBindingEditorMessage {
    /// The value of the editor: sets it (to the widget) or reports it (from the widget).
    Value(KeyBinding),
}

impl KeyBindingEditorMessage {
    /// A [`KeyBindingEditorMessage::Value`] message.
    pub fn value(destination: Handle, direction: MessageDirection, value: KeyBinding) -> (r: UiMessage)
        ensures
            r == (UiMessage {
                destination,
                direction,
                handled: false,
                data: MessageData::KeyBindingEditor(KeyBindingEditorMessage::Value(value)),
            }),
    {
        UiMessage {
            destination,
            direction,
            handled: false,
            data: MessageData::KeyBindingEditor(KeyBindingEditorMessage::Value(value)),
        }
    }
}

/// Key binding editor: a widget that shows a key binding and takes any pressed key as its
/// new value.
#[derive(Copy, Clone, Debug)]
pub struct KeyBindingEditor {
    /// The editor widget itself.
    pub handle: Handle,
    /// The text widget that shows the value.
    pub text: Handle,
    /// The current value.
    pub value: KeyBinding,
    /// Whether the editor waits for a key.
    pub editing: bool,
}

impl KeyBindingEditor {
    /// Starts or stops waiting for a key; returns the message that updates the shown text.
    pub fn set_editing(&mut self, editing: bool) -> (m: UiMessage)
        ensures
            final(self).editing == editing,
            final(self).handle == old(self).handle,
            final(self).text == old(self).text,
            final(self).value == old(self).value,
            is_text_message(m, old(self).text, if editing { waiting_text() } else { key_binding_text(old(self).value) }),
    {
        self.editing = editing;
        let s = if self.editing { String::from_str("[WAITING INPUT]") } else { self.value.to_string() };
        UiMessage {
            destination: self.text,
            direction: MessageDirection::ToWidget,
            handled: false,
            data: MessageData::Text(TextMessage::Text(s)),
        }
    }

    /// Handles a message routed through the editor: returns the messages it sends, in order,
    /// updates its state, and marks the message handled when it takes a key.
    ///
    /// Any pressed key is sent back to the editor as its new value, whether or not the editor
    /// is editing. A left click toggles editing and loss of focus ends it, each updating the
    /// shown text. A new value addressed to the editor that differs from the current one
    /// replaces it, updates the text and is reported back.
    pub fn handle_routed_message(&mut self, message: &mut UiMessage) -> (out: Vec<UiMessage>)
        ensures
            final(message).destination == old(message).destination,
            final(message).direction == old(message).direction,
            final(message).data == old(message).data,
            final(self).handle == old(self).handle,
            final(self).text == old(self).text,
            ({
                let s = *old(self);
                let m = *old(message);
                match m.data {
                    MessageData::Widget(WidgetMessage::KeyDown(key)) => {
                        &&& out@ == seq![key_binding_message(s.handle, MessageDirection::ToWidget, KeyBinding::Key(key))]
                        &&& final(message).handled
                        &&& *final(self) == s
                    },
                    MessageData::Widget(WidgetMessage::MouseDown { button }) => if button == MouseButton::Left {
                        &&& out@.len() == 1
                        &&& is_text_message(out@[0], s.text, if !s.editing { waiting_text() } else { key_binding_text(s.value) })
                        &&& *final(self) == KeyBindingEditor { editing: !s.editing, ..s }
                        &&& final(message).handled == m.handled
                    } else {
                        &&& out@.len() == 0
                        &&& *final(self) == s
                        &&& final(message).handled == m.handled
                    },
                    MessageData::Widget(WidgetMessage::Unfocus) => if s.editing {
                        &&& out@.len() == 1
                        &&& is_text_message(out@[0], s.text, key_binding_text(s.value))
                        &&& *final(self) == KeyBindingEditor { editing: false, ..s }
                        &&& final(message).handled == m.handled
                    } else {
                        &&& out@.len() == 0
                        &&& *final(self) == s
                        &&& final(message).handled == m.handled
                    },
                    MessageData::KeyBindingEditor(KeyBindingEditorMessage::Value(value)) => if m.spec_is_for(s.handle) && value != s.value {
                        &&& out@.len() == 2
                        &&& is_text_message(out@[0], s.text, key_binding_text(value))
                        &&& out@[1] == key_binding_message(s.handle, MessageDirection::FromWidget, value)
                        &&& *final(self) == KeyBindingEditor { value, ..s }
                        &&& final(message).handled == m.handled
                    } else {
                        &&& out@.len() == 0
                        &&& *final(self) == s
                        &&& final(message).handled == m.handled
                    },
                    _ => {
                        &&& out@.len() == 0
                        &&& *final(self) == s
                        &&& final(message).handled == m.handled
                    },
                }
            }),
    {
        let mut out: Vec<UiMessage> = Vec::new();
        match message.data {
            MessageData::Widget(WidgetMessage::KeyDown(key)) => {
                out.push(
                    KeyBindingEditorMessage::value(
                        self.handle,
                        MessageDirection::ToWidget,
                        KeyBinding::Key(key),
                    ),
                );
                message.handled = true;
            },
            MessageData::Widget(WidgetMessage::MouseDown { button }) => {
                if button == MouseButton::Left {
                    let editing = !self.editing;
                    let m = self.set_editing(editing);
                    out.push(m);
                }
            },
            MessageData::Widget(WidgetMessage::Unfocus) => {
                if self.editing {
                    let m = self.set_editing(false);
                    out.push(m);
                }
            },
            MessageData::KeyBindingEditor(KeyBindingEditorMessage::Value(value)) => {
                if message.destination == self.handle && message.direction
                    == MessageDirection::ToWidget {
                    if value != self.value {
                        self.value = value;
                        out.push(
                            UiMessage {
                                destination: self.text,
                                direction: MessageDirection::ToWidget,
                                handled: false,
                                data: MessageData::Text(TextMessage::Text(value.to_string())),
                            },
                        );
                        out.push(
                            KeyBindingEditorMessage::value(
                                self.handle,
                                MessageDirection::FromWidget,
                                value,
                            ),
                        );
                    }
                }
            },
            _ => {},
        }
        out
    }
}

/// Builds key binding editors.
#[derive(Copy, Clone, Debug)]
pub struct KeyBindingEditorBuilder {
    value: KeyBinding,
}

impl KeyBindingEditorBuilder {
    pub closed spec fn spec_value(&self) -> KeyBinding {
        self.value
    }

    /// A builder whose editor starts unset.
    pub fn new() -> (r: Self)
        ensures
            r.spec_value() == KeyBinding::NotSet,
    {
        KeyBindingEditorBuilder { value: KeyBinding::NotSet }
    }

    /// Sets the value the editor starts with.
    pub fn with_value(self, key_binding: KeyBinding) -> (r: Self)
        ensures
            r.spec_value() == key_binding,
    {
        KeyBindingEditorBuilder { value: key_binding }
    }

    /// The editor for the widget `handle`, showing its value in the text widget `text`, not
    /// editing; and the text the text widget starts with.
    pub fn build(self, handle: Handle, text: Handle) -> (r: (KeyBindingEditor, String))
        ensures
            r.0 == (KeyBindingEditor { handle, text, value: self.spec_value(), editing: false }),
            r.1@ == key_binding_text(self.spec_value()),
    {
        let s = self.value.to_string();
        (KeyBindingEditor { handle, text, value: self.value, editing: false }, s)
    }
}

} // verus!
