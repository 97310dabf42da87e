//! Handles of widgets and the messages widgets exchange, as plain values.

use vstd::prelude::*;
use crate::key::{HotKeyEditorMessage, KeyBindingEditorMessage};
use crate::list_view::{ListViewMessage, same_list_view_message};
use crate::input::InputBoxMessage;
use crate::style::{StyledPropertySelectorMessage, StyledPropertyEditorMessage};
use crate::texture_slice::{TextureSliceEditorMessage, NumericUpDownMessage, RectEditorMessage};

verus! {

/// A handle of a widget in the user interface's pool: an index and a generation. The
/// handle with index 0 and generation 0 is the "none" handle.
#[derive(Copy, Clone, PartialEq, Eq, Debug, Hash, Structural)]
pub struct Handle {
    pub index: u32,
    pub generation: u32,
}

impl Handle {
    /// The handle that points to nothing.
    pub open spec fn spec_none() -> Handle {
        Handle { index: 0, generation: 0 }
    }

    /// Whether this is the "none" handle.
    pub open spec fn spec_is_none(self) -> bool {
        self.index == 0 && self.generation == 0
    }

    /// The handle that points to nothing.
    pub fn none() -> (r: Handle)
        ensures
            r == Handle::spec_none(),
    {
        Handle { index: 0, generation: 0 }
    }

    /// A handle with the given index and generation.
    pub fn new(index: u32, generation: u32) -> (r: Handle)
        ensures
            r == (Handle { index, generation }),
    {
        Handle { index, generation }
    }

    /// Whether this is the "none" handle.
    pub fn is_none(&self) -> (r: bool)
        ensures
            r == self.spec_is_none(),
    {
        self.index == 0 && self.generation == 0
    }

    /// Whether this handle may point to a widget.
    pub fn is_some(&self) -> (r: bool)
        ensures
            r == !self.spec_is_none(),
    {
        !(self.index == 0 && self.generation == 0)
    }
}

impl Default for Handle {
    fn default() -> (r: Handle)
        ensures
            r.spec_is_none(),
    {
        Handle { index: 0, generation: 0 }
    }
}

/// Whether a message goes to a widget or comes from it.
#[derive(Copy, Clone, PartialEq, Eq, Debug, Hash, Structural)]
pub enum MessageDirection {
    /// The message asks the widget to change.
    ToWidget,
    /// The message tells that the widget has changed.
    FromWidget,
}

impl MessageDirection {
    /// The other direction.
    pub fn reverse(self) -> (r: MessageDirection)
        ensures
            r != self,
    {
        match self {
            MessageDirection::ToWidget => MessageDirection::FromWidget,
            MessageDirection::FromWidget => MessageDirection::ToWidget,
        }
    }
}

/// A physical key of the keyboard.
#[derive(Copy, Clone, PartialEq, Eq, Debug, Hash, Structural)]
pub enum KeyCode {
    Backquote,
    Backslash,
    BracketLeft,
    BracketRight,
    Comma,
    Digit0,
    Digit1,
    Digit2,
    Digit3,
    Digit4,
    Digit5,
    Digit6,
    Digit7,
    Digit8,
    Digit9,
    Equal,
    IntlBackslash,
    IntlRo,
    IntlYen,
    KeyA,
    KeyB,
    KeyC,
    KeyD,
    KeyE,
    KeyF,
    KeyG,
    KeyH,
    KeyI,
    KeyJ,
    KeyK,
    KeyL,
    KeyM,
    KeyN,
    KeyO,
    KeyP,
    KeyQ,
    KeyR,
    KeyS,
    KeyT,
    KeyU,
    KeyV,
    KeyW,
    KeyX,
    KeyY,
    KeyZ,
    Minus,
    Period,
    Quote,
    Semicolon,
    Slash,
    AltLeft,
    AltRight,
    Backspace,
    CapsLock,
    ContextMenu,
    ControlLeft,
    ControlRight,
    Enter,
    SuperLeft,
    SuperRight,
    ShiftLeft,
    ShiftRight,
    Space,
    Tab,
    Convert,
    KanaMode,
    Lang1,
    Lang2,
    Lang3,
    Lang4,
    Lang5,
    NonConvert,
    Delete,
    End,
    Help,
    Home,
    Insert,
    PageDown,
    PageUp,
    ArrowDown,
    ArrowLeft,
    ArrowRight,
    ArrowUp,
    NumLock,
    Numpad0,
    Numpad1,
    Numpad2,
    Numpad3,
    Numpad4,
    Numpad5,
    Numpad6,
    Numpad7,
    Numpad8,
    Numpad9,
    NumpadAdd,
    NumpadBackspace,
    NumpadClear,
    NumpadClearEntry,
    NumpadComma,
    NumpadDecimal,
    NumpadDivide,
    NumpadEnter,
    NumpadEqual,
    NumpadHash,
    NumpadMemoryAdd,
    NumpadMemoryClear,
    NumpadMemoryRecall,
    NumpadMemoryStore,
    NumpadMemorySubtract,
    NumpadMultiply,
    NumpadParenLeft,
    NumpadParenRight,
    NumpadStar,
    NumpadSubtract,
    Escape,
    Fn,
    FnLock,
    PrintScreen,
    ScrollLock,
    Pause,
    BrowserBack,
    BrowserFavorites,
    BrowserForward,
    BrowserHome,
    BrowserRefresh,
    BrowserSearch,
    BrowserStop,
    Eject,
    LaunchApp1,
    LaunchApp2,
    LaunchMail,
    MediaPlayPause,
    MediaSelect,
    MediaStop,
    MediaTrackNext,
    MediaTrackPrevious,
    Power,
    Sleep,
    AudioVolumeDown,
    AudioVolumeMute,
    AudioVolumeUp,
    WakeUp,
    Meta,
    Hyper,
    Turbo,
    Abort,
    Resume,
    Suspend,
    Again,
    Copy,
    Cut,
    Find,
    Open,
    Paste,
    Props,
    Select,
    Undo,
    Hiragana,
    Katakana,
    F1,
    F2,
    F3,
    F4,
    F5,
    F6,
    F7,
    F8,
    F9,
    F10,
    F11,
    F12,
    F13,
    F14,
    F15,
    F16,
    F17,
    F18,
    F19,
    F20,
    F21,
    F22,
    F23,
    F24,
    F25,
    F26,
    F27,
    F28,
    F29,
    F30,
    F31,
    F32,
    F33,
    F34,
    F35,
}

/// The name of a key, as written in its variant.
pub open spec fn key_code_name(k: KeyCode) -> Seq<char> {
    match k {
        KeyCode::Backquote => "Backquote"@,
        KeyCode::Backslash => "Backslash"@,
        KeyCode::BracketLeft => "BracketLeft"@,
        KeyCode::BracketRight => "BracketRight"@,
        KeyCode::Comma => "Comma"@,
        KeyCode::Digit0 => "Digit0"@,
        KeyCode::Digit1 => "Digit1"@,
        KeyCode::Digit2 => "Digit2"@,
        KeyCode::Digit3 => "Digit3"@,
        KeyCode::Digit4 => "Digit4"@,
        KeyCode::Digit5 => "Digit5"@,
        KeyCode::Digit6 => "Digit6"@,
        KeyCode::Digit7 => "Digit7"@,
        KeyCode::Digit8 => "Digit8"@,
        KeyCode::Digit9 => "Digit9"@,
        KeyCode::Equal => "Equal"@,
        KeyCode::IntlBackslash => "IntlBackslash"@,
        KeyCode::IntlRo => "IntlRo"@,
        KeyCode::IntlYen => "IntlYen"@,
        KeyCode::KeyA => "KeyA"@,
        KeyCode::KeyB => "KeyB"@,
        KeyCode::KeyC => "KeyC"@,
        KeyCode::KeyD => "KeyD"@,
        KeyCode::KeyE => "KeyE"@,
        KeyCode::KeyF => "KeyF"@,
        KeyCode::KeyG => "KeyG"@,
        KeyCode::KeyH => "KeyH"@,
        KeyCode::KeyI => "KeyI"@,
        KeyCode::KeyJ => "KeyJ"@,
        KeyCode::KeyK => "KeyK"@,
        KeyCode::KeyL => "KeyL"@,
        KeyCode::KeyM => "KeyM"@,
        KeyCode::KeyN => "KeyN"@,
        KeyCode::KeyO => "KeyO"@,
        KeyCode::KeyP => "KeyP"@,
        KeyCode::KeyQ => "KeyQ"@,
        KeyCode::KeyR => "KeyR"@,
        KeyCode::KeyS => "KeyS"@,
        KeyCode::KeyT => "KeyT"@,
        KeyCode::KeyU => "KeyU"@,
        KeyCode::KeyV => "KeyV"@,
        KeyCode::KeyW => "KeyW"@,
        KeyCode::KeyX => "KeyX"@,
        KeyCode::KeyY => "KeyY"@,
        KeyCode::KeyZ => "KeyZ"@,
        KeyCode::Minus => "Minus"@,
        KeyCode::Period => "Period"@,
        KeyCode::Quote => "Quote"@,
        KeyCode::Semicolon => "Semicolon"@,
        KeyCode::Slash => "Slash"@,
        KeyCode::AltLeft => "AltLeft"@,
        KeyCode::AltRight => "AltRight"@,
        KeyCode::Backspace => "Backspace"@,
        KeyCode::CapsLock => "CapsLock"@,
        KeyCode::ContextMenu => "ContextMenu"@,
        KeyCode::ControlLeft => "ControlLeft"@,
        KeyCode::ControlRight => "ControlRight"@,
        KeyCode::Enter => "Enter"@,
        KeyCode::SuperLeft => "SuperLeft"@,
        KeyCode::SuperRight => "SuperRight"@,
        KeyCode::ShiftLeft => "ShiftLeft"@,
        KeyCode::ShiftRight => "ShiftRight"@,
        KeyCode::Space => "Space"@,
        KeyCode::Tab => "Tab"@,
        KeyCode::Convert => "Convert"@,
        KeyCode::KanaMode => "KanaMode"@,
        KeyCode::Lang1 => "Lang1"@,
        KeyCode::Lang2 => "Lang2"@,
        KeyCode::Lang3 => "Lang3"@,
        KeyCode::Lang4 => "Lang4"@,
        KeyCode::Lang5 => "Lang5"@,
        KeyCode::NonConvert => "NonConvert"@,
        KeyCode::Delete => "Delete"@,
        KeyCode::End => "End"@,
        KeyCode::Help => "Help"@,
        KeyCode::Home => "Home"@,
        KeyCode::Insert => "Insert"@,
        KeyCode::PageDown => "PageDown"@,
        KeyCode::PageUp => "PageUp"@,
        KeyCode::ArrowDown => "ArrowDown"@,
        KeyCode::ArrowLeft => "ArrowLeft"@,
        KeyCode::ArrowRight => "ArrowRight"@,
        KeyCode::ArrowUp => "ArrowUp"@,
        KeyCode::NumLock => "NumLock"@,
        KeyCode::Numpad0 => "Numpad0"@,
        KeyCode::Numpad1 => "Numpad1"@,
        KeyCode::Numpad2 => "Numpad2"@,
        KeyCode::Numpad3 => "Numpad3"@,
        KeyCode::Numpad4 => "Numpad4"@,
        KeyCode::Numpad5 => "Numpad5"@,
        KeyCode::Numpad6 => "Numpad6"@,
        KeyCode::Numpad7 => "Numpad7"@,
        KeyCode::Numpad8 => "Numpad8"@,
        KeyCode::Numpad9 => "Numpad9"@,
        KeyCode::NumpadAdd => "NumpadAdd"@,
        KeyCode::NumpadBackspace => "NumpadBackspace"@,
        KeyCode::NumpadClear => "NumpadClear"@,
        KeyCode::NumpadClearEntry => "NumpadClearEntry"@,
        KeyCode::NumpadComma => "NumpadComma"@,
        KeyCode::NumpadDecimal => "NumpadDecimal"@,
        KeyCode::NumpadDivide => "NumpadDivide"@,
        KeyCode::NumpadEnter => "NumpadEnter"@,
        KeyCode::NumpadEqual => "NumpadEqual"@,
        KeyCode::NumpadHash => "NumpadHash"@,
        KeyCode::NumpadMemoryAdd => "NumpadMemoryAdd"@,
        KeyCode::NumpadMemoryClear => "NumpadMemoryClear"@,
        KeyCode::NumpadMemoryRecall => "NumpadMemoryRecall"@,
        KeyCode::NumpadMemoryStore => "NumpadMemoryStore"@,
        KeyCode::NumpadMemorySubtract => "NumpadMemorySubtract"@,
        KeyCode::NumpadMultiply => "NumpadMultiply"@,
        KeyCode::NumpadParenLeft => "NumpadParenLeft"@,
        KeyCode::NumpadParenRight => "NumpadParenRight"@,
        KeyCode::NumpadStar => "NumpadStar"@,
        KeyCode::NumpadSubtract => "NumpadSubtract"@,
        KeyCode::Escape => "Escape"@,
        KeyCode::Fn => "Fn"@,
        KeyCode::FnLock => "FnLock"@,
        KeyCode::PrintScreen => "PrintScreen"@,
        KeyCode::ScrollLock => "ScrollLock"@,
        KeyCode::Pause => "Pause"@,
        KeyCode::BrowserBack => "BrowserBack"@,
        KeyCode::BrowserFavorites => "BrowserFavorites"@,
        KeyCode::BrowserForward => "BrowserForward"@,
        KeyCode::BrowserHome => "BrowserHome"@,
        KeyCode::BrowserRefresh => "BrowserRefresh"@,
        KeyCode::BrowserSearch => "BrowserSearch"@,
        KeyCode::BrowserStop => "BrowserStop"@,
        KeyCode::Eject => "Eject"@,
        KeyCode::LaunchApp1 => "LaunchApp1"@,
        KeyCode::LaunchApp2 => "LaunchApp2"@,
        KeyCode::LaunchMail => "LaunchMail"@,
        KeyCode::MediaPlayPause => "MediaPlayPause"@,
        KeyCode::MediaSelect => "MediaSelect"@,
        KeyCode::MediaStop => "MediaStop"@,
        KeyCode::MediaTrackNext => "MediaTrackNext"@,
        KeyCode::MediaTrackPrevious => "MediaTrackPrevious"@,
        KeyCode::Power => "Power"@,
        KeyCode::Sleep => "Sleep"@,
        KeyCode::AudioVolumeDown => "AudioVolumeDown"@,
        KeyCode::AudioVolumeMute => "AudioVolumeMute"@,
        KeyCode::AudioVolumeUp => "AudioVolumeUp"@,
        KeyCode::WakeUp => "WakeUp"@,
        KeyCode::Meta => "Meta"@,
        KeyCode::Hyper => "Hyper"@,
        KeyCode::Turbo => "Turbo"@,
        KeyCode::Abort => "Abort"@,
        KeyCode::Resume => "Resume"@,
        KeyCode::Suspend => "Suspend"@,
        KeyCode::Again => "Again"@,
        KeyCode::Copy => "Copy"@,
        KeyCode::Cut => "Cut"@,
        KeyCode::Find => "Find"@,
        KeyCode::Open => "Open"@,
        KeyCode::Paste => "Paste"@,
        KeyCode::Props => "Props"@,
        KeyCode::Select => "Select"@,
        KeyCode::Undo => "Undo"@,
        KeyCode::Hiragana => "Hiragana"@,
        KeyCode::Katakana => "Katakana"@,
        KeyCode::F1 => "F1"@,
        KeyCode::F2 => "F2"@,
        KeyCode::F3 => "F3"@,
        KeyCode::F4 => "F4"@,
        KeyCode::F5 => "F5"@,
        KeyCode::F6 => "F6"@,
        KeyCode::F7 => "F7"@,
        KeyCode::F8 => "F8"@,
        KeyCode::F9 => "F9"@,
        KeyCode::F10 => "F10"@,
        KeyCode::F11 => "F11"@,
        KeyCode::F12 => "F12"@,
        KeyCode::F13 => "F13"@,
        KeyCode::F14 => "F14"@,
        KeyCode::F15 => "F15"@,
        KeyCode::F16 => "F16"@,
        KeyCode::F17 => "F17"@,
        KeyCode::F18 => "F18"@,
        KeyCode::F19 => "F19"@,
        KeyCode::F20 => "F20"@,
        KeyCode::F21 => "F21"@,
        KeyCode::F22 => "F22"@,
        KeyCode::F23 => "F23"@,
        KeyCode::F24 => "F24"@,
        KeyCode::F25 => "F25"@,
        KeyCode::F26 => "F26"@,
        KeyCode::F27 => "F27"@,
        KeyCode::F28 => "F28"@,
        KeyCode::F29 => "F29"@,
        KeyCode::F30 => "F30"@,
        KeyCode::F31 => "F31"@,
        KeyCode::F32 => "F32"@,
        KeyCode::F33 => "F33"@,
        KeyCode::F34 => "F34"@,
        KeyCode::F35 => "F35"@,
    }
}

impl KeyCode {
    /// The name of the key.
    pub fn as_str(&self) -> (r: &'static str)
        ensures
            r@ == key_code_name(*self),
    {
        match self {
            KeyCode::Backquote => "Backquote",
            KeyCode::Backslash => "Backslash",
            KeyCode::BracketLeft => "BracketLeft",
            KeyCode::BracketRight => "BracketRight",
            KeyCode::Comma => "Comma",
            KeyCode::Digit0 => "Digit0",
            KeyCode::Digit1 => "Digit1",
            KeyCode::Digit2 => "Digit2",
            KeyCode::Digit3 => "Digit3",
            KeyCode::Digit4 => "Digit4",
            KeyCode::Digit5 => "Digit5",
            KeyCode::Digit6 => "Digit6",
            KeyCode::Digit7 => "Digit7",
            KeyCode::Digit8 => "Digit8",
            KeyCode::Digit9 => "Digit9",
            KeyCode::Equal => "Equal",
            KeyCode::IntlBackslash => "IntlBackslash",
            KeyCode::IntlRo => "IntlRo",
            KeyCode::IntlYen => "IntlYen",
            KeyCode::KeyA => "KeyA",
            KeyCode::KeyB => "KeyB",
            KeyCode::KeyC => "KeyC",
            KeyCode::KeyD => "KeyD",
            KeyCode::KeyE => "KeyE",
            KeyCode::KeyF => "KeyF",
            KeyCode::KeyG => "KeyG",
            KeyCode::KeyH => "KeyH",
            KeyCode::KeyI => "KeyI",
            KeyCode::KeyJ => "KeyJ",
            KeyCode::KeyK => "KeyK",
            KeyCode::KeyL => "KeyL",
            KeyCode::KeyM => "KeyM",
            KeyCode::KeyN => "KeyN",
            KeyCode::KeyO => "KeyO",
            KeyCode::KeyP => "KeyP",
            KeyCode::KeyQ => "KeyQ",
            KeyCode::KeyR => "KeyR",
            KeyCode::KeyS => "KeyS",
            KeyCode::KeyT => "KeyT",
            KeyCode::KeyU => "KeyU",
            KeyCode::KeyV => "KeyV",
            KeyCode::KeyW => "KeyW",
            KeyCode::KeyX => "KeyX",
            KeyCode::KeyY => "KeyY",
            KeyCode::KeyZ => "KeyZ",
            KeyCode::Minus => "Minus",
            KeyCode::Period => "Period",
            KeyCode::Quote => "Quote",
            KeyCode::Semicolon => "Semicolon",
            KeyCode::Slash => "Slash",
            KeyCode::AltLeft => "AltLeft",
            KeyCode::AltRight => "AltRight",
            KeyCode::Backspace => "Backspace",
            KeyCode::CapsLock => "CapsLock",
            KeyCode::ContextMenu => "ContextMenu",
            KeyCode::ControlLeft => "ControlLeft",
            KeyCode::ControlRight => "ControlRight",
            KeyCode::Enter => "Enter",
            KeyCode::SuperLeft => "SuperLeft",
            KeyCode::SuperRight => "SuperRight",
            KeyCode::ShiftLeft => "ShiftLeft",
            KeyCode::ShiftRight => "ShiftRight",
            KeyCode::Space => "Space",
            KeyCode::Tab => "Tab",
            KeyCode::Convert => "Convert",
            KeyCode::KanaMode => "KanaMode",
            KeyCode::Lang1 => "Lang1",
            KeyCode::Lang2 => "Lang2",
            KeyCode::Lang3 => "Lang3",
            KeyCode::Lang4 => "Lang4",
            KeyCode::Lang5 => "Lang5",
            KeyCode::NonConvert => "NonConvert",
            KeyCode::Delete => "Delete",
            KeyCode::End => "End",
            KeyCode::Help => "Help",
            KeyCode::Home => "Home",
            KeyCode::Insert => "Insert",
            KeyCode::PageDown => "PageDown",
            KeyCode::PageUp => "PageUp",
            KeyCode::ArrowDown => "ArrowDown",
            KeyCode::ArrowLeft => "ArrowLeft",
            KeyCode::ArrowRight => "ArrowRight",
            KeyCode::ArrowUp => "ArrowUp",
            KeyCode::NumLock => "NumLock",
            KeyCode::Numpad0 => "Numpad0",
            KeyCode::Numpad1 => "Numpad1",
            KeyCode::Numpad2 => "Numpad2",
            KeyCode::Numpad3 => "Numpad3",
            KeyCode::Numpad4 => "Numpad4",
            KeyCode::Numpad5 => "Numpad5",
            KeyCode::Numpad6 => "Numpad6",
            KeyCode::Numpad7 => "Numpad7",
            KeyCode::Numpad8 => "Numpad8",
            KeyCode::Numpad9 => "Numpad9",
            KeyCode::NumpadAdd => "NumpadAdd",
            KeyCode::NumpadBackspace => "NumpadBackspace",
            KeyCode::NumpadClear => "NumpadClear",
            KeyCode::NumpadClearEntry => "NumpadClearEntry",
            KeyCode::NumpadComma => "NumpadComma",
            KeyCode::NumpadDecimal => "NumpadDecimal",
            KeyCode::NumpadDivide => "NumpadDivide",
            KeyCode::NumpadEnter => "NumpadEnter",
            KeyCode::NumpadEqual => "NumpadEqual",
            KeyCode::NumpadHash => "NumpadHash",
            KeyCode::NumpadMemoryAdd => "NumpadMemoryAdd",
            KeyCode::NumpadMemoryClear => "NumpadMemoryClear",
            KeyCode::NumpadMemoryRecall => "NumpadMemoryRecall",
            KeyCode::NumpadMemoryStore => "NumpadMemoryStore",
            KeyCode::NumpadMemorySubtract => "NumpadMemorySubtract",
            KeyCode::NumpadMultiply => "NumpadMultiply",
            KeyCode::NumpadParenLeft => "NumpadParenLeft",
            KeyCode::NumpadParenRight => "NumpadParenRight",
            KeyCode::NumpadStar => "NumpadStar",
            KeyCode::NumpadSubtract => "NumpadSubtract",
            KeyCode::Escape => "Escape",
            KeyCode::Fn => "Fn",
            KeyCode::FnLock => "FnLock",
            KeyCode::PrintScreen => "PrintScreen",
            KeyCode::ScrollLock => "ScrollLock",
            KeyCode::Pause => "Pause",
            KeyCode::BrowserBack => "BrowserBack",
            KeyCode::BrowserFavorites => "BrowserFavorites",
            KeyCode::BrowserForward => "BrowserForward",
            KeyCode::BrowserHome => "BrowserHome",
            KeyCode::BrowserRefresh => "BrowserRefresh",
            KeyCode::BrowserSearch => "BrowserSearch",
            KeyCode::BrowserStop => "BrowserStop",
            KeyCode::Eject => "Eject",
            KeyCode::LaunchApp1 => "LaunchApp1",
            KeyCode::LaunchApp2 => "LaunchApp2",
            KeyCode::LaunchMail => "LaunchMail",
            KeyCode::MediaPlayPause => "MediaPlayPause",
            KeyCode::MediaSelect => "MediaSelect",
            KeyCode::MediaStop => "MediaStop",
            KeyCode::MediaTrackNext => "MediaTrackNext",
            KeyCode::MediaTrackPrevious => "MediaTrackPrevious",
            KeyCode::Power => "Power",
            KeyCode::Sleep => "Sleep",
            KeyCode::AudioVolumeDown => "AudioVolumeDown",
            KeyCode::AudioVolumeMute => "AudioVolumeMute",
            KeyCode::AudioVolumeUp => "AudioVolumeUp",
            KeyCode::WakeUp => "WakeUp",
            KeyCode::Meta => "Meta",
            KeyCode::Hyper => "Hyper",
            KeyCode::Turbo => "Turbo",
            KeyCode::Abort => "Abort",
            KeyCode::Resume => "Resume",
            KeyCode::Suspend => "Suspend",
            KeyCode::Again => "Again",
            KeyCode::Copy => "Copy",
            KeyCode::Cut => "Cut",
            KeyCode::Find => "Find",
            KeyCode::Open => "Open",
            KeyCode::Paste => "Paste",
            KeyCode::Props => "Props",
            KeyCode::Select => "Select",
            KeyCode::Undo => "Undo",
            KeyCode::Hiragana => "Hiragana",
            KeyCode::Katakana => "Katakana",
            KeyCode::F1 => "F1",
            KeyCode::F2 => "F2",
            KeyCode::F3 => "F3",
            KeyCode::F4 => "F4",
            KeyCode::F5 => "F5",
            KeyCode::F6 => "F6",
            KeyCode::F7 => "F7",
            KeyCode::F8 => "F8",
            KeyCode::F9 => "F9",
            KeyCode::F10 => "F10",
            KeyCode::F11 => "F11",
            KeyCode::F12 => "F12",
            KeyCode::F13 => "F13",
            KeyCode::F14 => "F14",
            KeyCode::F15 => "F15",
            KeyCode::F16 => "F16",
            KeyCode::F17 => "F17",
            KeyCode::F18 => "F18",
            KeyCode::F19 => "F19",
            KeyCode::F20 => "F20",
            KeyCode::F21 => "F21",
            KeyCode::F22 => "F22",
            KeyCode::F23 => "F23",
            KeyCode::F24 => "F24",
            KeyCode::F25 => "F25",
            KeyCode::F26 => "F26",
            KeyCode::F27 => "F27",
            KeyCode::F28 => "F28",
            KeyCode::F29 => "F29",
            KeyCode::F30 => "F30",
            KeyCode::F31 => "F31",
            KeyCode::F32 => "F32",
            KeyCode::F33 => "F33",
            KeyCode::F34 => "F34",
            KeyCode::F35 => "F35",
        }
    }
}

/// The state of the modifier keys.
#[derive(Copy, Clone, PartialEq, Eq, Debug, Default, Hash, Structural)]
pub struct KeyboardModifiers {
    pub alt: bool,
    pub shift: bool,
    pub control: bool,
    pub system: bool,
}

impl KeyboardModifiers {
    /// No modifier key held.
    pub fn none() -> (r: KeyboardModifiers)
        ensures
            r == (KeyboardModifiers { alt: false, shift: false, control: false, system: false }),
    {
        KeyboardModifiers { alt: false, shift: false, control: false, system: false }
    }
}

/// A mouse button.
#[derive(Copy, Clone, PartialEq, Eq, Debug, Hash, Structural)]
pub enum MouseButton {
    Left,
    Right,
    Middle,
    Back,
    Forward,
    Other(u16),
}

/// Whether a button is held.
#[derive(Copy, Clone, PartialEq, Eq, Debug, Hash, Structural)]
pub enum ButtonState {
    Pressed,
    Released,
}

/// Messages every widget understands.
#[derive(Copy, Clone, PartialEq, Eq, Debug)]
pub enum WidgetMessage {
    /// A key went down while the widget had the keyboard focus.
    KeyDown(KeyCode),
    /// A mouse button went down over the widget.
    MouseDown { button: MouseButton },
    /// A mouse button went up over the widget.
    MouseUp { button: MouseButton },
    /// The widget lost the keyboard focus.
    Unfocus,
    /// Asks the widget to take the keyboard focus.
    Focus,
    /// Asks the widget to remove itself.
    Remove,
    /// Asks the widget to become a child of the given parent.
    LinkWith(Handle),
    /// Asks the widget to show or hide itself.
    Visibility(bool),
    /// A key went up while the widget had the keyboard focus.
    KeyUp(KeyCode),
    /// Two presses of a mouse button on the widget made a double click.
    DoubleClick { button: MouseButton },
    /// The mouse moved over the widget.
    MouseMove,
    /// The mouse came over the widget.
    MouseEnter,
    /// The mouse left the widget.
    MouseLeave,
    /// The mouse wheel turned over the widget.
    MouseWheel,
    /// Dragging of the given widget started at this widget.
    DragStarted(Handle),
    /// The given widget is being dragged over this widget.
    DragOver(Handle),
    /// The given widget was dropped on this widget.
    Drop(Handle),
    /// A touch with the given id started on the widget.
    TouchStarted { id: u64 },
    /// A touch with the given id moved on the widget.
    TouchMoved { id: u64 },
    /// A touch with the given id ended on the widget.
    TouchEnded { id: u64 },
    /// Two touches with the given id on the widget made a double tap.
    DoubleTap { id: u64 },
    /// A touch with the given id on the widget was cancelled.
    TouchCancelled { id: u64 },
    /// Asks the widget to become the last child of its parent, drawn above its siblings.
    Topmost,
    /// Asks the widget to become the first child of its parent, drawn below its siblings.
    Lowermost,
    /// Asks the widget to leave its parent for the root canvas.
    Unlink,
    /// Asks the widget to become the first child of the given parent.
    LinkWithReverse(Handle),
    /// Sets the widget's context menu.
    ContextMenu(Option<Handle>),
    /// Sets the widget's tooltip.
    Tooltip(Option<Handle>),
}

/// Messages of buttons.
#[derive(Copy, Clone, PartialEq, Eq, Debug)]
pub enum ButtonMessage {
    /// The button was clicked.
    Click,
}

/// Messages of text widgets.
#[derive(PartialEq, Eq, Debug)]
pub enum TextMessage {
    /// The text of the widget.
    Text(String),
}

impl Clone for TextMessage {
    fn clone(&self) -> (r: Self)
        ensures
            r == *self,
    {
        match self {
            TextMessage::Text(s) => TextMessage::Text(s.clone()),
        }
    }
}

/// Where a window opens.
#[derive(Copy, Clone, PartialEq, Eq, Debug)]
pub enum WindowAlignment {
    Center,
}

/// Messages of windows.
#[derive(PartialEq, Eq, Debug)]
pub enum WindowMessage {
    /// Opens the window.
    Open { alignment: WindowAlignment, modal: bool, focus_content: bool },
    /// Closes the window.
    Close,
    /// Sets the title text of the window.
    Title(String),
}

impl Clone for WindowMessage {
    fn clone(&self) -> (r: Self)
        ensures
            r == *self,
    {
        match self {
            WindowMessage::Open { alignment, modal, focus_content } => WindowMessage::Open {
                alignment: *alignment,
                modal: *modal,
                focus_content: *focus_content,
            },
            WindowMessage::Close => WindowMessage::Close,
            WindowMessage::Title(s) => WindowMessage::Title(s.clone()),
        }
    }
}

/// Messages of drop-down lists.
#[derive(Copy, Clone, PartialEq, Eq, Debug)]
pub enum DropdownListMessage {
    /// Sets the selected item (to the widget).
    Selection(Option<usize>),
    /// The selected item changed (from the widget).
    SelectionChanged(Option<usize>),
}

/// Messages of decorators (the backgrounds that show selection).
#[derive(Copy, Clone, PartialEq, Eq, Debug)]
pub enum DecoratorMessage {
    /// Shows the decorator as selected or not.
    Select(bool),
}

/// Messages of scroll viewers.
#[derive(Copy, Clone, PartialEq, Eq, Debug)]
pub enum ScrollViewerMessage {
    /// Scrolls so that the given widget is visible.
    BringIntoView(Handle),
}

/// The data a message carries.
#[derive(PartialEq, Eq, Debug)]
pub enum MessageData {
    Widget(WidgetMessage),
    Button(ButtonMessage),
    Text(TextMessage),
    Window(WindowMessage),
    Decorator(DecoratorMessage),
    ScrollViewer(ScrollViewerMessage),
    DropdownList(DropdownListMessage),
    HotKeyEditor(HotKeyEditorMessage),
    KeyBindingEditor(KeyBindingEditorMessage),
    ListView(ListViewMessage),
    InputBox(InputBoxMessage),
    StyledPropertySelector(StyledPropertySelectorMessage),
    StyledPropertyEditor(StyledPropertyEditorMessage),
    TextureSliceEditor(TextureSliceEditorMessage),
    NumericUpDown(NumericUpDownMessage),
    RectEditor(RectEditorMessage),
    /// The text typed while the widget had the keyboard focus.
    WidgetText(String),
    Popup(PopupMessage),
}

/// Messages of popups (context menus among them).
#[derive(Copy, Clone, PartialEq, Eq, Debug)]
pub enum PopupMessage {
    /// Asks the popup to place itself at the cursor, for the given widget.
    PlacementAtCursor(Handle),
    /// Asks the popup to open.
    Open,
    /// Tells the popup which widget it serves.
    Owner(Handle),
}

/// Two message data say the same: equal, with lists compared by their elements.
pub open spec fn same_data(a: MessageData, b: MessageData) -> bool {
    match (a, b) {
        (MessageData::ListView(x), MessageData::ListView(y)) => same_list_view_message(x, y),
        _ => a == b,
    }
}

impl Clone for MessageData {
    fn clone(&self) -> (r: Self)
        ensures
            same_data(r, *self),
    {
        match self {
            MessageData::Widget(m) => MessageData::Widget(*m),
            MessageData::Button(m) => MessageData::Button(*m),
            MessageData::Text(m) => MessageData::Text(m.clone()),
            MessageData::Window(m) => MessageData::Window(m.clone()),
            MessageData::Decorator(m) => MessageData::Decorator(*m),
            MessageData::ScrollViewer(m) => MessageData::ScrollViewer(*m),
            MessageData::DropdownList(m) => MessageData::DropdownList(*m),
            MessageData::HotKeyEditor(m) => MessageData::HotKeyEditor(*m),
            MessageData::KeyBindingEditor(m) => MessageData::KeyBindingEditor(*m),
            MessageData::ListView(m) => MessageData::ListView(m.clone()),
            MessageData::InputBox(m) => MessageData::InputBox(m.clone()),
            MessageData::StyledPropertySelector(m) => MessageData::StyledPropertySelector(m.clone()),
            MessageData::StyledPropertyEditor(m) => MessageData::StyledPropertyEditor(m.clone()),
            MessageData::TextureSliceEditor(m) => MessageData::TextureSliceEditor(*m),
            MessageData::NumericUpDown(m) => MessageData::NumericUpDown(*m),
            MessageData::RectEditor(m) => MessageData::RectEditor(*m),
            MessageData::WidgetText(t) => MessageData::WidgetText(t.clone()),
            MessageData::Popup(m) => MessageData::Popup(*m),
        }
    }
}

/// A message addressed to a widget.
#[derive(PartialEq, Eq, Debug)]
pub struct UiMessage {
    /// The widget the message is addressed to or comes from.
    pub destination: Handle,
    /// Whether the message goes to the widget or comes from it.
    pub direction: MessageDirection,
    /// Set by a widget that consumed the message.
    pub handled: bool,
    /// What the message says.
    pub data: MessageData,
}

impl Clone for UiMessage {
    fn clone(&self) -> (r: Self)
        ensures
            r.same(*self),
    {
        UiMessage { destination: self.destination, direction: self.direction, handled: self.handled, data: self.data.clone() }
    }
}

impl UiMessage {
    /// Two messages say the same: equal, with lists compared by their elements.
    pub open spec fn same(self, other: UiMessage) -> bool {
        &&& self.destination == other.destination
        &&& self.direction == other.direction
        &&& self.handled == other.handled
        &&& same_data(self.data, other.data)
    }

    /// A message to the given widget.
    pub fn for_widget(destination: Handle, data: MessageData) -> (r: UiMessage)
        ensures
            r == (UiMessage { destination, direction: MessageDirection::ToWidget, handled: false, data }),
    {
        UiMessage { destination, direction: MessageDirection::ToWidget, handled: false, data }
    }

    /// A message from the given widget.
    pub fn from_widget(destination: Handle, data: MessageData) -> (r: UiMessage)
        ensures
            r == (UiMessage { destination, direction: MessageDirection::FromWidget, handled: false, data }),
    {
        UiMessage { destination, direction: MessageDirection::FromWidget, handled: false, data }
    }

    /// Whether the message is addressed to the widget `handle`.
    pub open spec fn spec_is_for(&self, handle: Handle) -> bool {
        self.destination == handle && self.direction == MessageDirection::ToWidget
    }

    /// Whether the message comes from the widget `handle`.
    pub open spec fn spec_is_from(&self, handle: Handle) -> bool {
        self.destination == handle && self.direction == MessageDirection::FromWidget
    }

    /// Whether the message is addressed to the widget `handle`.
    pub fn is_for(&self, handle: Handle) -> (r: bool)
        ensures
            r == self.spec_is_for(handle),
    {
        self.destination == handle && self.direction == MessageDirection::ToWidget
    }

    /// Whether the message comes from the widget `handle`.
    pub fn is_from(&self, handle: Handle) -> (r: bool)
        ensures
            r == self.spec_is_from(handle),
    {
        self.destination == handle && self.direction == MessageDirection::FromWidget
    }
}

} // verus!
