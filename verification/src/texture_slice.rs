//! Editing texture slices: the region of a texture and the four margins that split it into
//! nine parts. The field editor shows an edit button that opens the slice editor window, whose
//! numeric fields, region field and slice view stay in step with the edited slice.

use vstd::prelude::*;
use vstd::string::StringExecFns;
use crate::message::{Handle, MessageDirection, UiMessage, MessageData, ButtonMessage, WindowMessage, WindowAlignment};

verus! {

/// A rectangle with integer position and size.
#[derive(Copy, Clone, Debug, PartialEq, Eq, Default, Structural)]
pub struct URect {
    pub x: u32,
    pub y: u32,
    pub w: u32,
    pub h: u32,
}

/// A texture, by its id, with a region of it and the four margins that split the region.
#[derive(Copy, Clone, Debug, PartialEq, Eq, Structural)]
pub struct TextureSlice {
    pub texture: Option<u64>,
    pub texture_region: URect,
    pub left_margin: u32,
    pub right_margin: u32,
    pub top_margin: u32,
    pub bottom_margin: u32,
}

impl TextureSlice {
    /// No texture, an empty region and no margins.
    pub open spec fn spec_default() -> Self {
        TextureSlice {
            texture: None,
            texture_region: URect { x: 0, y: 0, w: 0, h: 0 },
            left_margin: 0,
            right_margin: 0,
            top_margin: 0,
            bottom_margin: 0,
        }
    }
}

impl Default for TextureSlice {
    fn default() -> (r: Self)
        ensures
            r == TextureSlice::spec_default(),
    {
        TextureSlice {
            texture: None,
            texture_region: URect { x: 0, y: 0, w: 0, h: 0 },
            left_margin: 0,
            right_margin: 0,
            top_margin: 0,
            bottom_margin: 0,
        }
    }
}

/// Messages of texture slice editors.
#[derive(Copy, Clone, Debug, PartialEq, Eq, Structural)]
pub enum TextureSliceEditorMessage {
    /// The edited slice.
    Slice(TextureSlice),
}

/// Messages of numeric fields.
#[derive(Copy, Clone, Debug, PartialEq, Eq, Structural)]
pub enum NumericUpDownMessage {
    /// The value of the field.
    Value(u32),
}

/// Messages of rectangle fields.
#[derive(Copy, Clone, Debug, PartialEq, Eq, Structural)]
pub enum RectEditorMessage {
    /// The value of the field.
    Value(URect),
}

/// A message to the widget `destination`.
pub open spec fn to_widget(destination: Handle, data: MessageData) -> UiMessage {
    UiMessage { destination, direction: MessageDirection::ToWidget, handled: false, data }
}

/// The window that edits a texture slice.
#[derive(Copy, Clone, Debug, PartialEq, Eq, Structural)]
pub struct TextureSliceEditorWindow {
    pub handle: Handle,
    /// The field editor that opened the window.
    pub parent_editor: Handle,
    /// The view of the slice.
    pub slice_editor: Handle,
    pub texture_slice: TextureSlice,
    pub left_margin: Handle,
    pub right_margin: Handle,
    pub top_margin: Handle,
    pub bottom_margin: Handle,
    pub region: Handle,
}

/// The messages that bring the fields of the window in line with `w`'s slice and hand the
/// slice to the field editor: the region, the left, right, top and bottom margins, then the
/// slice.
pub open spec fn slice_changed_messages(w: TextureSliceEditorWindow) -> Seq<UiMessage> {
    seq![
        to_widget(w.region, MessageData::RectEditor(RectEditorMessage::Value(w.texture_slice.texture_region))),
        to_widget(w.left_margin, MessageData::NumericUpDown(NumericUpDownMessage::Value(w.texture_slice.left_margin))),
        to_widget(w.right_margin, MessageData::NumericUpDown(NumericUpDownMessage::Value(w.texture_slice.right_margin))),
        to_widget(w.top_margin, MessageData::NumericUpDown(NumericUpDownMessage::Value(w.texture_slice.top_margin))),
        to_widget(w.bottom_margin, MessageData::NumericUpDown(NumericUpDownMessage::Value(w.texture_slice.bottom_margin))),
        to_widget(w.parent_editor, MessageData::TextureSliceEditor(TextureSliceEditorMessage::Slice(w.texture_slice))),
    ]
}

/// The slice `s` with the margin of the numeric field `field` of `w` set to `value`, if
/// `field` is one of the four margin fields (the first that matches, in the order left, right,
/// top, bottom).
pub open spec fn with_margin(w: TextureSliceEditorWindow, s: TextureSlice, field: Handle, value: u32) -> Option<TextureSlice> {
    if field == w.left_margin {
        Some(TextureSlice { left_margin: value, ..s })
    } else if field == w.right_margin {
        Some(TextureSlice { right_margin: value, ..s })
    } else if field == w.top_margin {
        Some(TextureSlice { top_margin: value, ..s })
    } else if field == w.bottom_margin {
        Some(TextureSlice { bottom_margin: value, ..s })
    } else {
        None
    }
}

/// The window's reply to `m` and its slice afterwards.
pub open spec fn window_reply(w: TextureSliceEditorWindow, m: UiMessage) -> (Seq<UiMessage>, TextureSlice) {
    match m.data {
        MessageData::TextureSliceEditor(TextureSliceEditorMessage::Slice(slice)) => {
            let from_view = m.direction == MessageDirection::FromWidget && m.destination == w.slice_editor;
            let w1 = if from_view { TextureSliceEditorWindow { texture_slice: slice, ..w } } else { w };
            let out1 = if from_view { slice_changed_messages(w1) } else { Seq::empty() };
            if m.destination == w.handle && m.direction == MessageDirection::ToWidget && w1.texture_slice != slice {
                let w2 = TextureSliceEditorWindow { texture_slice: slice, ..w1 };
                (out1.push(to_widget(w.slice_editor, MessageData::TextureSliceEditor(TextureSliceEditorMessage::Slice(slice)))) + slice_changed_messages(w2), slice)
            } else {
                (out1, w1.texture_slice)
            }
        },
        MessageData::NumericUpDown(NumericUpDownMessage::Value(v)) =>
            if m.direction == MessageDirection::FromWidget {
                match with_margin(w, w.texture_slice, m.destination, v) {
                    Some(s) => (seq![to_widget(w.handle, MessageData::TextureSliceEditor(TextureSliceEditorMessage::Slice(s)))], w.texture_slice),
                    None => (Seq::empty(), w.texture_slice),
                }
            } else {
                (Seq::empty(), w.texture_slice)
            },
        MessageData::RectEditor(RectEditorMessage::Value(r)) =>
            if m.direction == MessageDirection::FromWidget && m.destination == w.region {
                (seq![to_widget(w.handle, MessageData::TextureSliceEditor(TextureSliceEditorMessage::Slice(TextureSlice { texture_region: r, ..w.texture_slice })))], w.texture_slice)
            } else {
                (Seq::empty(), w.texture_slice)
            },
        _ => (Seq::empty(), w.texture_slice),
    }
}

impl TextureSliceEditorWindow {
    /// The messages that bring the fields of the window in line with its slice and hand the
    /// slice to the field editor.
    pub fn on_slice_changed(&self) -> (out: Vec<UiMessage>)
        ensures
            out@ == slice_changed_messages(*self),
    {
        let s = self.texture_slice;
        let mut out: Vec<UiMessage> = Vec::new();
        out.push(UiMessage::for_widget(self.region, MessageData::RectEditor(RectEditorMessage::Value(s.texture_region))));
        out.push(UiMessage::for_widget(self.left_margin, MessageData::NumericUpDown(NumericUpDownMessage::Value(s.left_margin))));
        out.push(UiMessage::for_widget(self.right_margin, MessageData::NumericUpDown(NumericUpDownMessage::Value(s.right_margin))));
        out.push(UiMessage::for_widget(self.top_margin, MessageData::NumericUpDown(NumericUpDownMessage::Value(s.top_margin))));
        out.push(UiMessage::for_widget(self.bottom_margin, MessageData::NumericUpDown(NumericUpDownMessage::Value(s.bottom_margin))));
        out.push(UiMessage::for_widget(self.parent_editor, MessageData::TextureSliceEditor(TextureSliceEditorMessage::Slice(s))));
        assert(out@ =~= slice_changed_messages(*self));
        out
    }

    /// Reacts to a message routed through the window. A slice reported by the slice view is
    /// taken and spread to the fields and the field editor; a different slice addressed to the
    /// window is taken, handed to the slice view and spread likewise; a value reported by one
    /// of the margin fields, or by the region field, asks the window to take the slice with
    /// that margin, or that region, changed. Returns the messages to send, in order.
    pub fn handle_routed_message(&mut self, message: &UiMessage) -> (out: Vec<UiMessage>)
        ensures
            out@ == window_reply(*old(self), *message).0,
            *final(self) == (TextureSliceEditorWindow { texture_slice: window_reply(*old(self), *message).1, ..*old(self) }),
    {
        let mut out: Vec<UiMessage> = Vec::new();
        match message.data {
            MessageData::TextureSliceEditor(TextureSliceEditorMessage::Slice(slice)) => {
                if message.direction == MessageDirection::FromWidget && message.destination == self.slice_editor {
                    self.texture_slice = slice;
                    let mut more = self.on_slice_changed();
                    out.append(&mut more);
                }
                if message.destination == self.handle && message.direction == MessageDirection::ToWidget && self.texture_slice != slice {
                    self.texture_slice = slice;
                    out.push(UiMessage::for_widget(self.slice_editor, MessageData::TextureSliceEditor(TextureSliceEditorMessage::Slice(slice))));
                    let mut more = self.on_slice_changed();
                    out.append(&mut more);
                }
            },
            MessageData::NumericUpDown(NumericUpDownMessage::Value(v)) => {
                if message.direction == MessageDirection::FromWidget {
                    let s = self.texture_slice;
                    let target = if message.destination == self.left_margin {
                        Some(TextureSlice { left_margin: v, ..s })
                    } else if message.destination == self.right_margin {
                        Some(TextureSlice { right_margin: v, ..s })
                    } else if message.destination == self.top_margin {
                        Some(TextureSlice { top_margin: v, ..s })
                    } else if message.destination == self.bottom_margin {
                        Some(TextureSlice { bottom_margin: v, ..s })
                    } else {
                        None
                    };
                    match target {
                        Some(changed) => out.push(UiMessage::for_widget(
                            self.handle,
                            MessageData::TextureSliceEditor(TextureSliceEditorMessage::Slice(changed)),
                        )),
                        None => {},
                    }
                }
            },
            MessageData::RectEditor(RectEditorMessage::Value(r)) => {
                if message.direction == MessageDirection::FromWidget && message.destination == self.region {
                    let changed = TextureSlice { texture_region: r, ..self.texture_slice };
                    out.push(UiMessage::for_widget(
                        self.handle,
                        MessageData::TextureSliceEditor(TextureSliceEditorMessage::Slice(changed)),
                    ));
                }
            },
            _ => {},
        }
        assert(out@ =~= window_reply(*old(self), *message).0);
        out
    }
}

/// Builds texture slice editor windows.
#[derive(Copy, Clone, Debug, PartialEq, Eq, Structural)]
pub struct TextureSliceEditorWindowBuilder {
    pub texture_slice: TextureSlice,
}

impl TextureSliceEditorWindowBuilder {
    /// A builder of a window editing the default slice.
    pub fn new() -> (r: Self)
        ensures
            r.texture_slice == TextureSlice::spec_default(),
    {
        TextureSliceEditorWindowBuilder { texture_slice: TextureSlice::default() }
    }

    /// Sets the edited slice.
    pub fn with_texture_slice(self, slice: TextureSlice) -> (r: Self)
        ensures
            r.texture_slice == slice,
    {
        TextureSliceEditorWindowBuilder { texture_slice: slice }
    }

    /// The window `handle` opened by the field editor `parent_editor`, with its slice view
    /// and fields, editing the builder's slice; and the values the fields start with, as the
    /// messages that set them: the region field shows the slice's region and the four margin
    /// fields its left, right, top and bottom margins.
    pub fn build(
        self,
        handle: Handle,
        parent_editor: Handle,
        slice_editor: Handle,
        left_margin: Handle,
        right_margin: Handle,
        top_margin: Handle,
        bottom_margin: Handle,
        region: Handle,
    ) -> (r: (TextureSliceEditorWindow, Vec<UiMessage>))
        ensures
            r.1@ == slice_changed_messages(r.0).take(5),
            r.0 == (TextureSliceEditorWindow {
                handle,
                parent_editor,
                slice_editor,
                texture_slice: self.texture_slice,
                left_margin,
                right_margin,
                top_margin,
                bottom_margin,
                region,
            }),
    {
        let s = self.texture_slice;
        let mut initial: Vec<UiMessage> = Vec::new();
        initial.push(UiMessage::for_widget(region, MessageData::RectEditor(RectEditorMessage::Value(s.texture_region))));
        initial.push(UiMessage::for_widget(left_margin, MessageData::NumericUpDown(NumericUpDownMessage::Value(s.left_margin))));
        initial.push(UiMessage::for_widget(right_margin, MessageData::NumericUpDown(NumericUpDownMessage::Value(s.right_margin))));
        initial.push(UiMessage::for_widget(top_margin, MessageData::NumericUpDown(NumericUpDownMessage::Value(s.top_margin))));
        initial.push(UiMessage::for_widget(bottom_margin, MessageData::NumericUpDown(NumericUpDownMessage::Value(s.bottom_margin))));
        let w = TextureSliceEditorWindow {
            handle,
            parent_editor,
            slice_editor,
            texture_slice: s,
            left_margin,
            right_margin,
            top_margin,
            bottom_margin,
            region,
        };
        assert(initial@ =~= slice_changed_messages(w).take(5));
        (w, initial)
    }
}

/// The field that shows a texture slice and opens the slice editor window.
#[derive(Copy, Clone, Debug, PartialEq, Eq, Structural)]
pub struct TextureSliceFieldEditor {
    pub handle: Handle,
    pub texture_slice: TextureSlice,
    /// The edit button.
    pub edit: Handle,
    /// The slice editor window, once opened.
    pub editor: Handle,
}

/// The message that opens the window `window` as a modal window in the center.
pub open spec fn open_modal_message(window: Handle) -> UiMessage {
    to_widget(window, MessageData::Window(WindowMessage::Open { alignment: WindowAlignment::Center, modal: true, focus_content: true }))
}

impl TextureSliceFieldEditor {
    /// Reacts to a message routed through the field. Returns whether to build the slice editor
    /// window for the field's slice (a click of the edit button; the caller then calls
    /// `editor_opened`), and the messages to send: a different slice addressed to the field is
    /// taken, reported back as coming from the field, and handed to the window.
    pub fn handle_routed_message(&mut self, message: &UiMessage) -> (r: (bool, Vec<UiMessage>))
        ensures
            r.0 == (message.data == MessageData::Button(ButtonMessage::Click) && message.destination == old(self).edit),
            match message.data {
                MessageData::TextureSliceEditor(TextureSliceEditorMessage::Slice(slice)) =>
                    if message.destination == old(self).handle && message.direction == MessageDirection::ToWidget && old(self).texture_slice != slice {
                        &&& *final(self) == (TextureSliceFieldEditor { texture_slice: slice, ..*old(self) })
                        &&& r.1@ == seq![
                            UiMessage { destination: old(self).handle, direction: MessageDirection::FromWidget, handled: message.handled, data: message.data },
                            to_widget(old(self).editor, MessageData::TextureSliceEditor(TextureSliceEditorMessage::Slice(slice))),
                        ]
                    } else {
                        *final(self) == *old(self) && r.1@.len() == 0
                    },
                _ => *final(self) == *old(self) && r.1@.len() == 0,
            },
    {
        let mut out: Vec<UiMessage> = Vec::new();
        let mut open = false;
        match message.data {
            MessageData::Button(ButtonMessage::Click) => {
                open = message.destination == self.edit;
            },
            MessageData::TextureSliceEditor(TextureSliceEditorMessage::Slice(slice)) => {
                if message.destination == self.handle && message.direction == MessageDirection::ToWidget && self.texture_slice != slice {
                    self.texture_slice = slice;
                    out.push(UiMessage {
                        destination: message.destination,
                        direction: message.direction.reverse(),
                        handled: message.handled,
                        data: MessageData::TextureSliceEditor(TextureSliceEditorMessage::Slice(slice)),
                    });
                    out.push(UiMessage::for_widget(self.editor, MessageData::TextureSliceEditor(TextureSliceEditorMessage::Slice(slice))));
                }
            },
            _ => {},
        }
        (open, out)
    }

    /// Remembers the slice editor window that was built, and returns the message that opens
    /// it as a modal window.
    pub fn editor_opened(&mut self, editor: Handle) -> (r: UiMessage)
        ensures
            *final(self) == (TextureSliceFieldEditor { editor, ..*old(self) }),
            r == open_modal_message(editor),
    {
        self.editor = editor;
        UiMessage::for_widget(editor, MessageData::Window(WindowMessage::Open { alignment: WindowAlignment::Center, modal: true, focus_content: true }))
    }
}

/// Builds texture slice fields.
#[derive(Copy, Clone, Debug, PartialEq, Eq, Structural)]
pub struct TextureSliceFieldEditorBuilder {
    pub texture_slice: TextureSlice,
}

impl TextureSliceFieldEditorBuilder {
    /// A builder of a field showing the default slice.
    pub fn new() -> (r: Self)
        ensures
            r.texture_slice == TextureSlice::spec_default(),
    {
        TextureSliceFieldEditorBuilder { texture_slice: TextureSlice::default() }
    }

    /// Sets the shown slice.
    pub fn with_texture_slice(self, slice: TextureSlice) -> (r: Self)
        ensures
            r.texture_slice == slice,
    {
        TextureSliceFieldEditorBuilder { texture_slice: slice }
    }

    /// The field `handle` with the edit button `edit`; no window is open yet. Also returns
    /// the field's children, the edit button alone, and the button's label, "Edit...".
    pub fn build(self, handle: Handle, edit: Handle) -> (r: (TextureSliceFieldEditor, Vec<Handle>, String))
        ensures
            r.0 == (TextureSliceFieldEditor { handle, texture_slice: self.texture_slice, edit, editor: Handle::spec_none() }),
            r.1@ == seq![edit],
            r.2@ == "Edit..."@,
    {
        let mut children: Vec<Handle> = Vec::new();
        children.push(edit);
        (TextureSliceFieldEditor { handle, texture_slice: self.texture_slice, edit, editor: Handle::none() }, children, String::from_str("Edit..."))
    }
}

/// Editor of texture slices.
#[derive(Copy, Clone, Debug, PartialEq, Eq, Structural)]
pub struct TextureSlicePropertyEditorDefinition {
    pub value_type_id: u64,
}

impl TextureSlicePropertyEditorDefinition {
    /// The message that shows the slice `value` in the field `instance`.
    pub fn create_message(&self, instance: Handle, value: TextureSlice) -> (r: UiMessage)
        ensures
            r == to_widget(instance, MessageData::TextureSliceEditor(TextureSliceEditorMessage::Slice(value))),
    {
        UiMessage::for_widget(instance, MessageData::TextureSliceEditor(TextureSliceEditorMessage::Slice(value)))
    }

    /// The slice reported by a field, as coming from it; other messages give nothing.
    pub fn translate_message(&self, message: &UiMessage) -> (r: Option<TextureSlice>)
        ensures
            r == (match message.data {
                MessageData::TextureSliceEditor(TextureSliceEditorMessage::Slice(value)) =>
                    if message.direction == MessageDirection::FromWidget { Some(value) } else { None },
                _ => None,
            }),
    {
        match message.data {
            MessageData::TextureSliceEditor(TextureSliceEditorMessage::Slice(value)) => {
                if message.direction == MessageDirection::FromWidget { Some(value) } else { None }
            },
            _ => None,
        }
    }
}

/// One of the four margins of a slice.
#[derive(Copy, Clone, Debug, PartialEq, Eq, Structural)]
pub enum Margin {
    Left,
    Right,
    Top,
    Bottom,
}

/// The field of the window that edits the margin `m`.
pub open spec fn margin_field(w: TextureSliceEditorWindow, m: Margin) -> Handle {
    match m {
        Margin::Left => w.left_margin,
        Margin::Right => w.right_margin,
        Margin::Top => w.top_margin,
        Margin::Bottom => w.bottom_margin,
    }
}

/// The slice `s` with the margin `m` set to `v`.
pub open spec fn set_margin(s: TextureSlice, m: Margin, v: u32) -> TextureSlice {
    match m {
        Margin::Left => TextureSlice { left_margin: v, ..s },
        Margin::Right => TextureSlice { right_margin: v, ..s },
        Margin::Top => TextureSlice { top_margin: v, ..s },
        Margin::Bottom => TextureSlice { bottom_margin: v, ..s },
    }
}

/// The window's fields, its slice view and the window itself are distinct widgets.
pub open spec fn distinct_widgets(w: TextureSliceEditorWindow) -> bool {
    let ws = seq![w.handle, w.slice_editor, w.left_margin, w.right_margin, w.top_margin, w.bottom_margin, w.region];
    forall|i: int, j: int| 0 <= i < j < 7 ==> ws[i] != ws[j]
}

/// A value typed into a margin field comes back: the window asks itself to take the slice
/// with that margin changed; when it receives that request (the value being new) it takes the
/// slice, and among the messages it then sends is the one that shows the value in that field.
pub proof fn lemma_margin_round_trip(w: TextureSliceEditorWindow, m: Margin, v: u32)
    requires
        distinct_widgets(w),
        set_margin(w.texture_slice, m, v) != w.texture_slice,
    ensures
        ({
            let shown = to_widget(margin_field(w, m), MessageData::NumericUpDown(NumericUpDownMessage::Value(v)));
            let typed = UiMessage { direction: MessageDirection::FromWidget, ..shown };
            let request = window_reply(w, typed).0;
            let changed = set_margin(w.texture_slice, m, v);
            &&& request == seq![to_widget(w.handle, MessageData::TextureSliceEditor(TextureSliceEditorMessage::Slice(changed)))]
            &&& window_reply(w, request[0]).1 == changed
            &&& window_reply(w, request[0]).0.contains(shown)
        }),
{
    let ws = seq![w.handle, w.slice_editor, w.left_margin, w.right_margin, w.top_margin, w.bottom_margin, w.region];
    assert(ws[0] != ws[1] && ws[2] != ws[3] && ws[2] != ws[4] && ws[2] != ws[5] && ws[3] != ws[4] && ws[3] != ws[5] && ws[4] != ws[5]);
    let shown = to_widget(margin_field(w, m), MessageData::NumericUpDown(NumericUpDownMessage::Value(v)));
    let changed = set_margin(w.texture_slice, m, v);
    let request = to_widget(w.handle, MessageData::TextureSliceEditor(TextureSliceEditorMessage::Slice(changed)));
    let w2 = TextureSliceEditorWindow { texture_slice: changed, ..w };
    let out = window_reply(w, request).0;
    assert(out == seq![to_widget(w.slice_editor, MessageData::TextureSliceEditor(TextureSliceEditorMessage::Slice(changed)))] + slice_changed_messages(w2));
    let k: int = match m {
        Margin::Left => 2,
        Margin::Right => 3,
        Margin::Top => 4,
        Margin::Bottom => 5,
    };
    assert(out[k] == shown);
}

} // verus!
