//! The editor of growable collections: one nested editor and one remove button per item, an
//! add button, and the translation of what the editor reports into a change of the edited
//! collection.

use vstd::prelude::*;
use vstd::string::StringExecFns;
use crate::message::{Handle, MessageDirection, UiMessage, MessageData, ButtonMessage, WidgetMessage};
use crate::editors::{PropertyEditorInstance, PropertyEditorDefinitionContainer};
use crate::inspector::{PropertyChanged, FieldKind, CollectionChanged, ObjectValue, item_name, make_item_name};

verus! {

/// Types whose values can be items of an edited collection: they can be inspected, cloned,
/// and made by default.
pub trait CollectionItem {}

/// The editor of one item of a collection and the button that removes the item.
#[derive(Copy, Clone, Debug, PartialEq, Eq, Structural)]
pub struct Item {
    pub editor_instance: PropertyEditorInstance,
    pub remove: Handle,
}

/// Messages of collection editors.
#[derive(Debug)]
pub enum CollectionEditorMessage {
    /// Replaces the items of the editor.
    Items(Vec<Item>),
    /// The editor of item `index` reported `message`.
    ItemChanged { index: usize, message: UiMessage },
}

/// What a collection editor reports: a change of the collection itself, or a message of the
/// editor.
#[derive(Debug)]
pub enum CollectionEditorEvent {
    Changed(CollectionChanged),
    Editor(CollectionEditorMessage),
}

/// The index of the first item whose remove button is `button`, or -1.
pub open spec fn item_of_remove_button(items: Seq<Item>, button: Handle) -> int
    decreases items.len(),
{
    if items.len() == 0 {
        -1
    } else if items[0].remove == button {
        0
    } else {
        let r = item_of_remove_button(items.drop_first(), button);
        if r < 0 { -1 } else { r + 1 }
    }
}

/// The index of the first item whose editor is `editor`, or -1.
pub open spec fn item_of_editor(items: Seq<Item>, editor: Handle) -> int
    decreases items.len(),
{
    if items.len() == 0 {
        -1
    } else if items[0].editor_instance.spec_editor() == editor {
        0
    } else {
        let r = item_of_editor(items.drop_first(), editor);
        if r < 0 { -1 } else { r + 1 }
    }
}

proof fn lemma_item_of_remove_button(items: Seq<Item>, button: Handle)
    ensures
        -1 <= item_of_remove_button(items, button) < items.len(),
        item_of_remove_button(items, button) >= 0 ==> items[item_of_remove_button(items, button)].remove == button,
        forall|j: int| 0 <= j < items.len() && (j < item_of_remove_button(items, button) || item_of_remove_button(items, button) < 0)
            ==> (#[trigger] items[j]).remove != button,
    decreases items.len(),
{
    if items.len() > 0 {
        lemma_item_of_remove_button(items.drop_first(), button);
        assert forall|j: int| 0 < j < items.len() implies #[trigger] items[j] == items.drop_first()[j - 1] by {}
    }
}

proof fn lemma_item_of_editor(items: Seq<Item>, editor: Handle)
    ensures
        -1 <= item_of_editor(items, editor) < items.len(),
        item_of_editor(items, editor) >= 0 ==> items[item_of_editor(items, editor)].editor_instance.spec_editor() == editor,
        forall|j: int| 0 <= j < items.len() && (j < item_of_editor(items, editor) || item_of_editor(items, editor) < 0)
            ==> (#[trigger] items[j]).editor_instance.spec_editor() != editor,
    decreases items.len(),
{
    if items.len() > 0 {
        lemma_item_of_editor(items.drop_first(), editor);
        assert forall|j: int| 0 < j < items.len() implies #[trigger] items[j] == items.drop_first()[j - 1] by {}
    }
}

fn find_remove_button(items: &[Item], button: Handle) -> (r: Option<usize>)
    ensures
        match r {
            Some(i) => i == item_of_remove_button(items@, button),
            None => item_of_remove_button(items@, button) < 0,
        },
{
    proof {
        lemma_item_of_remove_button(items@, button);
    }
    let mut i: usize = 0;
    while i < items.len()
        invariant
            i <= items@.len(),
            forall|j: int| 0 <= j < i ==> (#[trigger] items@[j]).remove != button,
            -1 <= item_of_remove_button(items@, button) < items@.len(),
            item_of_remove_button(items@, button) >= 0 ==> items@[item_of_remove_button(items@, button)].remove == button,
            forall|j: int| 0 <= j < items@.len() && (j < item_of_remove_button(items@, button) || item_of_remove_button(items@, button) < 0)
                ==> (#[trigger] items@[j]).remove != button,
        decreases items@.len() - i,
    {
        if items[i].remove == button {
            return Some(i);
        }
        i = i + 1;
    }
    None
}

fn find_editor(items: &[Item], editor: Handle) -> (r: Option<usize>)
    ensures
        match r {
            Some(i) => i == item_of_editor(items@, editor),
            None => item_of_editor(items@, editor) < 0,
        },
{
    proof {
        lemma_item_of_editor(items@, editor);
    }
    let mut i: usize = 0;
    while i < items.len()
        invariant
            i <= items@.len(),
            forall|j: int| 0 <= j < i ==> (#[trigger] items@[j]).editor_instance.spec_editor() != editor,
            -1 <= item_of_editor(items@, editor) < items@.len(),
            item_of_editor(items@, editor) >= 0 ==> items@[item_of_editor(items@, editor)].editor_instance.spec_editor() == editor,
            forall|j: int| 0 <= j < items@.len() && (j < item_of_editor(items@, editor) || item_of_editor(items@, editor) < 0)
                ==> (#[trigger] items@[j]).editor_instance.spec_editor() != editor,
        decreases items@.len() - i,
    {
        if items[i].editor_instance.editor() == editor {
            return Some(i);
        }
        i = i + 1;
    }
    None
}

/// An editor of a growable collection.
#[derive(Clone, Debug)]
pub struct CollectionEditor {
    pub handle: Handle,
    /// The button that adds an item.
    pub add: Handle,
    pub items: Vec<Item>,
    /// The panel that holds the views of the items.
    pub panel: Handle,
    pub layer_index: usize,
}

/// The message that asks `child` to leave its parent.
pub open spec fn remove_message(child: Handle) -> UiMessage {
    UiMessage { destination: child, direction: MessageDirection::ToWidget, handled: false, data: MessageData::Widget(WidgetMessage::Remove) }
}

/// The message that asks `child` to become a child of `parent`.
pub open spec fn link_message(child: Handle, parent: Handle) -> UiMessage {
    UiMessage { destination: child, direction: MessageDirection::ToWidget, handled: false, data: MessageData::Widget(WidgetMessage::LinkWith(parent)) }
}

impl CollectionEditor {
    /// Reacts to a message routed through the editor. A click of the remove button of an
    /// item reports the removal of the first item with that button; a click of any other
    /// button reports nothing. Any other message addressed to or coming from the editor of an
    /// item is reported as a change of the first item with that editor.
    pub fn handle_routed_message(&self, message: UiMessage) -> (r: Option<CollectionEditorEvent>)
        ensures
            message.data == MessageData::Button(ButtonMessage::Click) ==> (if item_of_remove_button(self.items@, message.destination) >= 0 {
                r == Some(CollectionEditorEvent::Changed(CollectionChanged::Remove(item_of_remove_button(self.items@, message.destination) as usize)))
            } else {
                r is None
            }),
            message.data != MessageData::Button(ButtonMessage::Click) ==> (if item_of_editor(self.items@, message.destination) >= 0 {
                r == Some(CollectionEditorEvent::Editor(CollectionEditorMessage::ItemChanged {
                    index: item_of_editor(self.items@, message.destination) as usize,
                    message,
                }))
            } else {
                r is None
            }),
    {
        let is_click = match &message.data {
            MessageData::Button(ButtonMessage::Click) => true,
            _ => false,
        };
        if is_click {
            match find_remove_button(self.items.as_slice(), message.destination) {
                Some(index) => Some(CollectionEditorEvent::Changed(CollectionChanged::Remove(index))),
                None => None,
            }
        } else {
            match find_editor(self.items.as_slice(), message.destination) {
                Some(index) => Some(CollectionEditorEvent::Editor(CollectionEditorMessage::ItemChanged { index, message })),
                None => None,
            }
        }
    }

    /// Reacts to a message before it is routed: a click of the add button reports that an
    /// item, the default value `default_item` of the item type, is to be added.
    pub fn preview_message(&self, message: &UiMessage, default_item: ObjectValue) -> (r: Option<CollectionChanged>)
        ensures
            r == (if message.data == MessageData::Button(ButtonMessage::Click) && message.destination == self.add {
                Some(CollectionChanged::Add(default_item))
            } else {
                None
            }),
    {
        let is_click = match &message.data {
            MessageData::Button(ButtonMessage::Click) => true,
            _ => false,
        };
        if is_click && message.destination == self.add {
            Some(CollectionChanged::Add(default_item))
        } else {
            None
        }
    }

    /// Whether bringing the editor in line with a collection of `len` items means building new
    /// item editors: exactly when the number of items differs; otherwise each item editor is
    /// brought in line with the item at its index.
    pub fn needs_new_items(&self, len: usize) -> (r: bool)
        ensures
            r == (len != self.items@.len()),
    {
        len != self.items.len()
    }

    /// Replaces the items: the current children of the panel (`panel_children`) are
    /// removed, the views built for the new items (`views`) are linked to the panel, and the
    /// new items are kept. Returns those messages, removals first.
    pub fn set_items(&mut self, items: Vec<Item>, views: &[Handle], panel_children: &[Handle]) -> (out: Vec<UiMessage>)
        ensures
            final(self).items@ == items@,
            final(self).handle == old(self).handle,
            final(self).add == old(self).add,
            final(self).panel == old(self).panel,
            final(self).layer_index == old(self).layer_index,
            out@.len() == panel_children@.len() + views@.len(),
            forall|i: int| 0 <= i < panel_children@.len() ==> out@[i] == remove_message(#[trigger] panel_children@[i]),
            forall|i: int| 0 <= i < views@.len() ==> out@[panel_children@.len() + i] == link_message(#[trigger] views@[i], old(self).panel),
    {
        let mut out: Vec<UiMessage> = Vec::new();
        let mut i: usize = 0;
        while i < panel_children.len()
            invariant
                i <= panel_children@.len(),
                out@.len() == i,
                forall|j: int| 0 <= j < i ==> out@[j] == remove_message(#[trigger] panel_children@[j]),
            decreases panel_children@.len() - i,
        {
            out.push(UiMessage::for_widget(panel_children[i], MessageData::Widget(WidgetMessage::Remove)));
            i = i + 1;
        }
        let mut k: usize = 0;
        while k < views.len()
            invariant
                k <= views@.len(),
                out@.len() == panel_children@.len() + k,
                forall|j: int| 0 <= j < panel_children@.len() ==> out@[j] == remove_message(#[trigger] panel_children@[j]),
                forall|j: int| 0 <= j < k ==> out@[panel_children@.len() + j] == link_message(#[trigger] views@[j], self.panel),
            decreases views@.len() - k,
        {
            out.push(UiMessage::for_widget(views[k], MessageData::Widget(WidgetMessage::LinkWith(self.panel))));
            k = k + 1;
        }
        self.items = items;
        out
    }
}

/// Editor of vectors of items, which edits each item with the definition registered for the
/// item type.
#[derive(Copy, Clone, Debug, PartialEq, Eq, Structural)]
pub struct VecCollectionPropertyEditorDefinition {
    /// The vector type.
    pub value_type_id: u64,
    /// The item type.
    pub item_type_id: u64,
}

/// What to do for one item of a collection to show its current value: ask the item type's
/// definition for the message that shows `value` in the item editor `instance`, the item being
/// named `name` (shown as `display_name`) at the path `base_path`, one level deeper
/// (`layer_index`).
#[derive(Debug)]
pub struct CollectionItemSync {
    pub instance: Handle,
    pub value: ObjectValue,
    pub name: String,
    pub display_name: String,
    pub base_path: String,
    pub layer_index: usize,
}

/// How a collection editor is brought up to date with the edited collection.
#[derive(Debug)]
pub enum CollectionSync {
    /// The number of items changed: the item editors are built anew (`create_items`) and
    /// handed to the editor in an `Items` message.
    Rebuild,
    /// The same number of items: each item editor is told its item.
    Sync(Vec<CollectionItemSync>),
}

impl VecCollectionPropertyEditorDefinition {
    /// The definition for the vector type `value_type_id` of items of the type `item_type_id`.
    pub fn new(value_type_id: u64, item_type_id: u64) -> (r: Self)
        ensures
            r.value_type_id == value_type_id,
            r.item_type_id == item_type_id,
    {
        VecCollectionPropertyEditorDefinition { value_type_id, item_type_id }
    }

    /// How the editor `editor` of the collection property `name` (shown as `display_name`,
    /// at the path `base_path`, at the nesting level `layer_index`) is brought up to date with
    /// the items `values`: when the number of items differs from the editor's, the item
    /// editors are built anew; otherwise, when the item type has a definition in `container`,
    /// the editor of each item `i` is told `values[i]`, the item being named `name[i]`, shown
    /// as `display_name[i]`, at the path `base_path[i]`, one level deeper; when the item type
    /// has no definition, nothing is told.
    pub fn item_syncs(
        &self,
        container: &PropertyEditorDefinitionContainer,
        name: &str,
        display_name: &str,
        base_path: &str,
        editor: &CollectionEditor,
        values: &[ObjectValue],
        layer_index: usize,
    ) -> (r: CollectionSync)
        requires
            layer_index < usize::MAX,
        ensures
            values@.len() != editor.items@.len() <==> r is Rebuild,
            r matches CollectionSync::Sync(v) ==> {
                &&& !container@.contains_key(self.item_type_id) ==> v@.len() == 0
                &&& container@.contains_key(self.item_type_id) ==> v@.len() == values@.len()
                &&& forall|i: int| 0 <= i < v@.len() ==> {
                    &&& (#[trigger] v@[i]).instance == editor.items@[i].editor_instance.spec_editor()
                    &&& v@[i].value == values@[i]
                    &&& v@[i].name@ == item_name(name@, i as nat)
                    &&& v@[i].display_name@ == item_name(display_name@, i as nat)
                    &&& v@[i].base_path@ == item_name(base_path@, i as nat)
                    &&& v@[i].layer_index == layer_index + 1
                }
            },
    {
        if values.len() != editor.items.len() {
            return CollectionSync::Rebuild;
        }
        let mut out: Vec<CollectionItemSync> = Vec::new();
        if container.get(self.item_type_id).is_none() {
            return CollectionSync::Sync(out);
        }
        let mut i: usize = 0;
        while i < values.len()
            invariant
                i <= values@.len(),
                values@.len() == editor.items@.len(),
                layer_index < usize::MAX,
                out@.len() == i,
                forall|j: int| 0 <= j < i ==> {
                    &&& (#[trigger] out@[j]).instance == editor.items@[j].editor_instance.spec_editor()
                    &&& out@[j].value == values@[j]
                    &&& out@[j].name@ == item_name(name@, j as nat)
                    &&& out@[j].display_name@ == item_name(display_name@, j as nat)
                    &&& out@[j].base_path@ == item_name(base_path@, j as nat)
                    &&& out@[j].layer_index == layer_index + 1
                },
            decreases values@.len() - i,
        {
            out.push(CollectionItemSync {
                instance: editor.items[i].editor_instance.editor(),
                value: values[i],
                name: make_item_name(name, i),
                display_name: make_item_name(display_name, i),
                base_path: make_item_name(base_path, i),
                layer_index: layer_index + 1,
            });
            i = i + 1;
        }
        CollectionSync::Sync(out)
    }

    /// Translates what a collection editor reported into a change of the edited collection
    /// named `name`. Only what comes from the editor is translated: a change of the collection
    /// is passed on as it is; a change of item `index` becomes a change of that item when the
    /// item type has a definition and that definition translated the item's message into
    /// `item_change`. Anything else gives no change.
    pub fn translate_message(
        &self,
        container: &PropertyEditorDefinitionContainer,
        name: &str,
        direction: MessageDirection,
        event: CollectionEditorEvent,
        item_change: Option<PropertyChanged>,
    ) -> (r: Option<PropertyChanged>)
        ensures
            direction != MessageDirection::FromWidget ==> r is None,
            direction == MessageDirection::FromWidget ==> match event {
                CollectionEditorEvent::Changed(c) => r is Some && r->0.name@ == name@ && r->0.value == FieldKind::Collection(Box::new(c)),
                CollectionEditorEvent::Editor(CollectionEditorMessage::ItemChanged { index, .. }) =>
                    if container@.contains_key(self.item_type_id) && item_change is Some {
                        r is Some && r->0.name@ == name@
                            && r->0.value == FieldKind::Collection(Box::new(CollectionChanged::ItemChanged { index, property: item_change->0.value }))
                    } else {
                        r is None
                    },
                CollectionEditorEvent::Editor(CollectionEditorMessage::Items(_)) => r is None,
            },
    {
        if direction != MessageDirection::FromWidget {
            return None;
        }
        match event {
            CollectionEditorEvent::Changed(c) => Some(PropertyChanged { name: name.to_string(), value: FieldKind::Collection(Box::new(c)) }),
            CollectionEditorEvent::Editor(CollectionEditorMessage::ItemChanged { index, .. }) => {
                if container.get(self.item_type_id).is_some() {
                    match item_change {
                        Some(change) => Some(PropertyChanged {
                            name: name.to_string(),
                            value: FieldKind::Collection(Box::new(CollectionChanged::ItemChanged { index, property: change.value })),
                        }),
                        None => None,
                    }
                } else {
                    None
                }
            },
            CollectionEditorEvent::Editor(CollectionEditorMessage::Items(_)) => None,
        }
    }
}

/// Builds collection editors.
#[derive(Copy, Clone, Debug, PartialEq, Eq, Structural)]
pub struct CollectionEditorBuilder {
    /// The add button.
    pub add: Handle,
    pub layer_index: usize,
    /// Whether items can be neither added nor removed.
    pub immutable_collection: bool,
}

impl CollectionEditorBuilder {
    /// A builder with no add button, at the top level, of a collection that can change.
    pub fn new() -> (r: Self)
        ensures
            r == (CollectionEditorBuilder { add: Handle::spec_none(), layer_index: 0, immutable_collection: false }),
    {
        CollectionEditorBuilder { add: Handle::none(), layer_index: 0, immutable_collection: false }
    }

    /// Sets the add button.
    pub fn with_add(self, add: Handle) -> (r: Self)
        ensures
            r == (CollectionEditorBuilder { add, ..self }),
    {
        CollectionEditorBuilder { add, ..self }
    }

    /// Sets the nesting level.
    pub fn with_layer_index(self, layer_index: usize) -> (r: Self)
        ensures
            r == (CollectionEditorBuilder { layer_index, ..self }),
    {
        CollectionEditorBuilder { layer_index, ..self }
    }

    /// Sets whether items can be neither added nor removed.
    pub fn with_immutable_collection(self, immutable_collection: bool) -> (r: Self)
        ensures
            r == (CollectionEditorBuilder { immutable_collection, ..self }),
    {
        CollectionEditorBuilder { immutable_collection, ..self }
    }

    /// Whether the remove buttons of the items are shown: only when items can be removed.
    pub fn remove_buttons_visible(&self) -> (r: bool)
        ensures
            r == !self.immutable_collection,
    {
        !self.immutable_collection
    }

    /// The editor `handle` whose item views sit in `panel`, editing `items`.
    pub fn build(self, handle: Handle, panel: Handle, items: Vec<Item>) -> (r: CollectionEditor)
        ensures
            r.handle == handle,
            r.add == self.add,
            r.items@ == items@,
            r.panel == panel,
            r.layer_index == self.layer_index,
    {
        CollectionEditor { handle, add: self.add, items, panel, layer_index: self.layer_index }
    }
}

} // verus!
