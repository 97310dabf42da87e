//! The editor of fixed-size arrays: one nested editor per item, and the translation of a
//! change reported by an item's editor into a change of that item of the array.

use vstd::prelude::*;
use vstd::string::StringExecFns;
use crate::message::{Handle, MessageDirection, UiMessage};
use crate::editors::{PropertyEditorInstance, PropertyEditorDefinitionContainer, item_definition};
use crate::inspector::{PropertyChanged, FieldKind, CollectionChanged, InspectorError, ObjectValue, item_name, make_item_name};

verus! {

/// The editor of one item of an array.
#[derive(Copy, Clone, Debug, PartialEq, Eq, Structural)]
pub struct Item {
    pub editor_instance: PropertyEditorInstance,
}

impl Default for Item {
    fn default() -> (r: Self)
        ensures
            r == (Item { editor_instance: PropertyEditorInstance::Simple { editor: Handle { index: 0, generation: 0 } } }),
    {
        Item { editor_instance: PropertyEditorInstance::default() }
    }
}

/// Messages of array editors.
#[derive(Debug)]
pub enum ArrayEditorMessage {
    /// The editor of item `index` reported `message`.
    ItemChanged { index: usize, message: UiMessage },
}

impl ArrayEditorMessage {
    /// The editor of item `index` reported `message`.
    pub fn item_changed(index: usize, message: UiMessage) -> (r: Self)
        ensures
            r == (ArrayEditorMessage::ItemChanged { index, message }),
    {
        ArrayEditorMessage::ItemChanged { index, message }
    }
}

/// The index of the first item whose editor is `editor`, or -1.
pub open spec fn item_of_editor(items: Seq<Item>, editor: Handle) -> int
    decreases items.len(),
{
    if items.len() == 0 {
        -1
    } else if items[0].editor_instance.spec_editor() == editor {
        0
    } else {
        let r = item_of_editor(items.drop_first(), editor);
        if r < 0 { -1 } else { r + 1 }
    }
}

/// `item_of_editor` is -1 or the first index whose editor matches.
pub proof fn lemma_item_of_editor(items: Seq<Item>, editor: Handle)
    ensures
        -1 <= item_of_editor(items, editor) < items.len(),
        item_of_editor(items, editor) >= 0 ==> items[item_of_editor(items, editor)].editor_instance.spec_editor() == editor,
        forall|j: int| 0 <= j < items.len() && (j < item_of_editor(items, editor) || item_of_editor(items, editor) < 0)
            ==> (#[trigger] items[j]).editor_instance.spec_editor() != editor,
    decreases items.len(),
{
    if items.len() > 0 {
        lemma_item_of_editor(items.drop_first(), editor);
        assert forall|j: int| 0 < j < items.len() implies #[trigger] items[j] == items.drop_first()[j - 1] by {}
    }
}

/// The first item whose editor is `editor`, if any.
pub fn find_item_of_editor(items: &[Item], editor: Handle) -> (r: Option<usize>)
    ensures
        match r {
            Some(i) => i == item_of_editor(items@, editor),
            None => item_of_editor(items@, editor) < 0,
        },
{
    proof {
        lemma_item_of_editor(items@, editor);
    }
    let mut i: usize = 0;
    while i < items.len()
        invariant
            i <= items@.len(),
            forall|j: int| 0 <= j < i ==> (#[trigger] items@[j]).editor_instance.spec_editor() != editor,
            -1 <= item_of_editor(items@, editor) < items@.len(),
            item_of_editor(items@, editor) >= 0 ==> items@[item_of_editor(items@, editor)].editor_instance.spec_editor() == editor,
            forall|j: int| 0 <= j < items@.len() && (j < item_of_editor(items@, editor) || item_of_editor(items@, editor) < 0)
                ==> (#[trigger] items@[j]).editor_instance.spec_editor() != editor,
        decreases items@.len() - i,
    {
        if items[i].editor_instance.editor() == editor {
            return Some(i);
        }
        i = i + 1;
    }
    None
}

/// An editor of an array.
#[derive(Clone, Debug)]
pub struct ArrayEditor {
    pub handle: Handle,
    pub items: Vec<Item>,
}

impl ArrayEditor {
    /// Reacts to a message routed through the editor: a message addressed to or coming from
    /// the editor of an item is reported, as coming from this editor, as a change of the first
    /// item with that editor. Other messages give nothing.
    pub fn handle_routed_message(&self, message: UiMessage) -> (r: Option<ArrayEditorMessage>)
        ensures
            item_of_editor(self.items@, message.destination) < 0 ==> r is None,
            item_of_editor(self.items@, message.destination) >= 0 ==> r == Some(ArrayEditorMessage::ItemChanged {
                index: item_of_editor(self.items@, message.destination) as usize,
                message,
            }),
    {
        match find_item_of_editor(self.items.as_slice(), message.destination) {
            Some(index) => Some(ArrayEditorMessage::item_changed(index, message)),
            None => None,
        }
    }
}

/// The outermost widget of each item: the container when the item has one, else its editor.
pub fn create_item_views(items: &[Item]) -> (r: Vec<Handle>)
    ensures
        r@.len() == items@.len(),
        forall|i: int| 0 <= i < items@.len() ==> r@[i] == (#[trigger] items@[i]).editor_instance.spec_root(),
{
    let mut out: Vec<Handle> = Vec::new();
    let mut i: usize = 0;
    while i < items.len()
        invariant
            i <= items@.len(),
            out@.len() == i,
            forall|j: int| 0 <= j < i ==> out@[j] == (#[trigger] items@[j]).editor_instance.spec_root(),
        decreases items@.len() - i,
    {
        out.push(items[i].editor_instance.root());
        i = i + 1;
    }
    out
}

/// What to do for one item of an array to show its current value: ask the item type's
/// definition for the message that shows `value` in the item editor `instance`, the item being
/// named `name` (shown as `display_name`) at the path `base_path`; the message is then sent
/// with the sync flag of the inspector.
#[derive(Debug)]
pub struct ItemSync {
    pub instance: Handle,
    pub value: ObjectValue,
    pub name: String,
    pub display_name: String,
    pub base_path: String,
}

/// What to build for one item of an array: an editor, made by the item type's definition,
/// of `value`, the item being named `name` (shown as `display_name`) at the path `base_path`.
#[derive(Debug)]
pub struct ItemBuild {
    pub value: ObjectValue,
    pub name: String,
    pub display_name: String,
    pub base_path: String,
}

/// The editors to build for the items `values` of the array property `name` (shown as
/// `display_name`, at the path `base_path`), whose items have the type `item_type_id` (named
/// `item_type_name`): for each index `i`, one for `values[i]` named `name[i]`, shown as
/// `display_name[i]`, at the path `base_path[i]`. When the item type has no definition in
/// `container` and there is an item, an error names the type.
pub fn create_items(
    container: &PropertyEditorDefinitionContainer,
    item_type_id: u64,
    item_type_name: &str,
    name: &str,
    display_name: &str,
    base_path: &str,
    values: &[ObjectValue],
) -> (r: Result<Vec<ItemBuild>, InspectorError>)
    ensures
        !container@.contains_key(item_type_id) && values@.len() > 0 ==> (r matches Err(InspectorError::Custom(m))
            && m@ == "Missing property editor of type "@ + item_type_name@),
        container@.contains_key(item_type_id) || values@.len() == 0 ==> (r matches Ok(v) && v@.len() == values@.len()
            && forall|i: int| 0 <= i < v@.len() ==> {
                &&& (#[trigger] v@[i]).value == values@[i]
                &&& v@[i].name@ == item_name(name@, i as nat)
                &&& v@[i].display_name@ == item_name(display_name@, i as nat)
                &&& v@[i].base_path@ == item_name(base_path@, i as nat)
            }),
{
    match item_definition(container, item_type_id, item_type_name, values.len()) {
        Err(e) => Err(e),
        Ok(_) => {
            let mut out: Vec<ItemBuild> = Vec::new();
            let mut i: usize = 0;
            while i < values.len()
                invariant
                    i <= values@.len(),
                    out@.len() == i,
                    forall|j: int| 0 <= j < i ==> {
                        &&& (#[trigger] out@[j]).value == values@[j]
                        &&& out@[j].name@ == item_name(name@, j as nat)
                        &&& out@[j].display_name@ == item_name(display_name@, j as nat)
                        &&& out@[j].base_path@ == item_name(base_path@, j as nat)
                    },
                decreases values@.len() - i,
            {
                out.push(ItemBuild {
                    value: values[i],
                    name: make_item_name(name, i),
                    display_name: make_item_name(display_name, i),
                    base_path: make_item_name(base_path, i),
                });
                i = i + 1;
            }
            Ok(out)
        },
    }
}

/// Editor of arrays, which edits each item with the definition registered for the item
/// type.
#[derive(Copy, Clone, Debug, PartialEq, Eq, Structural)]
pub struct ArrayPropertyEditorDefinition {
    /// The array type.
    pub value_type_id: u64,
    /// The item type.
    pub item_type_id: u64,
}

impl ArrayPropertyEditorDefinition {
    /// The definition for the array type `value_type_id` of items of the type `item_type_id`.
    pub fn new(value_type_id: u64, item_type_id: u64) -> (r: Self)
        ensures
            r.value_type_id == value_type_id,
            r.item_type_id == item_type_id,
    {
        ArrayPropertyEditorDefinition { value_type_id, item_type_id }
    }

    /// How the editor `editor` of the array property `name` (shown as `display_name`, at
    /// the path `base_path`) is brought up to date with the items `values`: nothing when the
    /// item type has no definition in `container`; otherwise, for each index `i` that has both
    /// an item editor and a value, the editor of item `i` is told `values[i]`, the item being
    /// named `name[i]`, shown as `display_name[i]`, at the path `base_path[i]`.
    pub fn create_message(
        &self,
        container: &PropertyEditorDefinitionContainer,
        editor: &ArrayEditor,
        name: &str,
        display_name: &str,
        base_path: &str,
        values: &[ObjectValue],
    ) -> (r: Vec<ItemSync>)
        ensures
            !container@.contains_key(self.item_type_id) ==> r@.len() == 0,
            container@.contains_key(self.item_type_id) ==> r@.len() == (if editor.items@.len() < values@.len() { editor.items@.len() } else { values@.len() }),
            forall|i: int| 0 <= i < r@.len() ==> {
                &&& (#[trigger] r@[i]).instance == editor.items@[i].editor_instance.spec_editor()
                &&& r@[i].value == values@[i]
                &&& r@[i].name@ == item_name(name@, i as nat)
                &&& r@[i].display_name@ == item_name(display_name@, i as nat)
                &&& r@[i].base_path@ == item_name(base_path@, i as nat)
            },
    {
        let mut out: Vec<ItemSync> = Vec::new();
        if container.get(self.item_type_id).is_none() {
            return out;
        }
        let n = if editor.items.len() < values.len() { editor.items.len() } else { values.len() };
        let mut i: usize = 0;
        while i < n
            invariant
                i <= n,
                n <= editor.items@.len(),
                n <= values@.len(),
                out@.len() == i,
                forall|j: int| 0 <= j < i ==> {
                    &&& (#[trigger] out@[j]).instance == editor.items@[j].editor_instance.spec_editor()
                    &&& out@[j].value == values@[j]
                    &&& out@[j].name@ == item_name(name@, j as nat)
                    &&& out@[j].display_name@ == item_name(display_name@, j as nat)
                    &&& out@[j].base_path@ == item_name(base_path@, j as nat)
                },
            decreases n - i,
        {
            out.push(ItemSync {
                instance: editor.items[i].editor_instance.editor(),
                value: values[i],
                name: make_item_name(name, i),
                display_name: make_item_name(display_name, i),
                base_path: make_item_name(base_path, i),
            });
            i = i + 1;
        }
        out
    }

    /// Translates a message of an array editor into a change of the edited array named
    /// `name`. A change of item `index`, reported from the editor, becomes a change of that item
    /// when the item type has a definition and that definition translated the item's message
    /// into `item_change`; otherwise there is no change.
    pub fn translate_message(
        &self,
        container: &PropertyEditorDefinitionContainer,
        name: &str,
        direction: MessageDirection,
        message: ArrayEditorMessage,
        item_change: Option<PropertyChanged>,
    ) -> (r: Option<PropertyChanged>)
        ensures
            (direction == MessageDirection::FromWidget && container@.contains_key(self.item_type_id) && item_change is Some)
                <==> r is Some,
            r is Some ==> ({
                let p = r->0;
                let ArrayEditorMessage::ItemChanged { index, .. } = message;
                &&& p.name@ == name@
                &&& p.value == FieldKind::Collection(Box::new(CollectionChanged::ItemChanged { index, property: item_change->0.value }))
            }),
    {
        if direction == MessageDirection::FromWidget {
            let ArrayEditorMessage::ItemChanged { index, .. } = message;
            if container.get(self.item_type_id).is_some() {
                match item_change {
                    Some(change) => {
                        return Some(PropertyChanged {
                            name: name.to_string(),
                            value: FieldKind::Collection(Box::new(CollectionChanged::ItemChanged { index, property: change.value })),
                        });
                    },
                    None => {},
                }
            }
        }
        None
    }
}

/// Builds array editors.
#[derive(Copy, Clone, Debug, PartialEq, Eq, Structural)]
pub struct ArrayEditorBuilder {
    pub layer_index: usize,
}

impl ArrayEditorBuilder {
    /// A builder at the top level.
    pub fn new() -> (r: Self)
        ensures
            r.layer_index == 0,
    {
        ArrayEditorBuilder { layer_index: 0 }
    }

    /// Sets the nesting level.
    pub fn with_layer_index(self, layer_index: usize) -> (r: Self)
        ensures
            r.layer_index == layer_index,
    {
        ArrayEditorBuilder { layer_index }
    }

    /// The editor `handle` editing `items`.
    pub fn build(self, handle: Handle, items: Vec<Item>) -> (r: ArrayEditor)
        ensures
            r.handle == handle,
            r.items@ == items@,
    {
        ArrayEditor { handle, items }
    }
}

} // verus!
