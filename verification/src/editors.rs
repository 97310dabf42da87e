//! Property editor definitions and the container that keeps one definition per edited type.
//!
//! Types are named by integer ids: the id under which the caller knows each edited type.
//! A definition records the id of the type it edits (and, for editors of containers, the ids
//! of the types inside); the container maps each type id to the definition registered for it
//! and the id of the source (a plugin, say) that was current when it was registered.

use vstd::prelude::*;
use std::collections::HashMap;
use vstd::std_specs::iter::IteratorSpec;
use vstd::string::StringExecFns;
use crate::message::{Handle, MessageData, MessageDirection, TextMessage, UiMessage};
use crate::texture_slice::{NumericUpDownMessage, RectEditorMessage, URect};
use crate::key::{HotKey, HotKeyEditorMessage, KeyBinding, KeyBindingEditorMessage};
use crate::inspector::{PropertyChanged, FieldKind, InspectorError};
use crate::array::ArrayPropertyEditorDefinition;
use crate::collection::VecCollectionPropertyEditorDefinition;
use crate::inherit::InheritablePropertyEditorDefinition;
use crate::texture_slice::TextureSlicePropertyEditorDefinition;
use crate::style::StyledPropertyEditorDefinition;
use crate::hashmap::HashMapPropertyEditorDefinition;

verus! {

broadcast use vstd::std_specs::hash::group_hash_axioms;

/// A widget that acts as an editor in an inspector, with or without a container of its own
/// that shows the name of the edited property.
#[derive(Copy, Clone, Debug, PartialEq, Eq, Structural)]
pub enum PropertyEditorInstance {
    /// An editor that is given a default container: a label with the property name.
    Simple { editor: Handle },
    /// An editor that comes with its own container.
    Custom { container: Handle, editor: Handle },
}

impl Default for PropertyEditorInstance {
    fn default() -> (r: Self)
        ensures
            r == (PropertyEditorInstance::Simple { editor: Handle { index: 0, generation: 0 } }),
    {
        PropertyEditorInstance::Simple { editor: Handle::none() }
    }
}

impl PropertyEditorInstance {
    /// The editor widget of the instance.
    pub open spec fn spec_editor(self) -> Handle {
        match self {
            PropertyEditorInstance::Simple { editor } => editor,
            PropertyEditorInstance::Custom { editor, .. } => editor,
        }
    }

    /// The outermost widget of the instance: the container when there is one, else the editor.
    pub open spec fn spec_root(self) -> Handle {
        match self {
            PropertyEditorInstance::Simple { editor } => editor,
            PropertyEditorInstance::Custom { container, .. } => container,
        }
    }

    /// The editor widget of the instance.
    pub fn editor(&self) -> (r: Handle)
        ensures
            r == self.spec_editor(),
    {
        match self {
            PropertyEditorInstance::Simple { editor } => *editor,
            PropertyEditorInstance::Custom { editor, .. } => *editor,
        }
    }

    /// The outermost widget of the instance: the container when there is one, else the editor.
    pub fn root(&self) -> (r: Handle)
        ensures
            r == self.spec_root(),
    {
        match self {
            PropertyEditorInstance::Simple { editor } => *editor,
            PropertyEditorInstance::Custom { container, .. } => *container,
        }
    }
}

/// Editor of `bool` values.
#[derive(Copy, Clone, Debug, PartialEq, Eq, Structural)]
pub struct BoolPropertyEditorDefinition {
    pub value_type_id: u64,
}

/// Editor of colors.
#[derive(Copy, Clone, Debug, PartialEq, Eq, Structural)]
pub struct ColorPropertyEditorDefinition {
    pub value_type_id: u64,
}

/// Editor of color gradients.
#[derive(Copy, Clone, Debug, PartialEq, Eq, Structural)]
pub struct ColorGradientPropertyEditorDefinition {
    pub value_type_id: u64,
}

/// Editor of curves.
#[derive(Copy, Clone, Debug, PartialEq, Eq, Structural)]
pub struct CurvePropertyEditorDefinition {
    pub value_type_id: u64,
}

/// Editor of hot keys.
#[derive(Copy, Clone, Debug, PartialEq, Eq, Structural)]
pub struct HotKeyPropertyEditorDefinition {
    pub value_type_id: u64,
}

/// Editor of key bindings.
#[derive(Copy, Clone, Debug, PartialEq, Eq, Structural)]
pub struct KeyBindingPropertyEditorDefinition {
    pub value_type_id: u64,
}

/// Editor of 2x2 matrices of numbers.
#[derive(Copy, Clone, Debug, PartialEq, Eq, Structural)]
pub struct Matrix2PropertyEditorDefinition {
    pub value_type_id: u64,
}

/// Editor of numbers.
#[derive(Copy, Clone, Debug, PartialEq, Eq, Structural)]
pub struct NumericPropertyEditorDefinition {
    pub value_type_id: u64,
}

/// Editor of paths.
#[derive(Copy, Clone, Debug, PartialEq, Eq, Structural)]
pub struct PathPropertyEditorDefinition {
    pub value_type_id: u64,
}

/// Editor of unit quaternions.
#[derive(Copy, Clone, Debug, PartialEq, Eq, Structural)]
pub struct QuatPropertyEditorDefinition {
    pub value_type_id: u64,
}

/// Editor of ranges of numbers.
#[derive(Copy, Clone, Debug, PartialEq, Eq, Structural)]
pub struct RangePropertyEditorDefinition {
    pub value_type_id: u64,
}

/// Editor of rectangles.
#[derive(Copy, Clone, Debug, PartialEq, Eq, Structural)]
pub struct RectPropertyEditorDefinition {
    pub value_type_id: u64,
}

/// Editor of a value behind a `RefCell`, which edits the inner value with the definition
/// registered for the inner type.
#[derive(Copy, Clone, Debug, PartialEq, Eq, Structural)]
pub struct RefCellPropertyEditorDefinition {
    pub value_type_id: u64,
    pub inner_type_id: u64,
}

/// Editor of strings.
#[derive(Copy, Clone, Debug, PartialEq, Eq, Structural)]
pub struct StringPropertyEditorDefinition {
    pub value_type_id: u64,
}

/// Editor of vectors of numbers.
#[derive(Copy, Clone, Debug, PartialEq, Eq, Structural)]
pub struct VecPropertyEditorDefinition {
    pub value_type_id: u64,
}

impl HotKeyPropertyEditorDefinition {
    /// The message that shows the hot key `value` in the editor `instance`.
    pub fn create_message(&self, instance: Handle, value: HotKey) -> (r: UiMessage)
        ensures
            r == (UiMessage {
                destination: instance,
                direction: MessageDirection::ToWidget,
                handled: false,
                data: MessageData::HotKeyEditor(HotKeyEditorMessage::Value(value)),
            }),
    {
        UiMessage::for_widget(instance, MessageData::HotKeyEditor(HotKeyEditorMessage::Value(value)))
    }

    /// The hot key an editor reported, as coming from it; other messages give nothing.
    pub fn translate_message(&self, message: &UiMessage) -> (r: Option<HotKey>)
        ensures
            r == (match message.data {
                MessageData::HotKeyEditor(HotKeyEditorMessage::Value(v)) =>
                    if message.direction == MessageDirection::FromWidget { Some(v) } else { None },
                _ => None,
            }),
    {
        match message.data {
            MessageData::HotKeyEditor(HotKeyEditorMessage::Value(v)) => {
                if message.direction == MessageDirection::FromWidget { Some(v) } else { None }
            },
            _ => None,
        }
    }
}

impl KeyBindingPropertyEditorDefinition {
    /// The message that shows the key binding `value` in the editor `instance`.
    pub fn create_message(&self, instance: Handle, value: KeyBinding) -> (r: UiMessage)
        ensures
            r == (UiMessage {
                destination: instance,
                direction: MessageDirection::ToWidget,
                handled: false,
                data: MessageData::KeyBindingEditor(KeyBindingEditorMessage::Value(value)),
            }),
    {
        UiMessage::for_widget(instance, MessageData::KeyBindingEditor(KeyBindingEditorMessage::Value(value)))
    }

    /// The key binding an editor reported, as coming from it; other messages give nothing.
    pub fn translate_message(&self, message: &UiMessage) -> (r: Option<KeyBinding>)
        ensures
            r == (match message.data {
                MessageData::KeyBindingEditor(KeyBindingEditorMessage::Value(v)) =>
                    if message.direction == MessageDirection::FromWidget { Some(v) } else { None },
                _ => None,
            }),
    {
        match message.data {
            MessageData::KeyBindingEditor(KeyBindingEditorMessage::Value(v)) => {
                if message.direction == MessageDirection::FromWidget { Some(v) } else { None }
            },
            _ => None,
        }
    }
}

impl NumericPropertyEditorDefinition {
    /// The message that shows the number `value` (its bit pattern) in the numeric field
    /// `instance`.
    pub fn create_message(&self, instance: Handle, value: u32) -> (r: UiMessage)
        ensures
            r == (UiMessage {
                destination: instance,
                direction: MessageDirection::ToWidget,
                handled: false,
                data: MessageData::NumericUpDown(NumericUpDownMessage::Value(value)),
            }),
    {
        UiMessage::for_widget(instance, MessageData::NumericUpDown(NumericUpDownMessage::Value(value)))
    }

    /// The number a numeric field reported, as coming from it; other messages give nothing.
    pub fn translate_message(&self, message: &UiMessage) -> (r: Option<u32>)
        ensures
            r == (match message.data {
                MessageData::NumericUpDown(NumericUpDownMessage::Value(v)) =>
                    if message.direction == MessageDirection::FromWidget { Some(v) } else { None },
                _ => None,
            }),
    {
        match message.data {
            MessageData::NumericUpDown(NumericUpDownMessage::Value(v)) => {
                if message.direction == MessageDirection::FromWidget { Some(v) } else { None }
            },
            _ => None,
        }
    }
}

impl StringPropertyEditorDefinition {
    /// The message that shows the text `value` in the text box `instance`.
    pub fn create_message(&self, instance: Handle, value: String) -> (r: UiMessage)
        ensures
            r.destination == instance,
            r.direction == MessageDirection::ToWidget,
            !r.handled,
            r.data matches MessageData::Text(TextMessage::Text(t)) && t@ == value@,
    {
        UiMessage::for_widget(instance, MessageData::Text(TextMessage::Text(value)))
    }

    /// The text a text box reported, as coming from it; other messages give nothing.
    pub fn translate_message(&self, message: &UiMessage) -> (r: Option<String>)
        ensures
            match message.data {
                MessageData::Text(TextMessage::Text(t)) =>
                    if message.direction == MessageDirection::FromWidget {
                        r is Some && r->0@ == t@
                    } else {
                        r is None
                    },
                _ => r is None,
            },
    {
        match &message.data {
            MessageData::Text(TextMessage::Text(t)) => {
                if message.direction == MessageDirection::FromWidget { Some(t.clone()) } else { None }
            },
            _ => None,
        }
    }
}

impl RangePropertyEditorDefinition {
    /// The definition for the range type `value_type_id`.
    pub fn new(value_type_id: u64) -> (r: Self)
        ensures
            r.value_type_id == value_type_id,
    {
        RangePropertyEditorDefinition { value_type_id }
    }
}

impl RectPropertyEditorDefinition {
    /// The definition for the rectangle type `value_type_id`.
    pub fn new(value_type_id: u64) -> (r: Self)
        ensures
            r.value_type_id == value_type_id,
    {
        RectPropertyEditorDefinition { value_type_id }
    }

    /// The message that shows the rectangle `value` in the rectangle field `instance`.
    pub fn create_message(&self, instance: Handle, value: URect) -> (r: UiMessage)
        ensures
            r == (UiMessage {
                destination: instance,
                direction: MessageDirection::ToWidget,
                handled: false,
                data: MessageData::RectEditor(RectEditorMessage::Value(value)),
            }),
    {
        UiMessage::for_widget(instance, MessageData::RectEditor(RectEditorMessage::Value(value)))
    }

    /// The rectangle a rectangle field reported, as coming from it; other messages give
    /// nothing.
    pub fn translate_message(&self, message: &UiMessage) -> (r: Option<URect>)
        ensures
            r == (match message.data {
                MessageData::RectEditor(RectEditorMessage::Value(v)) =>
                    if message.direction == MessageDirection::FromWidget { Some(v) } else { None },
                _ => None,
            }),
    {
        match message.data {
            MessageData::RectEditor(RectEditorMessage::Value(v)) => {
                if message.direction == MessageDirection::FromWidget { Some(v) } else { None }
            },
            _ => None,
        }
    }
}

impl RefCellPropertyEditorDefinition {
    /// Translates a change reported by the nested inspector of the inner value into a change
    /// of the property named `name`: only a change coming from the inspector counts.
    pub fn translate_message(&self, name: &str, direction: MessageDirection, change: PropertyChanged) -> (r: Option<PropertyChanged>)
        ensures
            direction == MessageDirection::FromWidget ==> r is Some && r->0.name@ == name@ && r->0.value == FieldKind::Inspectable(Box::new(change)),
            direction != MessageDirection::FromWidget ==> r is None,
    {
        if direction == MessageDirection::FromWidget {
            Some(PropertyChanged { name: name.to_string(), value: FieldKind::Inspectable(Box::new(change)) })
        } else {
            None
        }
    }


    /// The definition for `RefCell` of the type `inner_type_id`, itself the type
    /// `value_type_id`.
    pub fn new(value_type_id: u64, inner_type_id: u64) -> (r: Self)
        ensures
            r.value_type_id == value_type_id,
            r.inner_type_id == inner_type_id,
    {
        RefCellPropertyEditorDefinition { value_type_id, inner_type_id }
    }
}

/// The definitions that a container can hold.
#[derive(Copy, Clone, Debug, PartialEq, Eq, Structural)]
pub enum PropertyEditorDefinition {
    Bool(BoolPropertyEditorDefinition),
    Color(ColorPropertyEditorDefinition),
    ColorGradient(ColorGradientPropertyEditorDefinition),
    Curve(CurvePropertyEditorDefinition),
    HotKey(HotKeyPropertyEditorDefinition),
    KeyBinding(KeyBindingPropertyEditorDefinition),
    Matrix2(Matrix2PropertyEditorDefinition),
    Numeric(NumericPropertyEditorDefinition),
    Path(PathPropertyEditorDefinition),
    Quat(QuatPropertyEditorDefinition),
    Range(RangePropertyEditorDefinition),
    Rect(RectPropertyEditorDefinition),
    RefCell(RefCellPropertyEditorDefinition),
    String(StringPropertyEditorDefinition),
    TextureSlice(TextureSlicePropertyEditorDefinition),
    Vec(VecPropertyEditorDefinition),
    Array(ArrayPropertyEditorDefinition),
    VecCollection(VecCollectionPropertyEditorDefinition),
    /// Editor of enumerations.
    Enum { value_type_id: u64 },
    HashMap(HashMapPropertyEditorDefinition),
    Inheritable(InheritablePropertyEditorDefinition),
    Styled(StyledPropertyEditorDefinition),
}

impl PropertyEditorDefinition {
    /// The id of the type that the definition edits.
    pub open spec fn spec_value_type_id(self) -> u64 {
        match self {
            PropertyEditorDefinition::Bool(d) => d.value_type_id,
            PropertyEditorDefinition::Color(d) => d.value_type_id,
            PropertyEditorDefinition::ColorGradient(d) => d.value_type_id,
            PropertyEditorDefinition::Curve(d) => d.value_type_id,
            PropertyEditorDefinition::HotKey(d) => d.value_type_id,
            PropertyEditorDefinition::KeyBinding(d) => d.value_type_id,
            PropertyEditorDefinition::Matrix2(d) => d.value_type_id,
            PropertyEditorDefinition::Numeric(d) => d.value_type_id,
            PropertyEditorDefinition::Path(d) => d.value_type_id,
            PropertyEditorDefinition::Quat(d) => d.value_type_id,
            PropertyEditorDefinition::Range(d) => d.value_type_id,
            PropertyEditorDefinition::Rect(d) => d.value_type_id,
            PropertyEditorDefinition::RefCell(d) => d.value_type_id,
            PropertyEditorDefinition::String(d) => d.value_type_id,
            PropertyEditorDefinition::TextureSlice(d) => d.value_type_id,
            PropertyEditorDefinition::Vec(d) => d.value_type_id,
            PropertyEditorDefinition::Array(d) => d.value_type_id,
            PropertyEditorDefinition::VecCollection(d) => d.value_type_id,
            PropertyEditorDefinition::Enum { value_type_id } => value_type_id,
            PropertyEditorDefinition::HashMap(d) => d.value_type_id,
            PropertyEditorDefinition::Inheritable(d) => d.value_type_id,
            PropertyEditorDefinition::Styled(d) => d.value_type_id,
        }
    }

    /// The id of the type that the definition edits.
    pub fn value_type_id(&self) -> (r: u64)
        ensures
            r == self.spec_value_type_id(),
    {
        match self {
            PropertyEditorDefinition::Bool(d) => d.value_type_id,
            PropertyEditorDefinition::Color(d) => d.value_type_id,
            PropertyEditorDefinition::ColorGradient(d) => d.value_type_id,
            PropertyEditorDefinition::Curve(d) => d.value_type_id,
            PropertyEditorDefinition::HotKey(d) => d.value_type_id,
            PropertyEditorDefinition::KeyBinding(d) => d.value_type_id,
            PropertyEditorDefinition::Matrix2(d) => d.value_type_id,
            PropertyEditorDefinition::Numeric(d) => d.value_type_id,
            PropertyEditorDefinition::Path(d) => d.value_type_id,
            PropertyEditorDefinition::Quat(d) => d.value_type_id,
            PropertyEditorDefinition::Range(d) => d.value_type_id,
            PropertyEditorDefinition::Rect(d) => d.value_type_id,
            PropertyEditorDefinition::RefCell(d) => d.value_type_id,
            PropertyEditorDefinition::String(d) => d.value_type_id,
            PropertyEditorDefinition::TextureSlice(d) => d.value_type_id,
            PropertyEditorDefinition::Vec(d) => d.value_type_id,
            PropertyEditorDefinition::Array(d) => d.value_type_id,
            PropertyEditorDefinition::VecCollection(d) => d.value_type_id,
            PropertyEditorDefinition::Enum { value_type_id } => *value_type_id,
            PropertyEditorDefinition::HashMap(d) => d.value_type_id,
            PropertyEditorDefinition::Inheritable(d) => d.value_type_id,
            PropertyEditorDefinition::Styled(d) => d.value_type_id,
        }
    }
}

/// A registered definition and the source that was current when it was registered.
#[derive(Copy, Clone, Debug, PartialEq, Eq, Structural)]
pub struct PropertyEditorDefinitionContainerEntry {
    pub source_type_id: u64,
    pub property_editor: PropertyEditorDefinition,
}

/// The id that stands for "no particular source": the unit type.
pub const UNIT_TYPE_ID: u64 = 0;

/// Definitions indexed by the type that each edits, each with the source it came from.
pub struct PropertyEditorDefinitionContainer {
    /// The source given to definitions registered from now on.
    context_type_id: u64,
    definitions: HashMap<u64, PropertyEditorDefinitionContainerEntry>,
}

impl View for PropertyEditorDefinitionContainer {
    type V = Map<u64, PropertyEditorDefinitionContainerEntry>;

    closed spec fn view(&self) -> Map<u64, PropertyEditorDefinitionContainerEntry> {
        self.definitions@
    }
}

/// The map `m` after registering each definition of `other` with the source `source`.
pub open spec fn merged(
    m: Map<u64, PropertyEditorDefinitionContainerEntry>,
    other: Map<u64, PropertyEditorDefinitionContainerEntry>,
    source: u64,
) -> Map<u64, PropertyEditorDefinitionContainerEntry> {
    Map::new(
        |k: u64| m.contains_key(k) || other.contains_key(k),
        |k: u64|
            if other.contains_key(k) {
                PropertyEditorDefinitionContainerEntry { source_type_id: source, property_editor: other[k].property_editor }
            } else {
                m[k]
            },
    )
}

impl PropertyEditorDefinitionContainer {
    /// The source given to definitions registered from now on.
    pub closed spec fn spec_context_type_id(&self) -> u64 {
        self.context_type_id
    }

    /// Each definition is registered under the type it edits.
    pub closed spec fn wf(&self) -> bool {
        forall|k: u64| #[trigger] self@.contains_key(k) ==> self@[k].property_editor.spec_value_type_id() == k
    }
}

impl Default for PropertyEditorDefinitionContainer {
    fn default() -> (r: Self)
        ensures
            r.wf(),
            r@ == Map::<u64, PropertyEditorDefinitionContainerEntry>::empty(),
            r.spec_context_type_id() == UNIT_TYPE_ID,
    {
        PropertyEditorDefinitionContainer { context_type_id: UNIT_TYPE_ID, definitions: HashMap::new() }
    }
}

impl PropertyEditorDefinitionContainer {
    /// The source given to definitions registered from now on.
    pub fn context_type_id(&self) -> (r: u64)
        ensures
            r == self.spec_context_type_id(),
    {
        self.context_type_id
    }

    /// Makes `source` the source given to definitions registered from now on.
    pub fn set_context_type_id(&mut self, source: u64)
        ensures
            final(self).spec_context_type_id() == source,
            final(self)@ == old(self)@,
            old(self).wf() ==> final(self).wf(),
    {
        self.context_type_id = source;
    }

    /// A container with no definitions, whose current source is the unit type.
    pub fn empty() -> (r: Self)
        ensures
            r.wf(),
            r@ == Map::<u64, PropertyEditorDefinitionContainerEntry>::empty(),
            r.spec_context_type_id() == UNIT_TYPE_ID,
    {
        Self::default()
    }

    /// Registers `definition` for the type it edits, marked with the current source. A
    /// definition that was registered for that type before is removed and returned.
    pub fn insert_raw(&mut self, definition: PropertyEditorDefinition) -> (r: Option<PropertyEditorDefinitionContainerEntry>)
        requires
            old(self).wf(),
        ensures
            final(self).wf(),
            final(self)@ == old(self)@.insert(
                definition.spec_value_type_id(),
                PropertyEditorDefinitionContainerEntry { source_type_id: old(self).spec_context_type_id(), property_editor: definition },
            ),
            final(self).spec_context_type_id() == old(self).spec_context_type_id(),
            r == (if old(self)@.contains_key(definition.spec_value_type_id()) {
                Some(old(self)@[definition.spec_value_type_id()])
            } else {
                None
            }),
    {
        let key = definition.value_type_id();
        self.definitions.insert(key, PropertyEditorDefinitionContainerEntry { source_type_id: self.context_type_id, property_editor: definition })
    }

    /// Registers `definition` for the type it edits, marked with the current source. A
    /// definition that was registered for that type before is removed and returned.
    pub fn insert(&mut self, definition: PropertyEditorDefinition) -> (r: Option<PropertyEditorDefinitionContainerEntry>)
        requires
            old(self).wf(),
        ensures
            final(self).wf(),
            final(self)@ == old(self)@.insert(
                definition.spec_value_type_id(),
                PropertyEditorDefinitionContainerEntry { source_type_id: old(self).spec_context_type_id(), property_editor: definition },
            ),
            final(self).spec_context_type_id() == old(self).spec_context_type_id(),
            r == (if old(self)@.contains_key(definition.spec_value_type_id()) {
                Some(old(self)@[definition.spec_value_type_id()])
            } else {
                None
            }),
    {
        self.insert_raw(definition)
    }

    /// The definition registered for the type `type_id`, if any.
    pub fn get(&self, type_id: u64) -> (r: Option<PropertyEditorDefinitionContainerEntry>)
        ensures
            r == (if self@.contains_key(type_id) { Some(self@[type_id]) } else { None }),
    {
        match self.definitions.get(&type_id) {
            Some(e) => Some(*e),
            None => None,
        }
    }

    /// The ids of the types that have a definition, in no particular order.
    pub fn type_ids(&self) -> (r: Vec<u64>)
        ensures
            r@.to_set() == self@.dom(),
            r@.no_duplicates(),
    {
        let mut out: Vec<u64> = Vec::new();
        let keys = self.definitions.keys();
        let ghost all = keys.remaining();
        for k in it: keys
            invariant
                it.seq() == all,
                out@ == all.take(it.index()).unref(),
        {
            proof {
                assert(all.take(it.index() + 1).unref() == all.take(it.index()).unref().push(*k));
            }
            out.push(*k);
        }
        proof {
            assert(all.take(all.len() as int) == all);
            assert(out@ == all.unref());
            assert(all.unref().to_set() == self@.dom());
            assert(out@.no_duplicates()) by {
                assert forall|i: int, j: int| 0 <= i < out@.len() && 0 <= j < out@.len() && i != j implies out@[i] != out@[j] by {
                    assert(all[i] != all[j]);
                }
            }
        }
        out
    }

    /// Registers every definition of `other`, each marked with this container's current
    /// source, whatever source it had in `other`.
    pub fn merge(&mut self, other: Self)
        requires
            old(self).wf(),
            other.wf(),
        ensures
            final(self).wf(),
            final(self)@ == merged(old(self)@, other@, old(self).spec_context_type_id()),
            final(self).spec_context_type_id() == old(self).spec_context_type_id(),
    {
        let ids = other.type_ids();
        let mut i: usize = 0;
        while i < ids.len()
            invariant
                i <= ids@.len(),
                ids@.to_set() == other@.dom(),
                ids@.no_duplicates(),
                self.spec_context_type_id() == old(self).spec_context_type_id(),
                self.wf(),
                other.wf(),
                self@ == merged(old(self)@, other@.restrict(ids@.take(i as int).to_set()), old(self).spec_context_type_id()),
            decreases ids@.len() - i,
        {
            let k = ids[i];
            assert(ids@.to_set().contains(k)) by {
                assert(ids@.contains(k));
            }
            let e = other.get(k);
            match e {
                Some(entry) => {
                    let ghost before = self@;
                    self.insert_raw(entry.property_editor);
                    proof {
                        assert(ids@.take(i + 1).to_set() == ids@.take(i as int).to_set().insert(k)) by {
                            assert(ids@.take(i + 1) == ids@.take(i as int).push(k));
                            ids@.take(i as int).lemma_push_to_set_commute(k);
                        }
                        assert(self@ =~= merged(old(self)@, other@.restrict(ids@.take(i + 1).to_set()), old(self).spec_context_type_id()));
                    }
                },
                None => {},
            }
            i = i + 1;
        }
        proof {
            assert(ids@.take(ids@.len() as int) == ids@);
            assert(other@.restrict(ids@.to_set()) =~= other@);
        }
    }
}


impl PropertyEditorDefinitionContainer {
    /// Registers the editor of vectors of the item type `item_type_id` (the vector type being
    /// `vec_type_id`) and the editor of inheritable variables of such vectors (the type
    /// `inheritable_type_id`). Neither type may have a definition yet.
    pub fn register_inheritable_vec_collection(&mut self, vec_type_id: u64, item_type_id: u64, inheritable_type_id: u64)
        requires
            old(self).wf(),
            !old(self)@.contains_key(vec_type_id),
            !old(self)@.contains_key(inheritable_type_id),
            vec_type_id != inheritable_type_id,
        ensures
            final(self).wf(),
            final(self).spec_context_type_id() == old(self).spec_context_type_id(),
            final(self)@ == old(self)@.insert(
                vec_type_id,
                PropertyEditorDefinitionContainerEntry {
                    source_type_id: old(self).spec_context_type_id(),
                    property_editor: PropertyEditorDefinition::VecCollection(VecCollectionPropertyEditorDefinition { value_type_id: vec_type_id, item_type_id }),
                },
            ).insert(
                inheritable_type_id,
                PropertyEditorDefinitionContainerEntry {
                    source_type_id: old(self).spec_context_type_id(),
                    property_editor: PropertyEditorDefinition::Inheritable(InheritablePropertyEditorDefinition { value_type_id: inheritable_type_id }),
                },
            ),
    {
        self.insert(PropertyEditorDefinition::VecCollection(VecCollectionPropertyEditorDefinition { value_type_id: vec_type_id, item_type_id }));
        self.insert(PropertyEditorDefinition::Inheritable(InheritablePropertyEditorDefinition { value_type_id: inheritable_type_id }));
    }

    /// Registers the editor of the enumeration `enum_type_id`, shown as a list of its variants,
    /// and the editor of inheritable variables of it (the type `inheritable_type_id`). Neither
    /// type may have a definition yet.
    pub fn register_inheritable_enum(&mut self, enum_type_id: u64, inheritable_type_id: u64)
        requires
            old(self).wf(),
            !old(self)@.contains_key(enum_type_id),
            !old(self)@.contains_key(inheritable_type_id),
            enum_type_id != inheritable_type_id,
        ensures
            final(self).wf(),
            final(self).spec_context_type_id() == old(self).spec_context_type_id(),
            final(self)@ == old(self)@.insert(
                enum_type_id,
                PropertyEditorDefinitionContainerEntry {
                    source_type_id: old(self).spec_context_type_id(),
                    property_editor: PropertyEditorDefinition::Enum { value_type_id: enum_type_id },
                },
            ).insert(
                inheritable_type_id,
                PropertyEditorDefinitionContainerEntry {
                    source_type_id: old(self).spec_context_type_id(),
                    property_editor: PropertyEditorDefinition::Inheritable(InheritablePropertyEditorDefinition { value_type_id: inheritable_type_id }),
                },
            ),
    {
        self.insert(PropertyEditorDefinition::Enum { value_type_id: enum_type_id });
        self.insert(PropertyEditorDefinition::Inheritable(InheritablePropertyEditorDefinition { value_type_id: inheritable_type_id }));
    }
}

/// The ids of the types that get an editor by default, grouped by the editor each gets.
/// A pair names the edited type first and the type inside it second (the item type of a
/// vector or an array, the inner type of a `RefCell` or of a styled property).
#[derive(Debug)]
pub struct DefaultEditorTypeIds {
    pub bool_type: u64,
    pub string_type: u64,
    pub path_type: u64,
    pub color_type: u64,
    pub color_gradient_type: u64,
    pub curve_type: u64,
    pub key_binding_type: u64,
    pub texture_slice_type: u64,
    /// Numbers of every width.
    pub numeric_types: Vec<u64>,
    /// Vectors of two, three and four numbers.
    pub vector_types: Vec<u64>,
    /// Square matrices of numbers.
    pub matrix_types: Vec<u64>,
    /// Ranges of numbers.
    pub range_types: Vec<u64>,
    /// Unit quaternions.
    pub quat_types: Vec<u64>,
    /// Rectangles of numbers.
    pub rect_types: Vec<u64>,
    /// Enumerations, optional values among them, shown as a list of variants.
    pub enum_types: Vec<u64>,
    /// Inheritable variables.
    pub inheritable_types: Vec<u64>,
    /// Vectors and their item types.
    pub vec_collection_types: Vec<(u64, u64)>,
    /// Arrays and their item types.
    pub array_types: Vec<(u64, u64)>,
    /// `RefCell`s and their inner types.
    pub ref_cell_types: Vec<(u64, u64)>,
    /// Styled properties and their value types.
    pub styled_types: Vec<(u64, u64)>,
}

/// The editor that each id of a list of single type ids gets.
#[derive(Copy, Clone, Debug, PartialEq, Eq, Structural)]
pub enum OneIdKind {
    Numeric,
    Vector,
    Matrix,
    Range,
    Quat,
    Rect,
    Enum,
    Inheritable,
}

/// The editor that each pair of a list of pairs of type ids gets.
#[derive(Copy, Clone, Debug, PartialEq, Eq, Structural)]
pub enum TwoIdKind {
    VecCollection,
    Array,
    RefCell,
    Styled,
}

pub open spec fn one_id_definition(kind: OneIdKind, t: u64) -> PropertyEditorDefinition {
    match kind {
        OneIdKind::Numeric => PropertyEditorDefinition::Numeric(NumericPropertyEditorDefinition { value_type_id: t }),
        OneIdKind::Vector => PropertyEditorDefinition::Vec(VecPropertyEditorDefinition { value_type_id: t }),
        OneIdKind::Matrix => PropertyEditorDefinition::Matrix2(Matrix2PropertyEditorDefinition { value_type_id: t }),
        OneIdKind::Range => PropertyEditorDefinition::Range(RangePropertyEditorDefinition { value_type_id: t }),
        OneIdKind::Quat => PropertyEditorDefinition::Quat(QuatPropertyEditorDefinition { value_type_id: t }),
        OneIdKind::Rect => PropertyEditorDefinition::Rect(RectPropertyEditorDefinition { value_type_id: t }),
        OneIdKind::Enum => PropertyEditorDefinition::Enum { value_type_id: t },
        OneIdKind::Inheritable => PropertyEditorDefinition::Inheritable(InheritablePropertyEditorDefinition { value_type_id: t }),
    }
}

pub open spec fn two_id_definition(kind: TwoIdKind, t: (u64, u64)) -> PropertyEditorDefinition {
    match kind {
        TwoIdKind::VecCollection => PropertyEditorDefinition::VecCollection(VecCollectionPropertyEditorDefinition { value_type_id: t.0, item_type_id: t.1 }),
        TwoIdKind::Array => PropertyEditorDefinition::Array(ArrayPropertyEditorDefinition { value_type_id: t.0, item_type_id: t.1 }),
        TwoIdKind::RefCell => PropertyEditorDefinition::RefCell(RefCellPropertyEditorDefinition { value_type_id: t.0, inner_type_id: t.1 }),
        TwoIdKind::Styled => PropertyEditorDefinition::Styled(StyledPropertyEditorDefinition { value_type_id: t.0, inner_type_id: t.1 }),
    }
}

pub open spec fn one_id_definitions(kind: OneIdKind, ids: Seq<u64>) -> Seq<PropertyEditorDefinition> {
    Seq::new(ids.len(), |i: int| one_id_definition(kind, ids[i]))
}

pub open spec fn two_id_definitions(kind: TwoIdKind, ids: Seq<(u64, u64)>) -> Seq<PropertyEditorDefinition> {
    Seq::new(ids.len(), |i: int| two_id_definition(kind, ids[i]))
}

/// The definitions registered by default, in the order of registration: the editors of
/// single types (bool, string, path, color, color gradient, curve, key binding, texture
/// slice), then those of numbers, vectors, matrices, ranges, quaternions, rectangles,
/// enumerations, inheritable variables, vector collections, arrays, `RefCell`s and styled
/// properties, each group in the order of its list.
pub open spec fn default_definitions(ids: DefaultEditorTypeIds) -> Seq<PropertyEditorDefinition> {
    seq![
        PropertyEditorDefinition::Bool(BoolPropertyEditorDefinition { value_type_id: ids.bool_type }),
        PropertyEditorDefinition::String(StringPropertyEditorDefinition { value_type_id: ids.string_type }),
        PropertyEditorDefinition::Path(PathPropertyEditorDefinition { value_type_id: ids.path_type }),
        PropertyEditorDefinition::Color(ColorPropertyEditorDefinition { value_type_id: ids.color_type }),
        PropertyEditorDefinition::ColorGradient(ColorGradientPropertyEditorDefinition { value_type_id: ids.color_gradient_type }),
        PropertyEditorDefinition::Curve(CurvePropertyEditorDefinition { value_type_id: ids.curve_type }),
        PropertyEditorDefinition::KeyBinding(KeyBindingPropertyEditorDefinition { value_type_id: ids.key_binding_type }),
        PropertyEditorDefinition::TextureSlice(TextureSlicePropertyEditorDefinition { value_type_id: ids.texture_slice_type }),
    ]
        + one_id_definitions(OneIdKind::Numeric, ids.numeric_types@)
        + one_id_definitions(OneIdKind::Vector, ids.vector_types@)
        + one_id_definitions(OneIdKind::Matrix, ids.matrix_types@)
        + one_id_definitions(OneIdKind::Range, ids.range_types@)
        + one_id_definitions(OneIdKind::Quat, ids.quat_types@)
        + one_id_definitions(OneIdKind::Rect, ids.rect_types@)
        + one_id_definitions(OneIdKind::Enum, ids.enum_types@)
        + one_id_definitions(OneIdKind::Inheritable, ids.inheritable_types@)
        + two_id_definitions(TwoIdKind::VecCollection, ids.vec_collection_types@)
        + two_id_definitions(TwoIdKind::Array, ids.array_types@)
        + two_id_definitions(TwoIdKind::RefCell, ids.ref_cell_types@)
        + two_id_definitions(TwoIdKind::Styled, ids.styled_types@)
}

/// The definitions of an empty map after registering each of `defs` in order, with the
/// source `source`.
pub open spec fn registered_all(defs: Seq<PropertyEditorDefinition>, source: u64) -> Map<u64, PropertyEditorDefinitionContainerEntry>
    decreases defs.len(),
{
    if defs.len() == 0 {
        Map::empty()
    } else {
        registered_all(defs.drop_last(), source).insert(
            defs.last().spec_value_type_id(),
            PropertyEditorDefinitionContainerEntry { source_type_id: source, property_editor: defs.last() },
        )
    }
}

/// Registering definitions in order gives each of their types a definition with that source,
/// no other type, and to each type the definition registered for it last.
pub proof fn lemma_registered_all(defs: Seq<PropertyEditorDefinition>, source: u64)
    ensures
        forall|i: int| 0 <= i < defs.len() ==> #[trigger] registered_all(defs, source).contains_key(defs[i].spec_value_type_id())
            && registered_all(defs, source)[defs[i].spec_value_type_id()].source_type_id == source,
        forall|k: u64| #[trigger] registered_all(defs, source).contains_key(k)
            ==> exists|i: int| 0 <= i < defs.len() && defs[i].spec_value_type_id() == k,
        forall|i: int| 0 <= i < defs.len() && (forall|j: int| i < j < defs.len() ==> defs[j].spec_value_type_id() != defs[i].spec_value_type_id())
            ==> #[trigger] registered_all(defs, source)[defs[i].spec_value_type_id()].property_editor == defs[i],
        forall|k: u64| #[trigger] registered_all(defs, source).contains_key(k)
            ==> registered_all(defs, source)[k].property_editor.spec_value_type_id() == k,
    decreases defs.len(),
{
    if defs.len() > 0 {
        let init = defs.drop_last();
        lemma_registered_all(init, source);
        assert forall|i: int| 0 <= i < init.len() implies #[trigger] init[i] == defs[i] by {}
        assert forall|i: int| 0 <= i < defs.len() implies #[trigger] registered_all(defs, source).contains_key(defs[i].spec_value_type_id())
            && registered_all(defs, source)[defs[i].spec_value_type_id()].source_type_id == source by {
            if i < defs.len() - 1 {
                assert(init[i] == defs[i]);
                assert(registered_all(init, source).contains_key(init[i].spec_value_type_id()));
            }
        }
        assert forall|k: u64| #[trigger] registered_all(defs, source).contains_key(k)
            implies exists|i: int| 0 <= i < defs.len() && defs[i].spec_value_type_id() == k by {
            if k != defs.last().spec_value_type_id() {
                let i = choose|i: int| 0 <= i < init.len() && init[i].spec_value_type_id() == k;
                assert(defs[i] == init[i]);
            } else {
                assert(defs[defs.len() - 1].spec_value_type_id() == k);
            }
        }
        assert forall|i: int| 0 <= i < defs.len() && (forall|j: int| i < j < defs.len() ==> defs[j].spec_value_type_id() != defs[i].spec_value_type_id())
            implies #[trigger] registered_all(defs, source)[defs[i].spec_value_type_id()].property_editor == defs[i] by {
            if i < defs.len() - 1 {
                assert(defs[defs.len() - 1].spec_value_type_id() != defs[i].spec_value_type_id());
                assert(init[i] == defs[i]);
                assert forall|j: int| i < j < init.len() implies init[j].spec_value_type_id() != init[i].spec_value_type_id() by {
                    assert(init[j] == defs[j]);
                }
            }
        }
    }
}

fn push_one_id_definitions(out: &mut Vec<PropertyEditorDefinition>, kind: OneIdKind, ids: &Vec<u64>)
    ensures
        final(out)@ == old(out)@ + one_id_definitions(kind, ids@),
{
    let ghost start = out@;
    let mut i: usize = 0;
    while i < ids.len()
        invariant
            i <= ids@.len(),
            out@ == start + one_id_definitions(kind, ids@.take(i as int)),
        decreases ids@.len() - i,
    {
        let t = ids[i];
        let d = match kind {
            OneIdKind::Numeric => PropertyEditorDefinition::Numeric(NumericPropertyEditorDefinition { value_type_id: t }),
            OneIdKind::Vector => PropertyEditorDefinition::Vec(VecPropertyEditorDefinition { value_type_id: t }),
            OneIdKind::Matrix => PropertyEditorDefinition::Matrix2(Matrix2PropertyEditorDefinition { value_type_id: t }),
            OneIdKind::Range => PropertyEditorDefinition::Range(RangePropertyEditorDefinition { value_type_id: t }),
            OneIdKind::Quat => PropertyEditorDefinition::Quat(QuatPropertyEditorDefinition { value_type_id: t }),
            OneIdKind::Rect => PropertyEditorDefinition::Rect(RectPropertyEditorDefinition { value_type_id: t }),
            OneIdKind::Enum => PropertyEditorDefinition::Enum { value_type_id: t },
            OneIdKind::Inheritable => PropertyEditorDefinition::Inheritable(InheritablePropertyEditorDefinition { value_type_id: t }),
        };
        out.push(d);
        proof {
            assert(one_id_definitions(kind, ids@.take(i + 1)) =~= one_id_definitions(kind, ids@.take(i as int)).push(d));
        }
        i = i + 1;
    }
    proof {
        assert(ids@.take(ids@.len() as int) =~= ids@);
    }
}

fn push_two_id_definitions(out: &mut Vec<PropertyEditorDefinition>, kind: TwoIdKind, ids: &Vec<(u64, u64)>)
    ensures
        final(out)@ == old(out)@ + two_id_definitions(kind, ids@),
{
    let ghost start = out@;
    let mut i: usize = 0;
    while i < ids.len()
        invariant
            i <= ids@.len(),
            out@ == start + two_id_definitions(kind, ids@.take(i as int)),
        decreases ids@.len() - i,
    {
        let (a, b) = ids[i];
        let d = match kind {
            TwoIdKind::VecCollection => PropertyEditorDefinition::VecCollection(VecCollectionPropertyEditorDefinition { value_type_id: a, item_type_id: b }),
            TwoIdKind::Array => PropertyEditorDefinition::Array(ArrayPropertyEditorDefinition { value_type_id: a, item_type_id: b }),
            TwoIdKind::RefCell => PropertyEditorDefinition::RefCell(RefCellPropertyEditorDefinition { value_type_id: a, inner_type_id: b }),
            TwoIdKind::Styled => PropertyEditorDefinition::Styled(StyledPropertyEditorDefinition { value_type_id: a, inner_type_id: b }),
        };
        out.push(d);
        proof {
            assert(two_id_definitions(kind, ids@.take(i + 1)) =~= two_id_definitions(kind, ids@.take(i as int)).push(d));
        }
        i = i + 1;
    }
    proof {
        assert(ids@.take(ids@.len() as int) =~= ids@);
    }
}

/// The definitions registered by default, in the order of registration.
fn make_default_definitions(ids: &DefaultEditorTypeIds) -> (r: Vec<PropertyEditorDefinition>)
    ensures
        r@ == default_definitions(*ids),
{
    let mut out: Vec<PropertyEditorDefinition> = Vec::new();
    out.push(PropertyEditorDefinition::Bool(BoolPropertyEditorDefinition { value_type_id: ids.bool_type }));
    out.push(PropertyEditorDefinition::String(StringPropertyEditorDefinition { value_type_id: ids.string_type }));
    out.push(PropertyEditorDefinition::Path(PathPropertyEditorDefinition { value_type_id: ids.path_type }));
    out.push(PropertyEditorDefinition::Color(ColorPropertyEditorDefinition { value_type_id: ids.color_type }));
    out.push(PropertyEditorDefinition::ColorGradient(ColorGradientPropertyEditorDefinition { value_type_id: ids.color_gradient_type }));
    out.push(PropertyEditorDefinition::Curve(CurvePropertyEditorDefinition { value_type_id: ids.curve_type }));
    out.push(PropertyEditorDefinition::KeyBinding(KeyBindingPropertyEditorDefinition { value_type_id: ids.key_binding_type }));
    out.push(PropertyEditorDefinition::TextureSlice(TextureSlicePropertyEditorDefinition { value_type_id: ids.texture_slice_type }));
    push_one_id_definitions(&mut out, OneIdKind::Numeric, &ids.numeric_types);
    push_one_id_definitions(&mut out, OneIdKind::Vector, &ids.vector_types);
    push_one_id_definitions(&mut out, OneIdKind::Matrix, &ids.matrix_types);
    push_one_id_definitions(&mut out, OneIdKind::Range, &ids.range_types);
    push_one_id_definitions(&mut out, OneIdKind::Quat, &ids.quat_types);
    push_one_id_definitions(&mut out, OneIdKind::Rect, &ids.rect_types);
    push_one_id_definitions(&mut out, OneIdKind::Enum, &ids.enum_types);
    push_one_id_definitions(&mut out, OneIdKind::Inheritable, &ids.inheritable_types);
    push_two_id_definitions(&mut out, TwoIdKind::VecCollection, &ids.vec_collection_types);
    push_two_id_definitions(&mut out, TwoIdKind::Array, &ids.array_types);
    push_two_id_definitions(&mut out, TwoIdKind::RefCell, &ids.ref_cell_types);
    push_two_id_definitions(&mut out, TwoIdKind::Styled, &ids.styled_types);
    out
}

impl PropertyEditorDefinitionContainer {
    /// A container with the editors of the library's own and the standard types: each
    /// definition of `default_definitions(ids)` registered in order, with the unit type as
    /// source. Every listed type has a definition, no other type has one, and each type has the
    /// definition listed for it last.
    pub fn with_default_editors(ids: &DefaultEditorTypeIds) -> (r: Self)
        ensures
            r.wf(),
            r.spec_context_type_id() == UNIT_TYPE_ID,
            r@ == registered_all(default_definitions(*ids), UNIT_TYPE_ID),
            forall|i: int| 0 <= i < default_definitions(*ids).len() ==> {
                &&& #[trigger] r@.contains_key(default_definitions(*ids)[i].spec_value_type_id())
                &&& r@[default_definitions(*ids)[i].spec_value_type_id()].source_type_id == UNIT_TYPE_ID
            },
            forall|k: u64| #[trigger] r@.contains_key(k)
                ==> exists|i: int| 0 <= i < default_definitions(*ids).len() && default_definitions(*ids)[i].spec_value_type_id() == k,
            forall|i: int| 0 <= i < default_definitions(*ids).len()
                && (forall|j: int| i < j < default_definitions(*ids).len()
                    ==> default_definitions(*ids)[j].spec_value_type_id() != default_definitions(*ids)[i].spec_value_type_id())
                ==> #[trigger] r@[default_definitions(*ids)[i].spec_value_type_id()].property_editor == default_definitions(*ids)[i],
    {
        let defs = make_default_definitions(ids);
        let mut container = Self::default();
        let mut i: usize = 0;
        while i < defs.len()
            invariant
                i <= defs@.len(),
                container.wf(),
                container.spec_context_type_id() == UNIT_TYPE_ID,
                container@ == registered_all(defs@.take(i as int), UNIT_TYPE_ID),
            decreases defs@.len() - i,
        {
            container.insert(defs[i]);
            proof {
                assert(defs@.take(i + 1).drop_last() =~= defs@.take(i as int));
            }
            i = i + 1;
        }
        proof {
            assert(defs@.take(defs@.len() as int) =~= defs@);
            lemma_registered_all(defs@, UNIT_TYPE_ID);
        }
        container
    }
}

/// Registering a definition for a type and then asking for that type gives back the
/// definition, marked with the source that was current, whatever was registered before.
pub proof fn lemma_insert_then_get(c: PropertyEditorDefinitionContainer, d: PropertyEditorDefinition, after: PropertyEditorDefinitionContainer)
    requires
        after@ == c@.insert(
            d.spec_value_type_id(),
            PropertyEditorDefinitionContainerEntry { source_type_id: c.spec_context_type_id(), property_editor: d },
        ),
    ensures
        after@.contains_key(d.spec_value_type_id()),
        after@[d.spec_value_type_id()] == (PropertyEditorDefinitionContainerEntry { source_type_id: c.spec_context_type_id(), property_editor: d }),
        forall|k: u64| k != d.spec_value_type_id() ==> (#[trigger] after@.contains_key(k) <==> c@.contains_key(k)),
        forall|k: u64| k != d.spec_value_type_id() && c@.contains_key(k) ==> #[trigger] after@[k] == c@[k],
{
}

/// The definition that makes the editors of the `len` items of a collection whose items have
/// the type `item_type_id` (named `item_type_name`): the one registered for that type; when there is
/// none, an error that names the type, unless there are no items to edit.
pub fn item_definition(
    container: &PropertyEditorDefinitionContainer,
    item_type_id: u64,
    item_type_name: &str,
    len: usize,
) -> (r: Result<Option<PropertyEditorDefinitionContainerEntry>, InspectorError>)
    ensures
        container@.contains_key(item_type_id) ==> r == Ok::<Option<PropertyEditorDefinitionContainerEntry>, InspectorError>(Some(container@[item_type_id])),
        !container@.contains_key(item_type_id) && len == 0 ==> r == Ok::<Option<PropertyEditorDefinitionContainerEntry>, InspectorError>(None),
        !container@.contains_key(item_type_id) && len > 0 ==> (r matches Err(InspectorError::Custom(m))
            && m@ == "Missing property editor of type "@ + item_type_name@),
{
    match container.get(item_type_id) {
        Some(e) => Ok(Some(e)),
        None => {
            if len == 0 {
                Ok(None)
            } else {
                proof {
                    reveal_strlit("Missing property editor of type ");
                }
                let mut m = String::from_str("Missing property editor of type ");
                m.append(item_type_name);
                Err(InspectorError::Custom(m))
            }
        },
    }
}

} // verus!
