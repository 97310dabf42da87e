//! The editor of enumerations: a drop-down list of the variants beside a nested inspector
//! of the chosen variant's fields.

use vstd::prelude::*;
use vstd::string::StringExecFns;
use crate::message::{Handle, MessageDirection, UiMessage, MessageData, DropdownListMessage};
use crate::inspector::{PropertyChanged, FieldKind, ObjectValue};
use crate::text::same_chars;

verus! {

/// The flag of messages that an enumeration editor sends to its own drop-down list; the
/// editor does not react to those.
pub const LOCAL_SYNC_FLAG: u64 = 0xFF;

/// Enumerations that can be edited: their values can be inspected and their variants listed.
pub trait InspectableEnum {}

/// Messages of enumeration editors.
#[derive(Debug)]
pub enum EnumPropertyEditorMessage {
    /// The variant with the given index was chosen.
    Variant(usize),
    /// The nested inspector changed a field of the current variant.
    PropertyChanged(PropertyChanged),
}

impl EnumPropertyEditorMessage {
    /// The variant with index `index` was chosen.
    pub fn variant(index: usize) -> (r: Self)
        ensures
            r == EnumPropertyEditorMessage::Variant(index),
    {
        EnumPropertyEditorMessage::Variant(index)
    }

    /// The nested inspector changed a field.
    pub fn property_changed(change: PropertyChanged) -> (r: Self)
        ensures
            r == EnumPropertyEditorMessage::PropertyChanged(change),
    {
        EnumPropertyEditorMessage::PropertyChanged(change)
    }
}

/// What reaches an enumeration editor.
#[derive(Debug)]
pub enum EnumPropertyEditorInput {
    /// A message of an enumeration editor, addressed to or coming from `destination`.
    Editor { destination: Handle, direction: MessageDirection, message: EnumPropertyEditorMessage },
    /// The inspector `source` reported a change.
    InspectorChanged { source: Handle, change: PropertyChanged },
}

/// What an enumeration editor does in reply.
#[derive(Debug)]
pub enum EnumPropertyEditorOutput {
    /// The nested inspector is to show a new value of the variant `variant`, and the choice is
    /// reported, as coming from the editor.
    VariantChosen { variant: usize },
    /// Reports a change of a field, as coming from the editor.
    PropertyChanged(PropertyChanged),
}

/// An editor of an enumeration.
#[derive(Copy, Clone, Debug, PartialEq, Eq, Structural)]
pub struct EnumPropertyEditor {
    pub handle: Handle,
    /// The drop-down list of variants.
    pub variant_selector: Handle,
    /// The nested inspector of the fields of the current variant.
    pub inspector: Handle,
    pub layer_index: usize,
}

impl EnumPropertyEditor {
    /// Reacts to what reaches the editor: a chosen variant addressed to the editor makes the
    /// inspector show a new value of that variant; a change reported by the nested inspector
    /// is reported as a change of the editor. Anything else gives nothing.
    pub fn handle_routed_message(&self, input: EnumPropertyEditorInput) -> (r: Option<EnumPropertyEditorOutput>)
        ensures
            match input {
                EnumPropertyEditorInput::Editor { destination, direction, message } => match message {
                    EnumPropertyEditorMessage::Variant(variant) =>
                        if destination == self.handle && direction == MessageDirection::ToWidget {
                            r == Some(EnumPropertyEditorOutput::VariantChosen { variant })
                        } else {
                            r is None
                        },
                    EnumPropertyEditorMessage::PropertyChanged(_) => r is None,
                },
                EnumPropertyEditorInput::InspectorChanged { source, change } =>
                    if source == self.inspector {
                        r == Some(EnumPropertyEditorOutput::PropertyChanged(change))
                    } else {
                        r is None
                    },
            },
    {
        match input {
            EnumPropertyEditorInput::Editor { destination, direction, message } => match message {
                EnumPropertyEditorMessage::Variant(variant) => {
                    if destination == self.handle && direction == MessageDirection::ToWidget {
                        Some(EnumPropertyEditorOutput::VariantChosen { variant })
                    } else {
                        None
                    }
                },
                EnumPropertyEditorMessage::PropertyChanged(_) => None,
            },
            EnumPropertyEditorInput::InspectorChanged { source, change } => {
                if source == self.inspector {
                    Some(EnumPropertyEditorOutput::PropertyChanged(change))
                } else {
                    None
                }
            },
        }
    }

    /// Reacts to a message before it is routed: a new selection reported by the variant
    /// list, unless the editor itself set it (`flags` is the local flag), asks the editor to
    /// switch to the selected variant.
    pub fn preview_message(&self, message: &UiMessage, flags: u64) -> (r: Option<usize>)
        ensures
            r == (match message.data {
                MessageData::DropdownList(DropdownListMessage::SelectionChanged(Some(index))) =>
                    if message.spec_is_from(self.variant_selector) && flags != LOCAL_SYNC_FLAG {
                        Some(index)
                    } else {
                        None
                    },
                _ => None,
            }),
    {
        match &message.data {
            MessageData::DropdownList(DropdownListMessage::SelectionChanged(Some(index))) => {
                if message.is_from(self.variant_selector) && flags != LOCAL_SYNC_FLAG {
                    Some(*index)
                } else {
                    None
                }
            },
            _ => None,
        }
    }
}

/// Editor of enumerations, by the names of their variants.
#[derive(Debug)]
pub struct EnumPropertyEditorDefinition {
    pub value_type_id: u64,
    /// The names of the variants, in order.
    pub names: Vec<String>,
}

/// The names of an optional value's two variants.
pub open spec fn optional_names() -> Seq<Seq<char>> {
    seq![seq!['N', 'o', 'n', 'e'], seq!['S', 'o', 'm', 'e']]
}

/// The index of the first name equal to `name`, or -1.
pub open spec fn name_index(names: Seq<Seq<char>>, name: Seq<char>) -> int
    decreases names.len(),
{
    if names.len() == 0 {
        -1
    } else if names[0] == name {
        0
    } else {
        let r = name_index(names.drop_first(), name);
        if r < 0 { -1 } else { r + 1 }
    }
}

proof fn lemma_name_index(names: Seq<Seq<char>>, name: Seq<char>)
    ensures
        -1 <= name_index(names, name) < names.len(),
        name_index(names, name) >= 0 ==> names[name_index(names, name)] == name,
        forall|j: int| 0 <= j < names.len() && (j < name_index(names, name) || name_index(names, name) < 0)
            ==> #[trigger] names[j] != name,
    decreases names.len(),
{
    if names.len() > 0 {
        lemma_name_index(names.drop_first(), name);
        assert forall|j: int| 0 < j < names.len() implies #[trigger] names[j] == names.drop_first()[j - 1] by {}
    }
}

/// Among distinct names, the index of the name at position `i` is `i`: the index the editor
/// gives a variant made from a name is the position of that name.
pub proof fn lemma_name_index_of_distinct(names: Seq<Seq<char>>, i: int)
    requires
        names.no_duplicates(),
        0 <= i < names.len(),
    ensures
        name_index(names, names[i]) == i,
{
    lemma_name_index(names, names[i]);
}

/// Whether the variant at `index` of an optional value is `Some`: index 0 is `None`, index
/// 1 is `Some` of the default value.
pub open spec fn spec_optional_variant_is_some(index: usize) -> bool {
    index == 1
}

/// The index of an optional value's variant: 0 for `None`, 1 for `Some`.
pub open spec fn spec_optional_index(is_some: bool) -> usize {
    if is_some { 1 } else { 0 }
}

impl EnumPropertyEditorDefinition {
    /// The names of the variants, as character sequences.
    pub open spec fn spec_names(&self) -> Seq<Seq<char>> {
        self.names@.map_values(|s: String| s@)
    }

    /// The definition for the enumeration `value_type_id` whose variants are named
    /// `variant_names`, in order.
    pub fn new(value_type_id: u64, variant_names: Vec<String>) -> (r: Self)
        ensures
            r.value_type_id == value_type_id,
            r.names@ == variant_names@,
    {
        EnumPropertyEditorDefinition { value_type_id, names: variant_names }
    }

    /// The definition for the optional type `value_type_id`, whose variants are `None` and
    /// `Some`.
    pub fn new_optional(value_type_id: u64) -> (r: Self)
        ensures
            r.value_type_id == value_type_id,
            r.spec_names() == optional_names(),
    {
        proof {
            reveal_strlit("None");
            reveal_strlit("Some");
        }
        let none = String::from_str("None");
        let some = String::from_str("Some");
        assert(none@ =~= seq!['N', 'o', 'n', 'e']);
        assert(some@ =~= seq!['S', 'o', 'm', 'e']);
        let mut names: Vec<String> = Vec::new();
        names.push(none);
        names.push(some);
        let r = EnumPropertyEditorDefinition { value_type_id, names };
        assert(r.spec_names() =~= optional_names());
        r
    }

    /// Whether the variant an optional value's editor makes for `index` is `Some` (of the
    /// default value) rather than `None`. There are two variants.
    pub fn optional_variant_is_some(index: usize) -> (r: bool)
        requires
            index < 2,
        ensures
            r == spec_optional_variant_is_some(index),
    {
        index == 1
    }

    /// The index an optional value's editor gives the value: 0 for `None`, 1 for `Some`.
    pub fn optional_index(is_some: bool) -> (r: usize)
        ensures
            r == spec_optional_index(is_some),
            spec_optional_variant_is_some(r) == is_some,
    {
        if is_some { 1 } else { 0 }
    }

    /// The name of the variant at `index`: the variant the editor makes for that index is the
    /// one of that name.
    pub fn variant_name(&self, index: usize) -> (r: &String)
        requires
            index < self.names@.len(),
        ensures
            r@ == self.spec_names()[index as int],
    {
        &self.names[index]
    }

    /// The index of the variant named `name`, which must be one of the names.
    pub fn index_of(&self, name: &str) -> (r: usize)
        requires
            name_index(self.spec_names(), name@) >= 0,
        ensures
            r == name_index(self.spec_names(), name@),
    {
        proof {
            lemma_name_index(self.spec_names(), name@);
        }
        let mut i: usize = 0;
        while i < self.names.len()
            invariant
                i <= self.names@.len(),
                self.spec_names().len() == self.names@.len(),
                forall|j: int| 0 <= j < i ==> #[trigger] self.spec_names()[j] != name@,
                0 <= name_index(self.spec_names(), name@) < self.spec_names().len(),
                self.spec_names()[name_index(self.spec_names(), name@)] == name@,
                forall|j: int| 0 <= j < self.spec_names().len() && j < name_index(self.spec_names(), name@)
                    ==> #[trigger] self.spec_names()[j] != name@,
            decreases self.names@.len() - i,
        {
            let same = same_chars(self.names[i].as_str(), name);
            assert(self.spec_names()[i as int] == self.names@[i as int]@);
            if same {
                return i;
            }
            i = i + 1;
        }
        0
    }

    /// The message that brings the variant list in line with the edited value: when the
    /// value's variant `variant_index` is not the one selected (`selected`), the list is told
    /// to select it; otherwise nothing is sent and the nested inspector only syncs its fields.
    pub fn create_message(&self, variant_selector: Handle, variant_index: usize, selected: Option<usize>) -> (r: Option<UiMessage>)
        ensures
            r == (if selected == Some(variant_index) {
                None
            } else {
                Some(UiMessage {
                    destination: variant_selector,
                    direction: MessageDirection::ToWidget,
                    handled: false,
                    data: MessageData::DropdownList(DropdownListMessage::Selection(Some(variant_index))),
                })
            }),
    {
        let same = match selected {
            Some(s) => s == variant_index,
            None => false,
        };
        if same {
            None
        } else {
            Some(UiMessage::for_widget(variant_selector, MessageData::DropdownList(DropdownListMessage::Selection(Some(variant_index)))))
        }
    }

    /// Translates a message of the editor into a change of the enumeration named `name`: a
    /// chosen variant assigns `variant_value`, the new value of that variant; a change of the
    /// nested inspector is a change of the current value's fields.
    pub fn translate_message(&self, name: &str, message: EnumPropertyEditorMessage, variant_value: ObjectValue) -> (r: PropertyChanged)
        ensures
            r.name@ == name@,
            r.value == match message {
                EnumPropertyEditorMessage::Variant(_) => FieldKind::Object(variant_value),
                EnumPropertyEditorMessage::PropertyChanged(p) => FieldKind::Inspectable(Box::new(p)),
            },
    {
        match message {
            EnumPropertyEditorMessage::Variant(_) => PropertyChanged { name: name.to_string(), value: FieldKind::object(variant_value) },
            EnumPropertyEditorMessage::PropertyChanged(p) => PropertyChanged { name: name.to_string(), value: FieldKind::Inspectable(Box::new(p)) },
        }
    }
}

/// Builds enumeration editors.
#[derive(Copy, Clone, Debug, PartialEq, Eq, Structural)]
pub struct EnumPropertyEditorBuilder {
    pub variant_selector: Handle,
    pub sync_flag: u64,
    pub layer_index: usize,
}

impl EnumPropertyEditorBuilder {
    /// A builder with no variant list, no sync flag, at the top level.
    pub fn new() -> (r: Self)
        ensures
            r == (EnumPropertyEditorBuilder { variant_selector: Handle::spec_none(), sync_flag: 0, layer_index: 0 }),
    {
        EnumPropertyEditorBuilder { variant_selector: Handle::none(), sync_flag: 0, layer_index: 0 }
    }

    /// Sets the drop-down list of variants.
    pub fn with_variant_selector(self, variant_selector: Handle) -> (r: Self)
        ensures
            r == (EnumPropertyEditorBuilder { variant_selector, ..self }),
    {
        EnumPropertyEditorBuilder { variant_selector, ..self }
    }

    /// Sets the flag of sync messages.
    pub fn with_sync_flag(self, sync_flag: u64) -> (r: Self)
        ensures
            r == (EnumPropertyEditorBuilder { sync_flag, ..self }),
    {
        EnumPropertyEditorBuilder { sync_flag, ..self }
    }

    /// Sets the nesting level.
    pub fn with_layer_index(self, layer_index: usize) -> (r: Self)
        ensures
            r == (EnumPropertyEditorBuilder { layer_index, ..self }),
    {
        EnumPropertyEditorBuilder { layer_index, ..self }
    }

    /// The editor `handle` with the nested inspector `inspector`.
    pub fn build(self, handle: Handle, inspector: Handle) -> (r: EnumPropertyEditor)
        ensures
            r == (EnumPropertyEditor { handle, variant_selector: self.variant_selector, inspector, layer_index: self.layer_index }),
    {
        EnumPropertyEditor { handle, variant_selector: self.variant_selector, inspector, layer_index: self.layer_index }
    }
}

} // verus!
