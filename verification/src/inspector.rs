//! Descriptions of property changes made in an inspector: what changed, the path of the
//! changed property, and the action that applies the change to the inspected object.

use vstd::prelude::*;
use vstd::string::StringExecFns;
use crate::message::{Handle, MessageData, MessageDirection, UiMessage, WidgetMessage};
use crate::editors::{PropertyEditorDefinitionContainer, UNIT_TYPE_ID};
use crate::text::same_chars;
use crate::ui::RcUiNodeHandle;
use crate::text::push_char;

verus! {

/// A value produced by an editor, named by the id under which the caller keeps it.
#[derive(Copy, Clone, Debug, PartialEq, Eq, Structural)]
pub struct ObjectValue {
    pub value: u64,
}

/// Messages representing a change in a collection: either adding an item, removing an item,
/// or updating an existing item.
#[derive(Debug)]
pub enum CollectionChanged {
    /// An item should be added in the collection.
    Add(ObjectValue),
    /// An item in the collection should be removed.
    Remove(usize),
    /// An item in the collection has changed one of its properties.
    ItemChanged {
        /// Index of an item in the collection.
        index: usize,
        /// The change to the item.
        property: FieldKind,
    },
}

/// Changes that can happen to inheritable variables.
#[derive(Copy, Clone, Debug, PartialEq, Eq)]
pub enum InheritableAction {
    /// Revert the variable to the value that it originally inherited.
    Revert,
}

/// An enum of the ways in which a property might be changed by an editor.
#[derive(Debug)]
pub enum FieldKind {
    /// A collection has been changed in the given way.
    Collection(Box<CollectionChanged>),
    /// A property of a nested object has been changed in the given way.
    Inspectable(Box<PropertyChanged>),
    /// A new value is being assigned to the property.
    Object(ObjectValue),
    /// The state of an inheritable property is changing.
    Inheritable(InheritableAction),
}

impl FieldKind {
    /// A new value for the property.
    pub fn object(value: ObjectValue) -> (r: Self)
        ensures
            r == FieldKind::Object(value),
    {
        FieldKind::Object(value)
    }
}

/// The details of a change to some field of some object due to being edited in an inspector.
#[derive(Debug)]
pub struct PropertyChanged {
    /// The name of the edited property.
    pub name: String,
    /// The details of the change.
    pub value: FieldKind,
}

/// The decimal digits of `n`.
pub open spec fn decimal(n: nat) -> Seq<char>
    decreases n,
{
    if n < 10 {
        seq![digit_char(n)]
    } else {
        decimal(n / 10).push(digit_char(n % 10))
    }
}

pub open spec fn digit_char(d: nat) -> char {
    if d == 0 { '0' } else if d == 1 { '1' } else if d == 2 { '2' } else if d == 3 { '3' } else if d == 4 { '4' }
    else if d == 5 { '5' } else if d == 6 { '6' } else if d == 7 { '7' } else if d == 8 { '8' } else { '9' }
}

fn digit(d: usize) -> (c: char)
    requires
        d < 10,
    ensures
        c == digit_char(d as nat),
{
    match d {
        0 => '0',
        1 => '1',
        2 => '2',
        3 => '3',
        4 => '4',
        5 => '5',
        6 => '6',
        7 => '7',
        8 => '8',
        _ => '9',
    }
}

/// Appends the decimal digits of `n`.
fn push_decimal(s: &mut String, n: usize)
    ensures
        final(s)@ == old(s)@ + decimal(n as nat),
    decreases n,
{
    if n >= 10 {
        push_decimal(s, n / 10);
    }
    push_char(s, digit(n % 10));
    proof {
        if n < 10 {
            assert(old(s)@ + decimal(n as nat) =~= old(s)@.push(digit_char(n as nat)));
        } else {
            assert(old(s)@ + decimal(n as nat) =~= (old(s)@ + decimal((n / 10) as nat)).push(digit_char((n % 10) as nat)));
        }
    }
}

/// The name under which the item `index` of the collection property `name` is shown and
/// reported: `name[index]`.
pub open spec fn item_name(name: Seq<char>, index: nat) -> Seq<char> {
    name + "["@ + decimal(index) + "]"@
}

/// The name of the item `index` of the collection property `name`: `name[index]`.
pub fn make_item_name(name: &str, index: usize) -> (r: String)
    ensures
        r@ == item_name(name@, index as nat),
{
    let mut s = name.to_string();
    s.append("[");
    push_decimal(&mut s, index);
    s.append("]");
    s
}

/// The text shown for a property in an expander: its name, followed after a blank line by
/// its description when it has one.
pub open spec fn expander_description(name: Seq<char>, description: Seq<char>) -> Seq<char> {
    if description.len() == 0 { name } else { name + seq!['\n', '\n'] + description }
}

/// The text shown for a property in an expander: its name, followed after a blank line by
/// its description when it has one.
pub fn make_expander_description(property_name: &str, property_description: &str) -> (r: String)
    ensures
        r@ == expander_description(property_name@, property_description@),
{
    let mut s = property_name.to_string();
    if property_description.unicode_len() > 0 {
        push_char(&mut s, '\n');
        push_char(&mut s, '\n');
        s.append(property_description);
        assert(s@ =~= expander_description(property_name@, property_description@));
    }
    s
}

/// The tooltip of a property: the tooltip widget `tooltip` made for its text, or none when the
/// text is empty.
pub fn make_tooltip(text: &str, tooltip: Handle) -> (r: Option<RcUiNodeHandle>)
    ensures
        text@.len() == 0 ==> r is None,
        text@.len() > 0 ==> (r matches Some(t) && t.spec_handle() == tooltip),
{
    if text.unicode_len() == 0 {
        None
    } else {
        Some(RcUiNodeHandle::new(tooltip))
    }
}

/// The path of the changed property: its name, then `[index]` for a changed collection item
/// (followed by `.` and the item's own path when the item is an object), or `.` and the
/// nested path for a changed nested object.
pub open spec fn property_path(p: PropertyChanged) -> Seq<char>
    decreases p,
{
    p.name@ + match p.value {
        FieldKind::Collection(cc) => match *cc {
            CollectionChanged::ItemChanged { index, property } => match property {
                FieldKind::Inspectable(inner) => "["@ + decimal(index as nat) + "]."@ + property_path(*inner),
                _ => "["@ + decimal(index as nat) + "]"@,
            },
            _ => Seq::empty(),
        },
        FieldKind::Inspectable(inner) => "."@ + property_path(*inner),
        _ => Seq::empty(),
    }
}

/// The path of a new value for item `index` of the collection property `name` is the item's
/// name, `name[index]`.
pub proof fn lemma_item_change_path(name: String, index: usize, value: ObjectValue)
    ensures
        property_path(PropertyChanged {
            name,
            value: FieldKind::Collection(Box::new(CollectionChanged::ItemChanged { index, property: FieldKind::Object(value) })),
        }) == item_name(name@, index as nat),
{
    let p = PropertyChanged {
        name,
        value: FieldKind::Collection(Box::new(CollectionChanged::ItemChanged { index, property: FieldKind::Object(value) })),
    };
    assert(property_path(p) =~= item_name(name@, index as nat));
}

/// Whether the change concerns an inheritable variable (possibly nested in collection items
/// and objects).
pub open spec fn spec_is_inheritable(p: PropertyChanged) -> bool
    decreases p,
{
    match p.value {
        FieldKind::Collection(cc) => match *cc {
            CollectionChanged::ItemChanged { property, .. } => match property {
                FieldKind::Inspectable(inner) => spec_is_inheritable(*inner),
                FieldKind::Inheritable(_) => true,
                _ => false,
            },
            _ => false,
        },
        FieldKind::Inspectable(inner) => spec_is_inheritable(*inner),
        FieldKind::Object(_) => false,
        FieldKind::Inheritable(_) => true,
    }
}

/// A change is inheritable when it carries an inheritable action, directly or as the changed
/// item of a collection, at any depth of nested objects: wrapping a change as a nested object's
/// change or as the change of an object item of a collection keeps whether it is inheritable;
/// an inheritable action, directly or as a collection item's change, is inheritable; a new
/// value, an added or removed item, or a new value of an item is not.
pub proof fn lemma_inheritable_changes(p: PropertyChanged, name: String, index: usize, a: InheritableAction, v: ObjectValue)
    ensures
        spec_is_inheritable(PropertyChanged { name, value: FieldKind::Inheritable(a) }),
        spec_is_inheritable(PropertyChanged {
            name,
            value: FieldKind::Collection(Box::new(CollectionChanged::ItemChanged { index, property: FieldKind::Inheritable(a) })),
        }),
        spec_is_inheritable(PropertyChanged { name, value: FieldKind::Inspectable(Box::new(p)) }) == spec_is_inheritable(p),
        spec_is_inheritable(PropertyChanged {
            name,
            value: FieldKind::Collection(Box::new(CollectionChanged::ItemChanged { index, property: FieldKind::Inspectable(Box::new(p)) })),
        }) == spec_is_inheritable(p),
        !spec_is_inheritable(PropertyChanged { name, value: FieldKind::Object(v) }),
        !spec_is_inheritable(PropertyChanged { name, value: FieldKind::Collection(Box::new(CollectionChanged::Add(v))) }),
        !spec_is_inheritable(PropertyChanged { name, value: FieldKind::Collection(Box::new(CollectionChanged::Remove(index))) }),
        !spec_is_inheritable(PropertyChanged {
            name,
            value: FieldKind::Collection(Box::new(CollectionChanged::ItemChanged { index, property: FieldKind::Object(v) })),
        }),
        spec_is_inheritable(p) ==> action_of(p.value) == PropertyAction::Revert,
    decreases p,
{
    lemma_inheritable_reverts(p);
}

proof fn lemma_inheritable_reverts(p: PropertyChanged)
    ensures
        spec_is_inheritable(p) ==> action_of(p.value) == PropertyAction::Revert,
    decreases p,
{
    match p.value {
        FieldKind::Collection(cc) => match *cc {
            CollectionChanged::ItemChanged { property, .. } => match property {
                FieldKind::Inspectable(inner) => {
                    lemma_inheritable_reverts(*inner);
                    assert(action_of(property) == action_of(inner.value));
                },
                _ => {},
            },
            _ => {},
        },
        FieldKind::Inspectable(inner) => lemma_inheritable_reverts(*inner),
        _ => {},
    }
}

impl PropertyChanged {
    /// The path of the changed property, such as `items[2].name`.
    pub fn path(&self) -> (r: String)
        ensures
            r@ == property_path(*self),
        decreases *self,
    {
        let mut path = self.name.clone();
        match &self.value {
            FieldKind::Collection(cc) => {
                match &**cc {
                    CollectionChanged::ItemChanged { index, property } => {
                        path.append("[");
                        push_decimal(&mut path, *index);
                        match property {
                            FieldKind::Inspectable(inner) => {
                                path.append("].");
                                let sub = inner.path();
                                path.append(sub.as_str());
                            },
                            _ => {
                                path.append("]");
                            },
                        }
                    },
                    _ => {},
                }
            },
            FieldKind::Inspectable(inner) => {
                path.append(".");
                let sub = inner.path();
                path.append(sub.as_str());
            },
            _ => {},
        }
        path
    }

    /// Whether the change concerns an inheritable variable.
    pub fn is_inheritable(&self) -> (r: bool)
        ensures
            r == spec_is_inheritable(*self),
        decreases *self,
    {
        match &self.value {
            FieldKind::Collection(cc) => match &**cc {
                CollectionChanged::Add(_) => false,
                CollectionChanged::Remove(_) => false,
                CollectionChanged::ItemChanged { property, .. } => match property {
                    FieldKind::Inspectable(inner) => inner.is_inheritable(),
                    FieldKind::Inheritable(_) => true,
                    _ => false,
                },
            },
            FieldKind::Inspectable(inner) => inner.is_inheritable(),
            FieldKind::Object(_) => false,
            FieldKind::Inheritable(_) => true,
        }
    }
}

/// An action for some property.
#[derive(Copy, Clone, Debug, PartialEq, Eq, Structural)]
pub enum PropertyAction {
    /// A property needs to be modified with given value.
    Modify { value: ObjectValue },
    /// An item needs to be added to a collection property.
    AddItem { value: ObjectValue },
    /// An item needs to be removed from a collection property.
    RemoveItem { index: usize },
    /// Revert value to parent.
    Revert,
}

/// The action a change asks for: following changed collection items and nested objects down
/// to a new value, an added or removed item, or a revert.
pub open spec fn action_of(f: FieldKind) -> PropertyAction
    decreases f,
{
    match f {
        FieldKind::Object(v) => PropertyAction::Modify { value: v },
        FieldKind::Collection(cc) => match *cc {
            CollectionChanged::Add(v) => PropertyAction::AddItem { value: v },
            CollectionChanged::Remove(index) => PropertyAction::RemoveItem { index },
            CollectionChanged::ItemChanged { property, .. } => action_of(property),
        },
        FieldKind::Inspectable(inner) => action_of(inner.value),
        FieldKind::Inheritable(_) => PropertyAction::Revert,
    }
}

/// How the inspected object answered the steps of applying an action: whether the property
/// path was found, whether the property is a list, whether it took the new value or item,
/// and the item it gave up on removal.
#[derive(Copy, Clone, Debug)]
pub struct TargetResponse {
    pub path_resolved: bool,
    pub is_list: bool,
    pub accepted: bool,
    pub removed: Option<ObjectValue>,
}

impl PropertyAction {
    /// Creates the action for a change, following changed collection items and nested
    /// objects.
    pub fn from_field_kind(field_kind: &FieldKind) -> (r: Self)
        ensures
            r == action_of(*field_kind),
        decreases *field_kind,
    {
        match field_kind {
            FieldKind::Object(value) => PropertyAction::Modify { value: *value },
            FieldKind::Collection(cc) => match &**cc {
                CollectionChanged::Add(value) => PropertyAction::AddItem { value: *value },
                CollectionChanged::Remove(index) => PropertyAction::RemoveItem { index: *index },
                CollectionChanged::ItemChanged { property, .. } => Self::from_field_kind(property),
            },
            FieldKind::Inspectable(inner) => Self::from_field_kind(&inner.value),
            FieldKind::Inheritable(_) => PropertyAction::Revert,
        }
    }

    /// The outcome of applying the action to an object that answered as `response` says: a
    /// new value needs the path found and the value taken; an added item needs the path
    /// found, a list, and the item taken; a removal needs the path found, a list, and an item
    /// given up, which is returned. A revert is never applied here. On failure the action is
    /// handed back.
    pub fn apply(self, response: TargetResponse) -> (r: Result<Option<ObjectValue>, PropertyAction>)
        ensures
            r == match self {
                PropertyAction::Modify { .. } => if response.path_resolved && response.accepted { Ok(None) } else { Err(self) },
                PropertyAction::AddItem { .. } => if response.path_resolved && response.is_list && response.accepted { Ok(None) } else { Err(self) },
                PropertyAction::RemoveItem { .. } => if response.path_resolved && response.is_list && response.removed is Some { Ok(response.removed) } else { Err(self) },
                PropertyAction::Revert => Err(self),
            },
    {
        match self {
            PropertyAction::Modify { .. } => {
                if response.path_resolved && response.accepted { Ok(None) } else { Err(self) }
            },
            PropertyAction::AddItem { .. } => {
                if response.path_resolved && response.is_list && response.accepted { Ok(None) } else { Err(self) }
            },
            PropertyAction::RemoveItem { .. } => {
                if response.path_resolved && response.is_list && response.removed.is_some() {
                    Ok(response.removed)
                } else {
                    Err(self)
                }
            },
            PropertyAction::Revert => Err(self),
        }
    }
}

/// An error that may be produced by an inspector.
#[derive(Debug)]
pub enum InspectorError {
    /// A value did not have its expected type; the description of the failed cast.
    CastError(String),
    /// The object type has changed and the inspector context is no longer valid.
    OutOfSync,
    /// An error message produced by some editor.
    Custom(String),
    /// Several errors of the editors of one inspector.
    Group(Vec<InspectorError>),
}

/// The handles of the context menu of an inspector.
#[derive(Debug)]
pub struct Menu {
    /// The "Copy Value as String" menu item.
    pub copy_value_as_string: Handle,
    /// The menu as a whole.
    pub menu: Option<RcUiNodeHandle>,
}

impl Default for Menu {
    fn default() -> (r: Menu)
        ensures
            r.copy_value_as_string.spec_is_none(),
            r.menu is None,
    {
        Menu { copy_value_as_string: Handle { index: 0, generation: 0 }, menu: None }
    }
}

/// Decides which fields of an object an inspector shows: all of them without a function,
/// otherwise those the function accepts.
pub struct PropertyFilter<F: Fn(ObjectValue) -> bool> {
    pub func: Option<F>,
}

impl<F: Fn(ObjectValue) -> bool> PropertyFilter<F> {
    /// A filter that uses `func`.
    pub fn new(func: F) -> (r: Self)
        ensures
            r.func == Some(func),
    {
        PropertyFilter { func: Some(func) }
    }

    /// A filter that accepts every field.
    pub fn all() -> (r: Self)
        ensures
            r.func is None,
    {
        PropertyFilter { func: None }
    }

    /// Whether the field is shown.
    pub fn pass(&self, value: ObjectValue) -> (r: bool)
        requires
            self.func matches Some(f) ==> f.requires((value,)),
        ensures
            self.func is None ==> r,
            self.func matches Some(f) ==> f.ensures((value,), r),
    {
        match &self.func {
            None => true,
            Some(f) => f(value),
        }
    }
}

/// One field of an inspected object, as reflection hands it out.
#[derive(Debug)]
pub struct InspectedField {
    pub name: String,
    pub display_name: String,
    /// The field's documentation, possibly empty.
    pub description: String,
    pub tag: String,
    /// The field's value, by the id under which the caller keeps it.
    pub value: ObjectValue,
    /// The id and the name of the field's type.
    pub type_id: u64,
    pub value_type_name: String,
    pub read_only: bool,
}

/// What an inspector shows for one field of the inspected object.
#[derive(Debug)]
pub enum FieldPlan {
    /// The filter hides the field.
    Skip,
    /// An editor made by the definition registered for the type `value_type_id`, with the
    /// description shown for the property, disabled when the field is read-only.
    Editor { value_type_id: u64, description: String, disabled: bool },
    /// No definition edits the field's type: a text saying so stands in for the editor.
    Missing { description: String, message: String },
}

/// The text that stands in for the editor of a field of the type named `value_type_name` when no
/// definition edits that type.
pub open spec fn missing_editor_text(value_type_name: Seq<char>) -> Seq<char> {
    "Property Editor Is Missing For Type "@ + value_type_name + "!"@
}

/// What an inspector shows for each field of an object, in order: nothing for a field that
/// the filter hides; an editor made by the definition of the field's type in `definitions`,
/// described by the display name followed, after a blank line, by the documentation when there
/// is some, and disabled for a read-only field; otherwise a text saying that the type has no
/// editor.
pub fn from_object_plan<F: Fn(ObjectValue) -> bool>(
    definitions: &PropertyEditorDefinitionContainer,
    fields: &[InspectedField],
    filter: &PropertyFilter<F>,
) -> (r: Vec<FieldPlan>)
    requires
        filter.func matches Some(f) ==> forall|i: int| 0 <= i < fields@.len() ==> f.requires((#[trigger] fields@[i].value,)),
    ensures
        r@.len() == fields@.len(),
        forall|i: int| 0 <= i < r@.len() ==> {
            let field = fields@[i];
            &&& (#[trigger] r@[i]) is Skip ==> (filter.func matches Some(f) && f.ensures((field.value,), false))
            &&& !(r@[i] is Skip) ==> (filter.func is None || (filter.func matches Some(f) && f.ensures((field.value,), true)))
            &&& !(r@[i] is Skip) && definitions@.contains_key(field.type_id) ==> (r@[i] matches FieldPlan::Editor { value_type_id, description, disabled }
                && value_type_id == definitions@[field.type_id].property_editor.spec_value_type_id()
                && description@ == expander_description(field.display_name@, field.description@)
                && disabled == field.read_only)
            &&& !(r@[i] is Skip) && !definitions@.contains_key(field.type_id) ==> (r@[i] matches FieldPlan::Missing { description, message }
                && description@ == expander_description(field.display_name@, field.description@)
                && message@ == missing_editor_text(field.value_type_name@))
        },
{
    let mut out: Vec<FieldPlan> = Vec::new();
    let mut i: usize = 0;
    while i < fields.len()
        invariant
            i <= fields@.len(),
            out@.len() == i,
            filter.func matches Some(f) ==> forall|j: int| 0 <= j < fields@.len() ==> f.requires((#[trigger] fields@[j].value,)),
            forall|j: int| 0 <= j < i ==> {
                let field = fields@[j];
                &&& (#[trigger] out@[j]) is Skip ==> (filter.func matches Some(f) && f.ensures((field.value,), false))
                &&& !(out@[j] is Skip) ==> (filter.func is None || (filter.func matches Some(f) && f.ensures((field.value,), true)))
                &&& !(out@[j] is Skip) && definitions@.contains_key(field.type_id) ==> (out@[j] matches FieldPlan::Editor { value_type_id, description, disabled }
                    && value_type_id == definitions@[field.type_id].property_editor.spec_value_type_id()
                    && description@ == expander_description(field.display_name@, field.description@)
                    && disabled == field.read_only)
                &&& !(out@[j] is Skip) && !definitions@.contains_key(field.type_id) ==> (out@[j] matches FieldPlan::Missing { description, message }
                    && description@ == expander_description(field.display_name@, field.description@)
                    && message@ == missing_editor_text(field.value_type_name@))
            },
        decreases fields@.len() - i,
    {
        let field = &fields[i];
        assert(filter.func matches Some(f) ==> f.requires((fields@[i as int].value,)));
        let shown = filter.pass(field.value);
        if !shown {
            out.push(FieldPlan::Skip);
        } else {
            let description = make_expander_description(field.display_name.as_str(), field.description.as_str());
            match definitions.get(field.type_id) {
                Some(entry) => {
                    out.push(FieldPlan::Editor {
                        value_type_id: entry.property_editor.value_type_id(),
                        description,
                        disabled: field.read_only,
                    });
                },
                None => {
                    proof {
                        reveal_strlit("Property Editor Is Missing For Type ");
                        reveal_strlit("!");
                    }
                    let mut message = String::from_str("Property Editor Is Missing For Type ");
                    message.append(field.value_type_name.as_str());
                    message.append("!");
                    out.push(FieldPlan::Missing { description, message });
                },
            }
        }
        i = i + 1;
    }
    out
}

/// What an inspector shows for one property: its names and tag, the type of its value, the
/// editor widget, the container widget around the editor, and the text of its value (empty
/// unless asked for).
#[derive(Debug)]
pub struct ContextEntry {
    pub property_name: String,
    pub property_display_name: String,
    pub property_tag: String,
    pub property_value_type_id: u64,
    pub property_editor: Handle,
    pub property_debug_output: String,
    pub property_container: Handle,
}

/// What an inspector currently shows: the panel of editors, the context menu, one entry per
/// property in order, the flag that marks the messages it sends to keep editors in step, and
/// the type of the inspected object.
#[derive(Debug)]
pub struct InspectorContext {
    pub stack_panel: Handle,
    pub menu: Menu,
    pub entries: Vec<ContextEntry>,
    pub sync_flag: u64,
    pub object_type_id: u64,
}

/// The index of the first entry whose name (or tag, with `by_tag`) is `key`, or -1.
pub open spec fn first_entry(entries: Seq<ContextEntry>, key: Seq<char>, by_tag: bool) -> int
    decreases entries.len(),
{
    if entries.len() == 0 {
        -1
    } else if (if by_tag { entries[0].property_tag@ } else { entries[0].property_name@ }) == key {
        0
    } else {
        let r = first_entry(entries.drop_first(), key, by_tag);
        if r < 0 { -1 } else { r + 1 }
    }
}

proof fn lemma_first_entry(entries: Seq<ContextEntry>, key: Seq<char>, by_tag: bool)
    ensures
        -1 <= first_entry(entries, key, by_tag) < entries.len(),
        first_entry(entries, key, by_tag) >= 0 ==> (if by_tag {
            entries[first_entry(entries, key, by_tag)].property_tag@
        } else {
            entries[first_entry(entries, key, by_tag)].property_name@
        }) == key,
        forall|j: int| 0 <= j < entries.len() && (j < first_entry(entries, key, by_tag) || first_entry(entries, key, by_tag) < 0)
            ==> (if by_tag { (#[trigger] entries[j]).property_tag@ } else { entries[j].property_name@ }) != key,
    decreases entries.len(),
{
    if entries.len() > 0 {
        lemma_first_entry(entries.drop_first(), key, by_tag);
        assert forall|j: int| 0 < j < entries.len() implies #[trigger] entries[j] == entries.drop_first()[j - 1] by {}
    }
}

/// One property of the inspected object as a sync sees it: its name, the type of its value,
/// and whether the inspector's filter shows it.
#[derive(Debug)]
pub struct SyncField {
    pub name: String,
    pub value_type_id: u64,
    pub shown: bool,
}

/// What a sync does for one property.
#[derive(Copy, Clone, Debug, PartialEq, Eq, Structural)]
pub enum SyncStep {
    /// Nothing: the property is filtered out or its type has no editor definition.
    Skip,
    /// Bring the editor of the entry with this index in line with the value.
    Update(usize),
    /// The inspector has no entry for the property: it no longer matches the object.
    OutOfSync,
}

/// What a sync does for the property `f`.
pub open spec fn sync_step(entries: Seq<ContextEntry>, definitions: Map<u64, crate::editors::PropertyEditorDefinitionContainerEntry>, f: SyncField) -> SyncStep {
    if !f.shown || !definitions.contains_key(f.value_type_id) {
        SyncStep::Skip
    } else if first_entry(entries, f.name@, false) >= 0 {
        SyncStep::Update(first_entry(entries, f.name@, false) as usize)
    } else {
        SyncStep::OutOfSync
    }
}

impl Default for InspectorContext {
    fn default() -> (r: Self)
        ensures
            r.stack_panel == Handle::spec_none(),
            r.menu.copy_value_as_string == Handle::spec_none(),
            r.menu.menu is None,
            r.entries@.len() == 0,
            r.sync_flag == 0,
            r.object_type_id == UNIT_TYPE_ID,
    {
        InspectorContext { stack_panel: Handle::none(), menu: Menu::default(), entries: Vec::new(), sync_flag: 0, object_type_id: UNIT_TYPE_ID }
    }
}

impl InspectorContext {
    fn find_entry(&self, key: &str, by_tag: bool) -> (r: Option<usize>)
        ensures
            match r {
                Some(i) => i == first_entry(self.entries@, key@, by_tag) && i < self.entries@.len(),
                None => first_entry(self.entries@, key@, by_tag) < 0,
            },
    {
        proof {
            lemma_first_entry(self.entries@, key@, by_tag);
        }
        let mut i: usize = 0;
        while i < self.entries.len()
            invariant
                i <= self.entries@.len(),
                forall|j: int| 0 <= j < i ==> (if by_tag { (#[trigger] self.entries@[j]).property_tag@ } else { self.entries@[j].property_name@ }) != key@,
                -1 <= first_entry(self.entries@, key@, by_tag) < self.entries@.len(),
                first_entry(self.entries@, key@, by_tag) >= 0 ==> (if by_tag {
                    self.entries@[first_entry(self.entries@, key@, by_tag)].property_tag@
                } else {
                    self.entries@[first_entry(self.entries@, key@, by_tag)].property_name@
                }) == key@,
                forall|j: int| 0 <= j < self.entries@.len() && (j < first_entry(self.entries@, key@, by_tag) || first_entry(self.entries@, key@, by_tag) < 0)
                    ==> (if by_tag { (#[trigger] self.entries@[j]).property_tag@ } else { self.entries@[j].property_name@ }) != key@,
            decreases self.entries@.len() - i,
        {
            let e = &self.entries[i];
            let same = if by_tag { same_chars(e.property_tag.as_str(), key) } else { same_chars(e.property_name.as_str(), key) };
            if same {
                return Some(i);
            }
            i = i + 1;
        }
        None
    }

    /// The entry of the property named `name`: the first one with that name.
    pub fn find_property_editor(&self, name: &str) -> (r: Option<&ContextEntry>)
        ensures
            first_entry(self.entries@, name@, false) < 0 ==> r is None,
            first_entry(self.entries@, name@, false) >= 0 ==> r == Some(&self.entries@[first_entry(self.entries@, name@, false)]),
    {
        match self.find_entry(name, false) {
            Some(i) => Some(&self.entries[i]),
            None => None,
        }
    }

    /// The entry of the property tagged `tag`: the first one with that tag.
    pub fn find_property_editor_by_tag(&self, tag: &str) -> (r: Option<&ContextEntry>)
        ensures
            first_entry(self.entries@, tag@, true) < 0 ==> r is None,
            first_entry(self.entries@, tag@, true) >= 0 ==> r == Some(&self.entries@[first_entry(self.entries@, tag@, true)]),
    {
        match self.find_entry(tag, true) {
            Some(i) => Some(&self.entries[i]),
            None => None,
        }
    }

    /// The editor widget of the property named `name`, or none.
    pub fn find_property_editor_widget(&self, name: &str) -> (r: Handle)
        ensures
            first_entry(self.entries@, name@, false) < 0 ==> r == Handle::spec_none(),
            first_entry(self.entries@, name@, false) >= 0 ==> r == self.entries@[first_entry(self.entries@, name@, false)].property_editor,
    {
        match self.find_entry(name, false) {
            Some(i) => self.entries[i].property_editor,
            None => Handle::none(),
        }
    }

    /// What bringing the editors in line with an object of the type `object_type_id`, whose
    /// properties are `fields`, takes: an object of another type puts the inspector out of
    /// sync altogether; otherwise each property, in order, is skipped when filtered out or
    /// without an editor definition, updated through the first entry with its name, or found
    /// out of sync when no entry has its name.
    pub fn sync_steps(
        &self,
        definitions: &PropertyEditorDefinitionContainer,
        object_type_id: u64,
        fields: &[SyncField],
    ) -> (r: Result<Vec<SyncStep>, Vec<InspectorError>>)
        ensures
            object_type_id != self.object_type_id ==> (r matches Err(errors) && errors@.len() == 1 && errors@[0] is OutOfSync),
            object_type_id == self.object_type_id ==> (r matches Ok(steps) && steps@.len() == fields@.len()
                && forall|i: int| 0 <= i < fields@.len() ==> steps@[i] == sync_step(self.entries@, definitions@, #[trigger] fields@[i])),
    {
        if object_type_id != self.object_type_id {
            let mut errors: Vec<InspectorError> = Vec::new();
            errors.push(InspectorError::OutOfSync);
            return Err(errors);
        }
        let mut steps: Vec<SyncStep> = Vec::new();
        let mut i: usize = 0;
        while i < fields.len()
            invariant
                i <= fields@.len(),
                steps@.len() == i,
                forall|j: int| 0 <= j < i ==> steps@[j] == sync_step(self.entries@, definitions@, #[trigger] fields@[j]),
            decreases fields@.len() - i,
        {
            let f = &fields[i];
            let step = if !f.shown || definitions.get(f.value_type_id).is_none() {
                SyncStep::Skip
            } else {
                match self.find_entry(f.name.as_str(), false) {
                    Some(k) => SyncStep::Update(k),
                    None => SyncStep::OutOfSync,
                }
            };
            steps.push(step);
            i = i + 1;
        }
        Ok(steps)
    }
}

/// The outcome of a sync: success when nothing went wrong, else the errors, in order.
pub fn finish_sync(errors: Vec<InspectorError>) -> (r: Result<(), Vec<InspectorError>>)
    ensures
        errors@.len() == 0 ==> r is Ok,
        errors@.len() > 0 ==> (r matches Err(e) && e@ == errors@),
{
    if errors.len() == 0 { Ok(()) } else { Err(errors) }
}

/// A widget that shows the properties of an object, each with an editor.
#[derive(Debug)]
pub struct Inspector {
    pub handle: Handle,
    pub context: InspectorContext,
}

/// The message that asks `child` to leave its parent.
pub open spec fn remove_child_message(child: Handle) -> UiMessage {
    UiMessage { destination: child, direction: MessageDirection::ToWidget, handled: false, data: MessageData::Widget(WidgetMessage::Remove) }
}

/// The index of the first entry whose container is `container`, or -1.
pub open spec fn entry_of_container(entries: Seq<ContextEntry>, container: Handle) -> int
    decreases entries.len(),
{
    if entries.len() == 0 {
        -1
    } else if entries[0].property_container == container {
        0
    } else {
        let r = entry_of_container(entries.drop_first(), container);
        if r < 0 { -1 } else { r + 1 }
    }
}

proof fn lemma_entry_of_container(entries: Seq<ContextEntry>, container: Handle)
    ensures
        -1 <= entry_of_container(entries, container) < entries.len(),
        entry_of_container(entries, container) >= 0 ==> entries[entry_of_container(entries, container)].property_container == container,
        forall|j: int| 0 <= j < entries.len() && (j < entry_of_container(entries, container) || entry_of_container(entries, container) < 0)
            ==> (#[trigger] entries[j]).property_container != container,
    decreases entries.len(),
{
    if entries.len() > 0 {
        lemma_entry_of_container(entries.drop_first(), container);
        assert forall|j: int| 0 < j < entries.len() implies #[trigger] entries[j] == entries.drop_first()[j - 1] by {}
    }
}

/// The entries whose value text a copy from the context menu puts on the clipboard, in turn,
/// for the widget the menu was opened on and its ancestors (`chain`, the widget first): for
/// each of them, the first entry whose container it is.
pub open spec fn entries_copied(entries: Seq<ContextEntry>, chain: Seq<Handle>) -> Seq<usize>
    decreases chain.len(),
{
    if chain.len() == 0 {
        Seq::empty()
    } else {
        let rest = entries_copied(entries, chain.drop_last());
        let k = entry_of_container(entries, chain.last());
        if k >= 0 { rest.push(k as usize) } else { rest }
    }
}

impl Inspector {
    /// The context the inspector shows.
    pub fn context(&self) -> (r: &InspectorContext)
        ensures
            r == &self.context,
    {
        &self.context
    }

    /// Replaces the context: the current children of the inspector (`children`) are removed,
    /// the new panel of editors is linked to the inspector, and the new context is kept.
    /// Returns those messages.
    pub fn set_context(&mut self, context: InspectorContext, children: &[Handle]) -> (out: Vec<UiMessage>)
        ensures
            final(self).handle == old(self).handle,
            final(self).context == context,
            out@.len() == children@.len() + 1,
            forall|i: int| 0 <= i < children@.len() ==> out@[i] == remove_child_message(#[trigger] children@[i]),
            out@[children@.len() as int] == (UiMessage {
                destination: context.stack_panel,
                direction: MessageDirection::ToWidget,
                handled: false,
                data: MessageData::Widget(WidgetMessage::LinkWith(old(self).handle)),
            }),
    {
        let mut out: Vec<UiMessage> = Vec::new();
        let mut i: usize = 0;
        while i < children.len()
            invariant
                i <= children@.len(),
                out@.len() == i,
                forall|j: int| 0 <= j < i ==> out@[j] == remove_child_message(#[trigger] children@[j]),
            decreases children@.len() - i,
        {
            out.push(UiMessage::for_widget(children[i], MessageData::Widget(WidgetMessage::Remove)));
            i = i + 1;
        }
        out.push(UiMessage::for_widget(context.stack_panel, MessageData::Widget(WidgetMessage::LinkWith(self.handle))));
        self.context = context;
        out
    }

    /// The entries whose editor a message addressed to or coming from `destination` concerns,
    /// in order, unless the message carries the inspector's own sync flag (`flags`): each of
    /// them translates the message into a change it reports.
    pub fn entries_to_translate(&self, destination: Handle, flags: u64) -> (r: Vec<usize>)
        ensures
            flags == self.context.sync_flag ==> r@.len() == 0,
            flags != self.context.sync_flag ==> ({
                &&& forall|i: int| 0 <= i < r@.len() ==> (#[trigger] r@[i]) < self.context.entries@.len()
                    && self.context.entries@[r@[i] as int].property_editor == destination
                &&& forall|i: int, j: int| 0 <= i < j < r@.len() ==> r@[i] < r@[j]
                &&& forall|k: int| 0 <= k < self.context.entries@.len() && (#[trigger] self.context.entries@[k]).property_editor == destination
                    ==> r@.contains(k as usize)
            }),
    {
        let mut r: Vec<usize> = Vec::new();
        if flags == self.context.sync_flag {
            return r;
        }
        let n = self.context.entries.len();
        let mut k: usize = 0;
        while k < n
            invariant
                n == self.context.entries@.len(),
                k <= n,
                forall|i: int| 0 <= i < r@.len() ==> (#[trigger] r@[i]) < k
                    && self.context.entries@[r@[i] as int].property_editor == destination,
                forall|i: int, j: int| 0 <= i < j < r@.len() ==> r@[i] < r@[j],
                forall|m: int| 0 <= m < k && (#[trigger] self.context.entries@[m]).property_editor == destination
                    ==> r@.contains(m as usize),
            decreases n - k,
        {
            if self.context.entries[k].property_editor == destination {
                let ghost before = r@;
                r.push(k);
                proof {
                    assert forall|m: int| 0 <= m < k + 1 && (#[trigger] self.context.entries@[m]).property_editor == destination
                        implies r@.contains(m as usize) by {
                        if m < k {
                            let t = choose|t: int| 0 <= t < before.len() && before[t] == m as usize;
                            assert(r@[t] == m as usize);
                        } else {
                            assert(r@[r@.len() - 1] == k);
                        }
                    }
                }
            }
            k = k + 1;
        }
        r
    }

    /// The entries whose value text the "copy value" menu item puts on the clipboard, in turn,
    /// for the widget the menu was opened on and its ancestors (`chain`, that widget first);
    /// the clipboard ends with the last.
    pub fn copied_entries(&self, chain: &[Handle]) -> (r: Vec<usize>)
        ensures
            r@ == entries_copied(self.context.entries@, chain@),
    {
        let mut r: Vec<usize> = Vec::new();
        let mut i: usize = 0;
        while i < chain.len()
            invariant
                i <= chain@.len(),
                r@ == entries_copied(self.context.entries@, chain@.take(i as int)),
            decreases chain@.len() - i,
        {
            assert(chain@.take(i + 1).drop_last() == chain@.take(i as int));
            let h = chain[i];
            proof {
                lemma_entry_of_container(self.context.entries@, h);
            }
            let mut k: usize = 0;
            let mut found: Option<usize> = None;
            while k < self.context.entries.len()
                invariant_except_break
                    found is None,
                invariant
                    k <= self.context.entries@.len(),
                    forall|j: int| 0 <= j < k ==> (#[trigger] self.context.entries@[j]).property_container != h,
                    -1 <= entry_of_container(self.context.entries@, h) < self.context.entries@.len(),
                    entry_of_container(self.context.entries@, h) >= 0 ==> self.context.entries@[entry_of_container(self.context.entries@, h)].property_container == h,
                    forall|j: int| 0 <= j < self.context.entries@.len() && (j < entry_of_container(self.context.entries@, h) || entry_of_container(self.context.entries@, h) < 0)
                        ==> (#[trigger] self.context.entries@[j]).property_container != h,
                ensures
                    found matches Some(x) ==> x == entry_of_container(self.context.entries@, h),
                    found is None ==> entry_of_container(self.context.entries@, h) < 0,
                decreases self.context.entries@.len() - k,
            {
                if self.context.entries[k].property_container == h {
                    found = Some(k);
                    break;
                }
                k = k + 1;
            }
            match found {
                Some(x) => r.push(x),
                None => {},
            }
            i = i + 1;
        }
        assert(chain@.take(chain@.len() as int) == chain@);
        r
    }
}

/// Builds inspectors.
#[derive(Debug)]
pub struct InspectorBuilder {
    pub context: InspectorContext,
}

impl InspectorBuilder {
    /// A builder with the default context.
    pub fn new() -> (r: Self)
        ensures
            r.context.entries@.len() == 0,
            r.context.stack_panel == Handle::spec_none(),
            r.context.menu.copy_value_as_string == Handle::spec_none(),
            r.context.menu.menu is None,
            r.context.sync_flag == 0,
            r.context.object_type_id == UNIT_TYPE_ID,
    {
        InspectorBuilder { context: InspectorContext::default() }
    }

    /// Sets the context.
    pub fn with_context(self, context: InspectorContext) -> (r: Self)
        ensures
            r.context == context,
    {
        InspectorBuilder { context }
    }

    /// Sets the context when one is given; otherwise keeps the current one.
    pub fn with_opt_context(self, context: Option<InspectorContext>) -> (r: Self)
        ensures
            r.context == match context {
                Some(c) => c,
                None => self.context,
            },
    {
        match context {
            Some(c) => InspectorBuilder { context: c },
            None => self,
        }
    }

    /// The inspector `handle`, whose child is the context's panel of editors.
    pub fn build(self, handle: Handle) -> (r: Inspector)
        ensures
            r.handle == handle,
            r.context == self.context,
    {
        Inspector { handle, context: self.context }
    }
}

} // verus!
