//! The editor of hash maps: one row per entry with an editor of the key, an editor of the
//! value and a remove button, an add button that opens a dialog asking for the new key, and
//! what the editor reports about each entry. Keys are named by integer ids.

use vstd::prelude::*;
use vstd::string::StringExecFns;
use std::collections::HashMap;
use vstd::std_specs::iter::IteratorSpec;
use crate::message::{Handle, MessageDirection, UiMessage, MessageData, ButtonMessage, WindowMessage};
use crate::editors::{PropertyEditorInstance, PropertyEditorDefinitionContainer};
use crate::inspector::{FieldKind, ObjectValue};
use crate::grid::GridDimension;

verus! {

broadcast use vstd::std_specs::hash::group_hash_axioms;

/// The editors and the remove button of one entry, and the entry's value.
#[derive(Copy, Clone, Debug, PartialEq, Eq, Structural)]
pub struct Entry {
    pub key_editor: PropertyEditorInstance,
    pub value_editor: PropertyEditorInstance,
    pub remove: Handle,
    pub value: ObjectValue,
}

/// Messages of hash map editors.
#[derive(Debug)]
pub enum HashMapPropertyEditorMessage {
    /// Replaces the entries of the editor.
    Entries { hash_map: HashMap<u64, Entry> },
    /// The editor of the value of `key` reported `message`.
    ValueChanged { key: u64, message: UiMessage },
    /// The editor of `key` reported `message`.
    KeyChanged { key: u64, message: UiMessage },
    /// The entry of `key` is to be removed.
    Remove { key: u64 },
    /// An entry with the key `key` and a default value is to be inserted.
    InsertDefault { key: u64 },
}

/// What a routed message means for one entry.
#[derive(Copy, Clone, Debug, PartialEq, Eq, Structural)]
pub enum EntryEvent {
    /// The message concerns the key's editor.
    KeyChanged,
    /// The message concerns the value's editor.
    ValueChanged,
    /// The entry's remove button was clicked.
    Remove,
}

/// What `message` means for the entry `e`: a message addressed to or coming from the key's
/// editor concerns the key; otherwise one of the value's editor concerns the value; otherwise
/// a click reported by the remove button asks to remove the entry.
pub open spec fn entry_event(e: Entry, message: UiMessage) -> Option<EntryEvent> {
    if message.destination == e.key_editor.spec_editor() {
        Some(EntryEvent::KeyChanged)
    } else if message.destination == e.value_editor.spec_editor() {
        Some(EntryEvent::ValueChanged)
    } else if message.data == MessageData::Button(ButtonMessage::Click) && message.spec_is_from(e.remove) {
        Some(EntryEvent::Remove)
    } else {
        None
    }
}

/// Messages of the dialog that asks for a new key.
#[derive(Copy, Clone, Debug, PartialEq, Eq, Structural)]
pub enum SelectHashMapKeyDialogWindowMessage {
    /// The key entered.
    Key(u64),
}

/// An editor of a hash map.
#[derive(Debug)]
pub struct HashMapPropertyEditor {
    pub handle: Handle,
    /// The button that adds an entry.
    pub add: Handle,
    /// The dialog that asks for a new key, once opened.
    pub dialog: Handle,
    /// The grid that holds the rows of the entries.
    pub container: Handle,
    pub hash_map: HashMap<u64, Entry>,
}

/// The children of the grid, for the entries of `m` taken in the order `keys`: the add
/// button, then the key editor, the value editor and the remove button of each entry.
pub open spec fn children_list(add: Handle, m: Map<u64, Entry>, keys: Seq<u64>) -> Seq<Handle>
    decreases keys.len(),
{
    if keys.len() == 0 {
        seq![add]
    } else {
        let e = m[keys.last()];
        children_list(add, m, keys.drop_last()).push(e.key_editor.spec_editor()).push(e.value_editor.spec_editor()).push(e.remove)
    }
}

/// `keys` lists each key of `m` once.
pub open spec fn lists_keys<V>(keys: Seq<u64>, m: Map<u64, V>) -> bool {
    keys.to_set() == m.dom() && keys.no_duplicates()
}

/// The keys of the map, in no particular order.
fn map_keys<V>(m: &HashMap<u64, V>) -> (r: Vec<u64>)
    ensures
        lists_keys(r@, m@),
{
    let mut out: Vec<u64> = Vec::new();
    let keys = m.keys();
    let ghost all = keys.remaining();
    for k in it: keys
        invariant
            it.seq() == all,
            out@ == all.take(it.index()).unref(),
    {
        proof {
            assert(all.take(it.index() + 1).unref() == all.take(it.index()).unref().push(*k));
        }
        out.push(*k);
    }
    proof {
        assert(all.take(all.len() as int) == all);
        assert(out@ == all.unref());
        assert(out@.no_duplicates()) by {
            assert forall|i: int, j: int| 0 <= i < out@.len() && 0 <= j < out@.len() && i != j implies out@[i] != out@[j] by {
                assert(all[i] != all[j]);
            }
        }
    }
    out
}

/// The children of the grid that shows the entries of `m`: the add button, then the key
/// editor, the value editor and the remove button of each entry, entries in no particular
/// order.
pub fn make_children_list(add: Handle, m: &HashMap<u64, Entry>) -> (r: Vec<Handle>)
    ensures
        exists|keys: Seq<u64>| lists_keys(keys, m@) && r@ == children_list(add, m@, keys),
{
    let keys = map_keys(m);
    let mut out: Vec<Handle> = Vec::new();
    out.push(add);
    let mut i: usize = 0;
    while i < keys.len()
        invariant
            i <= keys@.len(),
            lists_keys(keys@, m@),
            out@ == children_list(add, m@, keys@.take(i as int)),
        decreases keys@.len() - i,
    {
        let k = keys[i];
        assert(keys@.to_set().contains(k)) by {
            assert(keys@.contains(k));
        }
        assert(keys@.take(i + 1).drop_last() == keys@.take(i as int));
        let e = *m.get(&k).unwrap();
        out.push(e.key_editor.editor());
        out.push(e.value_editor.editor());
        out.push(e.remove);
        i = i + 1;
    }
    assert(keys@.take(keys@.len() as int) == keys@);
    out
}

/// The rows of the grid: one sized to its content per entry, and one more for the add button.
pub fn make_rows(m: &HashMap<u64, Entry>) -> (r: Vec<GridDimension>)
    ensures
        r@.len() == m@.len() + 1,
        forall|i: int| 0 <= i < r@.len() ==> #[trigger] r@[i] == GridDimension::spec_auto(),
{
    let n = m.len();
    let mut rows: Vec<GridDimension> = Vec::new();
    let mut i: usize = 0;
    while i < n
        invariant
            i <= n,
            rows@.len() == i,
            forall|j: int| 0 <= j < i ==> #[trigger] rows@[j] == GridDimension::spec_auto(),
        decreases n - i,
    {
        rows.push(GridDimension::auto());
        i = i + 1;
    }
    rows.push(GridDimension::auto());
    rows
}

impl HashMapPropertyEditor {
    /// What a message routed through the editor means for the entries: for each entry the
    /// message concerns, its key and what it means, each key once, entries in no particular
    /// order.
    pub fn entry_events(&self, message: &UiMessage) -> (r: Vec<(u64, EntryEvent)>)
        ensures
            forall|i: int| 0 <= i < r@.len() ==> {
                &&& self.hash_map@.contains_key(#[trigger] r@[i].0)
                &&& entry_event(self.hash_map@[r@[i].0], *message) == Some(r@[i].1)
            },
            forall|k: u64| #[trigger] self.hash_map@.contains_key(k) && entry_event(self.hash_map@[k], *message) is Some
                ==> exists|i: int| 0 <= i < r@.len() && r@[i].0 == k,
            forall|i: int, j: int| 0 <= i < j < r@.len() ==> r@[i].0 != r@[j].0,
    {
        let keys = map_keys(&self.hash_map);
        let mut out: Vec<(u64, EntryEvent)> = Vec::new();
        let mut i: usize = 0;
        while i < keys.len()
            invariant
                i <= keys@.len(),
                lists_keys(keys@, self.hash_map@),
                forall|j: int| 0 <= j < out@.len() ==> {
                    &&& self.hash_map@.contains_key(#[trigger] out@[j].0)
                    &&& entry_event(self.hash_map@[out@[j].0], *message) == Some(out@[j].1)
                    &&& exists|t: int| 0 <= t < i && keys@[t] == out@[j].0
                },
                forall|t: int| 0 <= t < i && entry_event(self.hash_map@[keys@[t]], *message) is Some
                    ==> exists|j: int| 0 <= j < out@.len() && out@[j].0 == #[trigger] keys@[t],
                forall|a: int, b: int| 0 <= a < b < out@.len() ==> out@[a].0 != out@[b].0,
            decreases keys@.len() - i,
        {
            let k = keys[i];
            assert(keys@.to_set().contains(k)) by {
                assert(keys@.contains(k));
            }
            let e = *self.hash_map.get(&k).unwrap();
            let is_click = match &message.data {
                MessageData::Button(ButtonMessage::Click) => true,
                _ => false,
            };
            let ev = if message.destination == e.key_editor.editor() {
                Some(EntryEvent::KeyChanged)
            } else if message.destination == e.value_editor.editor() {
                Some(EntryEvent::ValueChanged)
            } else if is_click && message.is_from(e.remove) {
                Some(EntryEvent::Remove)
            } else {
                None
            };
            let ghost before = out@;
            match ev {
                Some(event) => {
                    out.push((k, event));
                    proof {
                        assert forall|a: int, b: int| 0 <= a < b < out@.len() implies out@[a].0 != out@[b].0 by {
                            if b == out@.len() - 1 {
                                let t = choose|t: int| 0 <= t < i && keys@[t] == before[a].0;
                                assert(keys@[t] != keys@[i as int]);
                            }
                        }
                        assert forall|j: int| 0 <= j < out@.len() implies exists|t: int| 0 <= t < i + 1 && keys@[t] == #[trigger] out@[j].0 by {
                            if j == out@.len() - 1 {
                                assert(keys@[i as int] == out@[j].0);
                            } else {
                                let t = choose|t: int| 0 <= t < i && keys@[t] == before[j].0;
                                assert(keys@[t] == out@[j].0);
                            }
                        }
                        assert forall|t: int| 0 <= t < i + 1 && entry_event(self.hash_map@[keys@[t]], *message) is Some
                            implies exists|j: int| 0 <= j < out@.len() && out@[j].0 == #[trigger] keys@[t] by {
                            if t == i {
                                assert(out@[out@.len() - 1].0 == keys@[t]);
                            } else {
                                let j = choose|j: int| 0 <= j < before.len() && before[j].0 == keys@[t];
                                assert(out@[j].0 == keys@[t]);
                            }
                        }
                    }
                },
                None => {},
            }
            i = i + 1;
        }
        proof {
            assert forall|k: u64| #[trigger] self.hash_map@.contains_key(k) && entry_event(self.hash_map@[k], *message) is Some
                implies exists|i: int| 0 <= i < out@.len() && out@[i].0 == k by {
                assert(keys@.to_set().contains(k));
                let t = choose|t: int| 0 <= t < keys@.len() && keys@[t] == k;
                assert(entry_event(self.hash_map@[keys@[t]], *message) is Some);
            }
        }
        out
    }

    /// The message the editor reports, as coming from itself, for the entry `key` concerned by
    /// the routed message `message` in the way `event` says.
    pub fn entry_message(key: u64, event: EntryEvent, message: &UiMessage) -> (r: HashMapPropertyEditorMessage)
        ensures
            match event {
                EntryEvent::KeyChanged => r matches HashMapPropertyEditorMessage::KeyChanged { key: k, message: m } && k == key && m.same(*message),
                EntryEvent::ValueChanged => r matches HashMapPropertyEditorMessage::ValueChanged { key: k, message: m } && k == key && m.same(*message),
                EntryEvent::Remove => r == HashMapPropertyEditorMessage::Remove { key },
            },
    {
        match event {
            EntryEvent::KeyChanged => HashMapPropertyEditorMessage::KeyChanged { key, message: message.clone() },
            EntryEvent::ValueChanged => HashMapPropertyEditorMessage::ValueChanged { key, message: message.clone() },
            EntryEvent::Remove => HashMapPropertyEditorMessage::Remove { key },
        }
    }

    /// Whether a routed message asks for a new entry: a click reported by the add button. The
    /// caller then opens the key dialog, given the keys already present (`map_keys` of the
    /// map), and remembers it with `set_dialog`.
    pub fn wants_new_key(&self, message: &UiMessage) -> (r: bool)
        ensures
            r == (message.data == MessageData::Button(ButtonMessage::Click) && message.spec_is_from(self.add)),
    {
        let is_click = match &message.data {
            MessageData::Button(ButtonMessage::Click) => true,
            _ => false,
        };
        is_click && message.is_from(self.add)
    }

    /// The keys already present, in no particular order.
    pub fn existing_keys(&self) -> (r: Vec<u64>)
        ensures
            lists_keys(r@, self.hash_map@),
    {
        map_keys(&self.hash_map)
    }

    /// Remembers the key dialog that was opened.
    pub fn set_dialog(&mut self, dialog: Handle)
        ensures
            final(self).dialog == dialog,
            final(self).handle == old(self).handle,
            final(self).add == old(self).add,
            final(self).container == old(self).container,
            final(self).hash_map@ == old(self).hash_map@,
    {
        self.dialog = dialog;
    }

    /// Replaces the entries with `hash_map`. Returns the new children of the grid and its new
    /// rows.
    pub fn set_entries(&mut self, hash_map: HashMap<u64, Entry>) -> (r: (Vec<Handle>, Vec<GridDimension>))
        ensures
            final(self).hash_map@ == hash_map@,
            final(self).handle == old(self).handle,
            final(self).add == old(self).add,
            final(self).dialog == old(self).dialog,
            final(self).container == old(self).container,
            exists|keys: Seq<u64>| lists_keys(keys, hash_map@) && r.0@ == children_list(old(self).add, hash_map@, keys),
            r.1@.len() == hash_map@.len() + 1,
            forall|i: int| 0 <= i < r.1@.len() ==> #[trigger] r.1@[i] == GridDimension::spec_auto(),
    {
        self.hash_map = hash_map;
        let children = make_children_list(self.add, &self.hash_map);
        let rows = make_rows(&self.hash_map);
        (children, rows)
    }

    /// Reacts to a message before it is routed: a key entered in the key dialog asks to insert
    /// an entry with that key and a default value.
    pub fn preview_message(&self, message: &UiMessage, key: Option<SelectHashMapKeyDialogWindowMessage>) -> (r: Option<HashMapPropertyEditorMessage>)
        ensures
            r == (match key {
                Some(SelectHashMapKeyDialogWindowMessage::Key(k)) =>
                    if message.spec_is_from(self.dialog) { Some(HashMapPropertyEditorMessage::InsertDefault { key: k }) } else { None },
                None => None,
            }),
    {
        match key {
            Some(SelectHashMapKeyDialogWindowMessage::Key(k)) => {
                if message.is_from(self.dialog) {
                    Some(HashMapPropertyEditorMessage::InsertDefault { key: k })
                } else {
                    None
                }
            },
            None => None,
        }
    }
}

/// Builds hash map editors.
#[derive(Debug)]
pub struct HashMapPropertyEditorBuilder {
    pub hash_map: HashMap<u64, Entry>,
}

impl HashMapPropertyEditorBuilder {
    /// A builder with no entries.
    pub fn new() -> (r: Self)
        ensures
            r.hash_map@ == Map::<u64, Entry>::empty(),
    {
        HashMapPropertyEditorBuilder { hash_map: HashMap::new() }
    }

    /// Sets the entries.
    pub fn with_hash_map(self, hash_map: HashMap<u64, Entry>) -> (r: Self)
        ensures
            r.hash_map@ == hash_map@,
    {
        HashMapPropertyEditorBuilder { hash_map }
    }

    /// The editor `handle` with the add button `add` and the grid `container`. Returns it,
    /// the children of the grid (the add button, then the children list of the entries, which
    /// starts with the add button again), the rows of the grid, and its three columns: sized
    /// to content, stretched, sized to content.
    pub fn build(self, handle: Handle, add: Handle, container: Handle) -> (r: (HashMapPropertyEditor, Vec<Handle>, Vec<GridDimension>, Vec<GridDimension>))
        ensures
            r.0.handle == handle,
            r.0.add == add,
            r.0.container == container,
            r.0.dialog == Handle::spec_none(),
            r.0.hash_map@ == self.hash_map@,
            exists|keys: Seq<u64>| lists_keys(keys, self.hash_map@) && r.1@ == seq![add] + children_list(add, self.hash_map@, keys),
            r.2@.len() == self.hash_map@.len() + 1,
            forall|i: int| 0 <= i < r.2@.len() ==> #[trigger] r.2@[i] == GridDimension::spec_auto(),
            r.3@ == seq![GridDimension::spec_auto(), GridDimension::spec_stretch(), GridDimension::spec_auto()],
    {
        let list = make_children_list(add, &self.hash_map);
        let mut children: Vec<Handle> = Vec::new();
        children.push(add);
        let mut list = list;
        children.append(&mut list);
        let rows = make_rows(&self.hash_map);
        let mut columns: Vec<GridDimension> = Vec::new();
        columns.push(GridDimension::auto());
        columns.push(GridDimension::stretch());
        columns.push(GridDimension::auto());
        let editor = HashMapPropertyEditor { handle, add, dialog: Handle::none(), container, hash_map: self.hash_map };
        (editor, children, rows, columns)
    }
}

/// Editor of hash maps.
#[derive(Copy, Clone, Debug, PartialEq, Eq, Structural)]
pub struct HashMapPropertyEditorDefinition {
    /// The hash map type.
    pub value_type_id: u64,
    /// The key type.
    pub key_type_id: u64,
    /// The value type.
    pub value_item_type_id: u64,
}

impl HashMapPropertyEditorDefinition {
    /// The definition for the hash map type `value_type_id` from keys of the type
    /// `key_type_id` to values of the type `value_item_type_id`.
    pub fn new(value_type_id: u64, key_type_id: u64, value_item_type_id: u64) -> (r: Self)
        ensures
            r.value_type_id == value_type_id,
            r.key_type_id == key_type_id,
            r.value_item_type_id == value_item_type_id,
    {
        HashMapPropertyEditorDefinition { value_type_id, key_type_id, value_item_type_id }
    }
}

/// A change of one entry of an edited hash map.
#[derive(Debug)]
pub enum HashMapAction {
    /// The value of the entry `key` changed in the way `action` says.
    ValueChanged { key: ObjectValue, action: FieldKind },
    /// The key `key` changed in the way `action` says.
    KeyChanged { key: ObjectValue, action: FieldKind },
    /// The entry `key` is removed.
    Remove { key: ObjectValue },
    /// An entry with the key `key` and the value `value` is inserted.
    Insert { key: ObjectValue, value: ObjectValue },
}

/// A change of the hash map property `name`.
#[derive(Debug)]
pub struct HashMapPropertyChanged {
    pub name: String,
    pub action: HashMapAction,
}

/// What to do for one entry to show the current value of the property: ask the key's
/// definition for the message that shows the key in the key editor, and the value's
/// definition for the one that shows the value in the value editor (each only where the
/// type has a definition).
#[derive(Copy, Clone, Debug, PartialEq, Eq)]
pub struct EntrySync {
    pub key: Option<(Handle, u64)>,
    pub value: Option<(Handle, ObjectValue)>,
}

/// How a hash map editor is brought up to date with the edited map.
#[derive(Debug)]
pub enum HashMapSync {
    /// The number of entries changed: the entries are made anew (`make_entries`) and handed
    /// to the editor in an `Entries` message.
    RebuildEntries,
    /// The same number of entries: the editors of each entry are told the current key and
    /// value.
    SyncEntries(Vec<EntrySync>),
}

/// The updates that pair the editor entries taken in the order `editor_keys` with the map
/// entries taken in the order `map_keys`, one by one.
pub open spec fn entry_syncs(
    editor_keys: Seq<u64>,
    entries: Map<u64, Entry>,
    map_keys: Seq<u64>,
    hash_map: Map<u64, ObjectValue>,
    has_key_definition: bool,
    has_value_definition: bool,
) -> Seq<EntrySync> {
    Seq::new(editor_keys.len(), |i: int| EntrySync {
        key: if has_key_definition { Some((entries[editor_keys[i]].key_editor.spec_editor(), map_keys[i])) } else { None },
        value: if has_value_definition { Some((entries[editor_keys[i]].value_editor.spec_editor(), hash_map[map_keys[i]])) } else { None },
    })
}

/// Whether the entry `k` gets a row: editors of both its key and its value could be made.
pub open spec fn entry_kept(k: u64, key_editors: Map<u64, PropertyEditorInstance>, value_editors: Map<u64, PropertyEditorInstance>) -> bool {
    key_editors.contains_key(k) && value_editors.contains_key(k)
}

/// The entries made for the keys `keys` in that order: one for each kept key.
pub open spec fn entries_of(
    keys: Seq<u64>,
    hash_map: Map<u64, ObjectValue>,
    key_editors: Map<u64, PropertyEditorInstance>,
    value_editors: Map<u64, PropertyEditorInstance>,
    remove_buttons: Map<u64, Handle>,
) -> Map<u64, Entry>
    decreases keys.len(),
{
    if keys.len() == 0 {
        Map::empty()
    } else {
        let k = keys.last();
        let m = entries_of(keys.drop_last(), hash_map, key_editors, value_editors, remove_buttons);
        if entry_kept(k, key_editors, value_editors) {
            m.insert(k, Entry { key_editor: key_editors[k], value_editor: value_editors[k], remove: remove_buttons[k], value: hash_map[k] })
        } else {
            m
        }
    }
}

/// Where a widget of an entry goes in the grid.
#[derive(Copy, Clone, Debug, PartialEq, Eq, Structural)]
pub struct EntryPlacement {
    pub widget: Handle,
    pub row: usize,
    pub column: usize,
}

/// The places of the widgets of the entries for the keys `keys` in that order: the entry at
/// position `i` (counting every key, kept or not) goes in row `i + 1`, below the add button,
/// with its key editor in column 0, its value editor in column 1 and its remove button in
/// column 2.
pub open spec fn placements_of(
    keys: Seq<u64>,
    key_editors: Map<u64, PropertyEditorInstance>,
    value_editors: Map<u64, PropertyEditorInstance>,
    remove_buttons: Map<u64, Handle>,
) -> Seq<EntryPlacement>
    decreases keys.len(),
{
    if keys.len() == 0 {
        Seq::empty()
    } else {
        let k = keys.last();
        let p = placements_of(keys.drop_last(), key_editors, value_editors, remove_buttons);
        let row = keys.len() as usize;
        if entry_kept(k, key_editors, value_editors) {
            p + seq![
                EntryPlacement { widget: key_editors[k].spec_editor(), row, column: 0 },
                EntryPlacement { widget: value_editors[k].spec_editor(), row, column: 1 },
                EntryPlacement { widget: remove_buttons[k], row, column: 2 },
            ]
        } else {
            p
        }
    }
}

proof fn lemma_entries_of(
    keys: Seq<u64>,
    hash_map: Map<u64, ObjectValue>,
    key_editors: Map<u64, PropertyEditorInstance>,
    value_editors: Map<u64, PropertyEditorInstance>,
    remove_buttons: Map<u64, Handle>,
)
    requires
        keys.no_duplicates(),
    ensures
        forall|k: u64| #[trigger] entries_of(keys, hash_map, key_editors, value_editors, remove_buttons).contains_key(k)
            <==> keys.contains(k) && entry_kept(k, key_editors, value_editors),
        forall|k: u64| #[trigger] entries_of(keys, hash_map, key_editors, value_editors, remove_buttons).contains_key(k)
            ==> entries_of(keys, hash_map, key_editors, value_editors, remove_buttons)[k]
                == (Entry { key_editor: key_editors[k], value_editor: value_editors[k], remove: remove_buttons[k], value: hash_map[k] }),
    decreases keys.len(),
{
    if keys.len() > 0 {
        let init = keys.drop_last();
        assert(init.no_duplicates());
        lemma_entries_of(init, hash_map, key_editors, value_editors, remove_buttons);
        assert forall|k: u64| keys.contains(k) <==> init.contains(k) || k == keys.last() by {
            if keys.contains(k) && k != keys.last() {
                let i = choose|i: int| 0 <= i < keys.len() && keys[i] == k;
                assert(init[i] == k);
            }
            if init.contains(k) {
                let i = choose|i: int| 0 <= i < init.len() && init[i] == k;
                assert(keys[i] == k);
            }
        }
        assert(!init.contains(keys.last())) by {
            if init.contains(keys.last()) {
                let i = choose|i: int| 0 <= i < init.len() && init[i] == keys.last();
                assert(keys[i] == keys[keys.len() - 1]);
            }
        }
    }
}

/// Makes the entries of the editor of `hash_map`: an entry gets a row only when an editor of
/// its key (in `key_editors`) and one of its value (in `value_editors`) could be made; the
/// others are skipped. Returns the entries, each with its editors, its remove button (from
/// `remove_buttons`) and its value, and where the widgets of each go in the grid. Entries are
/// taken in no particular order.
pub fn make_entries(
    hash_map: &HashMap<u64, ObjectValue>,
    key_editors: &HashMap<u64, PropertyEditorInstance>,
    value_editors: &HashMap<u64, PropertyEditorInstance>,
    remove_buttons: &HashMap<u64, Handle>,
) -> (r: (HashMap<u64, Entry>, Vec<EntryPlacement>))
    requires
        forall|k: u64| #[trigger] hash_map@.contains_key(k) && entry_kept(k, key_editors@, value_editors@)
            ==> remove_buttons@.contains_key(k),
    ensures
        forall|k: u64| #[trigger] r.0@.contains_key(k) <==> hash_map@.contains_key(k) && entry_kept(k, key_editors@, value_editors@),
        forall|k: u64| #[trigger] r.0@.contains_key(k)
            ==> r.0@[k] == (Entry { key_editor: key_editors@[k], value_editor: value_editors@[k], remove: remove_buttons@[k], value: hash_map@[k] }),
        exists|keys: Seq<u64>| {
            &&& lists_keys(keys, hash_map@)
            &&& r.0@ == entries_of(keys, hash_map@, key_editors@, value_editors@, remove_buttons@)
            &&& r.1@ == placements_of(keys, key_editors@, value_editors@, remove_buttons@)
        },
{
    let keys = map_keys(hash_map);
    proof {
        keys@.unique_seq_to_set();
    }
    let mut entries: HashMap<u64, Entry> = HashMap::new();
    let mut placements: Vec<EntryPlacement> = Vec::new();
    let mut i: usize = 0;
    while i < keys.len()
        invariant
            i <= keys@.len(),
            keys@.len() == hash_map@.len(),
            lists_keys(keys@, hash_map@),
            forall|k: u64| #[trigger] hash_map@.contains_key(k) && entry_kept(k, key_editors@, value_editors@)
                ==> remove_buttons@.contains_key(k),
            entries@ == entries_of(keys@.take(i as int), hash_map@, key_editors@, value_editors@, remove_buttons@),
            placements@ == placements_of(keys@.take(i as int), key_editors@, value_editors@, remove_buttons@),
        decreases keys@.len() - i,
    {
        let k = keys[i];
        assert(keys@.to_set().contains(k)) by {
            assert(keys@.contains(k));
        }
        assert(keys@.take(i + 1).drop_last() =~= keys@.take(i as int));
        assert(keys@.take(i + 1).last() == k);
        let ke = key_editors.get(&k);
        let ve = value_editors.get(&k);
        match (ke, ve) {
            (Some(key_editor), Some(value_editor)) => {
                let remove = *remove_buttons.get(&k).unwrap();
                let value = *hash_map.get(&k).unwrap();
                entries.insert(k, Entry { key_editor: *key_editor, value_editor: *value_editor, remove, value });
                let row = i + 1;
                placements.push(EntryPlacement { widget: key_editor.editor(), row, column: 0 });
                placements.push(EntryPlacement { widget: value_editor.editor(), row, column: 1 });
                placements.push(EntryPlacement { widget: remove, row, column: 2 });
                proof {
                    assert(placements@ =~= placements_of(keys@.take(i + 1), key_editors@, value_editors@, remove_buttons@));
                }
            },
            _ => {},
        }
        i = i + 1;
    }
    proof {
        assert(keys@.take(keys@.len() as int) =~= keys@);
        lemma_entries_of(keys@, hash_map@, key_editors@, value_editors@, remove_buttons@);
        assert forall|k: u64| keys@.contains(k) <==> hash_map@.contains_key(k) by {
            assert(keys@.to_set().contains(k) == keys@.contains(k));
        }
    }
    (entries, placements)
}

impl HashMapPropertyEditorDefinition {
    /// How the editor `editor` is brought up to date with the edited map `hash_map`: when
    /// the number of entries differs, the entries are made anew; otherwise the entries of the
    /// editor and those of the map, each taken in no particular order, are paired one by one,
    /// and each pair is updated as `entry_syncs` says, key editors only when the key type has
    /// a definition in `container` and value editors only when the value type has one.
    pub fn create_message(
        &self,
        container: &PropertyEditorDefinitionContainer,
        editor: &HashMapPropertyEditor,
        hash_map: &HashMap<u64, ObjectValue>,
    ) -> (r: HashMapSync)
        ensures
            hash_map@.len() != editor.hash_map@.len() <==> r is RebuildEntries,
            r matches HashMapSync::SyncEntries(v) ==> exists|editor_keys: Seq<u64>, keys: Seq<u64>| {
                &&& lists_keys(editor_keys, editor.hash_map@)
                &&& lists_keys(keys, hash_map@)
                &&& v@ == entry_syncs(editor_keys, editor.hash_map@, keys, hash_map@,
                    container@.contains_key(self.key_type_id), container@.contains_key(self.value_item_type_id))
            },
    {
        if hash_map.len() != editor.hash_map.len() {
            return HashMapSync::RebuildEntries;
        }
        let has_key_definition = container.get(self.key_type_id).is_some();
        let has_value_definition = container.get(self.value_item_type_id).is_some();
        let editor_keys = map_keys(&editor.hash_map);
        let keys = map_keys(hash_map);
        proof {
            editor_keys@.unique_seq_to_set();
            keys@.unique_seq_to_set();
        }
        let mut out: Vec<EntrySync> = Vec::new();
        let mut i: usize = 0;
        while i < editor_keys.len()
            invariant
                i <= editor_keys@.len(),
                editor_keys@.len() == keys@.len(),
                lists_keys(editor_keys@, editor.hash_map@),
                lists_keys(keys@, hash_map@),
                out@ == entry_syncs(editor_keys@.take(i as int), editor.hash_map@, keys@, hash_map@, has_key_definition, has_value_definition),
            decreases editor_keys@.len() - i,
        {
            let ek = editor_keys[i];
            let k = keys[i];
            assert(editor_keys@.to_set().contains(ek)) by {
                assert(editor_keys@.contains(ek));
            }
            assert(keys@.to_set().contains(k)) by {
                assert(keys@.contains(k));
            }
            let e = *editor.hash_map.get(&ek).unwrap();
            let v = *hash_map.get(&k).unwrap();
            let key = if has_key_definition { Some((e.key_editor.editor(), k)) } else { None };
            let value = if has_value_definition { Some((e.value_editor.editor(), v)) } else { None };
            out.push(EntrySync { key, value });
            proof {
                assert(out@ =~= entry_syncs(editor_keys@.take(i + 1), editor.hash_map@, keys@, hash_map@, has_key_definition, has_value_definition));
            }
            i = i + 1;
        }
        proof {
            assert(editor_keys@.take(editor_keys@.len() as int) =~= editor_keys@);
        }
        HashMapSync::SyncEntries(out)
    }

    /// Translates a message of a hash map editor, coming from it, into a change of the hash
    /// map property `name`. A changed value or key is a change only when its type has a
    /// definition in `container` and that definition translated the entry editor's message
    /// into `nested`; a removal removes the entry; a request to insert inserts the key with the
    /// value type's default value `default_value`; new entries change nothing.
    pub fn translate_message(
        &self,
        container: &PropertyEditorDefinitionContainer,
        name: &str,
        direction: MessageDirection,
        message: &HashMapPropertyEditorMessage,
        nested: Option<FieldKind>,
        default_value: ObjectValue,
    ) -> (r: Option<HashMapPropertyChanged>)
        ensures
            direction != MessageDirection::FromWidget ==> r is None,
            direction == MessageDirection::FromWidget ==> match *message {
                HashMapPropertyEditorMessage::ValueChanged { key, .. } =>
                    if container@.contains_key(self.value_item_type_id) && nested is Some {
                        r is Some && r->0.name@ == name@
                            && r->0.action == HashMapAction::ValueChanged { key: ObjectValue { value: key }, action: nested->0 }
                    } else {
                        r is None
                    },
                HashMapPropertyEditorMessage::KeyChanged { key, .. } =>
                    if container@.contains_key(self.key_type_id) && nested is Some {
                        r is Some && r->0.name@ == name@
                            && r->0.action == HashMapAction::KeyChanged { key: ObjectValue { value: key }, action: nested->0 }
                    } else {
                        r is None
                    },
                HashMapPropertyEditorMessage::Remove { key } =>
                    r is Some && r->0.name@ == name@ && r->0.action == HashMapAction::Remove { key: ObjectValue { value: key } },
                HashMapPropertyEditorMessage::InsertDefault { key } =>
                    r is Some && r->0.name@ == name@
                        && r->0.action == HashMapAction::Insert { key: ObjectValue { value: key }, value: default_value },
                HashMapPropertyEditorMessage::Entries { .. } => r is None,
            },
    {
        if direction != MessageDirection::FromWidget {
            return None;
        }
        match message {
            HashMapPropertyEditorMessage::ValueChanged { key, .. } => {
                if container.get(self.value_item_type_id).is_some() {
                    match nested {
                        Some(action) => Some(HashMapPropertyChanged {
                            name: name.to_string(),
                            action: HashMapAction::ValueChanged { key: ObjectValue { value: *key }, action },
                        }),
                        None => None,
                    }
                } else {
                    None
                }
            },
            HashMapPropertyEditorMessage::KeyChanged { key, .. } => {
                if container.get(self.key_type_id).is_some() {
                    match nested {
                        Some(action) => Some(HashMapPropertyChanged {
                            name: name.to_string(),
                            action: HashMapAction::KeyChanged { key: ObjectValue { value: *key }, action },
                        }),
                        None => None,
                    }
                } else {
                    None
                }
            },
            HashMapPropertyEditorMessage::Remove { key } => Some(HashMapPropertyChanged {
                name: name.to_string(),
                action: HashMapAction::Remove { key: ObjectValue { value: *key } },
            }),
            HashMapPropertyEditorMessage::InsertDefault { key } => Some(HashMapPropertyChanged {
                name: name.to_string(),
                action: HashMapAction::Insert { key: ObjectValue { value: *key }, value: default_value },
            }),
            HashMapPropertyEditorMessage::Entries { .. } => None,
        }
    }
}

/// The window that asks for the key of a new entry.
#[derive(Copy, Clone, Debug, PartialEq, Eq, Structural)]
pub struct SelectHashMapKeyDialogWindow {
    pub handle: Handle,
    pub key_editor: Handle,
    /// The key entered so far.
    pub key: u64,
    pub ok: Handle,
    pub cancel: Handle,
}

impl SelectHashMapKeyDialogWindow {
    /// Reacts to a message routed through the window: a click of OK reports the entered key,
    /// as coming from the window, and closes the window; a click of Cancel closes it.
    pub fn handle_routed_message(&self, message: &UiMessage) -> (r: (Option<SelectHashMapKeyDialogWindowMessage>, Option<UiMessage>))
        ensures
            ({
                let close = UiMessage { destination: self.handle, direction: MessageDirection::ToWidget, handled: false, data: MessageData::Window(WindowMessage::Close) };
                let clicked = message.data == MessageData::Button(ButtonMessage::Click);
                if clicked && message.spec_is_from(self.ok) {
                    r == (Some(SelectHashMapKeyDialogWindowMessage::Key(self.key)), Some(close))
                } else if clicked && message.spec_is_from(self.cancel) {
                    r == (None::<SelectHashMapKeyDialogWindowMessage>, Some(close))
                } else {
                    r == (None::<SelectHashMapKeyDialogWindowMessage>, None::<UiMessage>)
                }
            }),
    {
        let is_click = match &message.data {
            MessageData::Button(ButtonMessage::Click) => true,
            _ => false,
        };
        if is_click && message.is_from(self.ok) {
            (Some(SelectHashMapKeyDialogWindowMessage::Key(self.key)), Some(UiMessage::for_widget(self.handle, MessageData::Window(WindowMessage::Close))))
        } else if is_click && message.is_from(self.cancel) {
            (None, Some(UiMessage::for_widget(self.handle, MessageData::Window(WindowMessage::Close))))
        } else {
            (None, None)
        }
    }
}

/// Builds key dialogs.
#[derive(Debug)]
pub struct SelectHashMapKeyDialogWindowBuilder {
    /// The keys already present.
    pub existing_keys: Vec<u64>,
    /// The key the dialog starts with.
    pub initial_value: u64,
}

impl SelectHashMapKeyDialogWindowBuilder {
    /// A builder of a dialog starting with the key `initial_value`, with no keys present.
    pub fn new(initial_value: u64) -> (r: Self)
        ensures
            r.initial_value == initial_value,
            r.existing_keys@.len() == 0,
    {
        SelectHashMapKeyDialogWindowBuilder { existing_keys: Vec::new(), initial_value }
    }

    /// Sets the keys already present.
    pub fn with_existing_keys(self, existing_keys: Vec<u64>) -> (r: Self)
        ensures
            r.existing_keys@ == existing_keys@,
            r.initial_value == self.initial_value,
    {
        SelectHashMapKeyDialogWindowBuilder { existing_keys, initial_value: self.initial_value }
    }

    /// The dialog `handle` with the key editor `key_editor` (none when the key type has no
    /// definition) and OK and Cancel buttons, starting with the initial key.
    pub fn build(self, handle: Handle, key_editor: Handle, ok: Handle, cancel: Handle) -> (r: SelectHashMapKeyDialogWindow)
        ensures
            r == (SelectHashMapKeyDialogWindow { handle, key_editor, key: self.initial_value, ok, cancel }),
    {
        SelectHashMapKeyDialogWindow { handle, key_editor, key: self.initial_value, ok, cancel }
    }
}

} // verus!
