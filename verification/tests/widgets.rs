use std::collections::HashMap;

use fyrox_ui::editors::{
    HotKeyPropertyEditorDefinition, KeyBindingPropertyEditorDefinition, NumericPropertyEditorDefinition,
    PropertyEditorDefinition, PropertyEditorDefinitionContainer, RectPropertyEditorDefinition,
    StringPropertyEditorDefinition,
};
use fyrox_ui::key::{HotKey, HotKeyEditorMessage, KeyBinding};
use fyrox_ui::message::KeyCode;

use fyrox_ui::editors::PropertyEditorInstance;
use fyrox_ui::enumeration::{
    EnumPropertyEditor, EnumPropertyEditorDefinition, EnumPropertyEditorInput, EnumPropertyEditorMessage,
    EnumPropertyEditorOutput, LOCAL_SYNC_FLAG,
};
use fyrox_ui::grid::GridDimension;
use fyrox_ui::hashmap::{
    make_children_list, make_entries, make_rows, Entry, EntryEvent, HashMapAction, HashMapPropertyEditor,
    HashMapPropertyEditorBuilder, HashMapPropertyEditorDefinition, HashMapPropertyEditorMessage, HashMapSync,
    SelectHashMapKeyDialogWindowBuilder, SelectHashMapKeyDialogWindowMessage,
};
use fyrox_ui::inspector::{FieldKind, ObjectValue, PropertyChanged};
use fyrox_ui::list_view::ListViewMessage;
use fyrox_ui::message::{
    ButtonMessage, DropdownListMessage, Handle, MessageData, MessageDirection, TextMessage, UiMessage, WidgetMessage,
    WindowMessage,
};
use fyrox_ui::style::{
    matching_property_names, StyleProperty, StyledPropertyEditorBuilder, StyledPropertyEditorDefinition,
    StyledPropertyEditorMessage, StyledPropertySelectorBuilder, StyledPropertySelectorMessage,
};
use fyrox_ui::texture_slice::{
    NumericUpDownMessage, RectEditorMessage, TextureSlice, TextureSliceEditorMessage, TextureSliceEditorWindowBuilder,
    TextureSliceFieldEditorBuilder, TextureSlicePropertyEditorDefinition, URect,
};

fn h(i: u32) -> Handle {
    Handle::new(i, 1)
}

fn props() -> Vec<StyleProperty> {
    vec![
        StyleProperty { name: "Brush.Bright".into(), value_type_id: 1 },
        StyleProperty { name: "Font.Size".into(), value_type_id: 2 },
        StyleProperty { name: "Brush.Dark".into(), value_type_id: 1 },
    ]
}

#[test]
fn selector_lists_properties_of_the_type_and_selects_the_bound_one() {
    assert_eq!(matching_property_names(&props(), 1), vec!["Brush.Bright".to_string(), "Brush.Dark".to_string()]);
    let (sel, selection, bring) = StyledPropertySelectorBuilder::new("Pick".into()).build(
        h(1), h(2), h(3), h(4), &props(), 1, "Brush.Dark".into(), &[h(10), h(11)],
    );
    assert_eq!(selection, vec![1]);
    assert_eq!(bring, Some(UiMessage::for_widget(h(2), MessageData::ListView(ListViewMessage::BringItemIntoView(h(11))))));
    assert_eq!(sel.title, "Pick");
    let (_, selection, bring) = StyledPropertySelectorBuilder::new("Pick".into()).build(
        h(1), h(2), h(3), h(4), &props(), 1, "Missing".into(), &[h(10), h(11)],
    );
    assert!(selection.is_empty());
    assert!(bring.is_none());
}

#[test]
fn selector_window_opens_modal() {
    let (sel, _, out, window) = StyledPropertySelectorBuilder::build_and_open_window(h(1), h(2), h(3), h(4), &props(), 2, String::new(), &[h(10)]);
    assert!(window.remove_on_close);
    assert!(!window.open);
    assert_eq!(sel.title, "Select A Style Property");
    assert_eq!(out.len(), 1);
    assert!(matches!(out[0].data, MessageData::Window(WindowMessage::Open { modal: true, focus_content: true, .. })));
}

#[test]
fn selector_picks_and_confirms() {
    let (mut sel, _, _) = StyledPropertySelectorBuilder::new("Pick".into()).build(
        h(1), h(2), h(3), h(4), &props(), 1, String::new(), &[h(10), h(11)],
    );
    let pick = ListViewMessage::selection(h(2), MessageDirection::FromWidget, vec![1]);
    assert!(sel.handle_routed_message(&pick).is_empty());
    assert_eq!(sel.style_property_name, "Brush.Dark");
    let ok = UiMessage::from_widget(h(3), MessageData::Button(ButtonMessage::Click));
    let out = sel.handle_routed_message(&ok);
    assert_eq!(out[0], UiMessage::from_widget(h(1), MessageData::StyledPropertySelector(StyledPropertySelectorMessage::PropertyName("Brush.Dark".into()))));
    assert_eq!(out[1], UiMessage::for_widget(h(1), MessageData::Window(WindowMessage::Close)));
    let cancel = UiMessage::from_widget(h(4), MessageData::Button(ButtonMessage::Click));
    assert_eq!(sel.handle_routed_message(&cancel), vec![UiMessage::for_widget(h(1), MessageData::Window(WindowMessage::Close))]);
}

#[test]
fn styled_editor_binds_and_forwards() {
    let (mut editor, bound, tooltip, preview) = StyledPropertyEditorBuilder::new()
        .with_inner_editor(h(5))
        .with_container(h(6))
        .with_style_resource(Some(3))
        .with_target_type_id(1)
        .with_style_property_name("Brush.Dark".into())
        .build(h(1), h(2));
    assert!(bound);
    assert!(preview);
    assert_eq!(tooltip, "Bound To `Brush.Dark` Property");
    let (_, unbound, tooltip, _) = StyledPropertyEditorBuilder::new().build(h(1), h(2));
    assert!(!unbound);
    assert_eq!(tooltip, "Bind To Style Property");
    let click = UiMessage::for_widget(h(2), MessageData::Button(ButtonMessage::Click));
    assert_eq!(editor.handle_routed_message(&click), (true, None));
    let from_inner = UiMessage::from_widget(h(5), MessageData::Widget(WidgetMessage::Focus));
    let (open, forwarded) = editor.handle_routed_message(&from_inner);
    assert!(!open);
    assert_eq!(forwarded, Some(UiMessage::from_widget(h(1), MessageData::Widget(WidgetMessage::Focus))));
    editor.set_selector(h(9));
    let picked = UiMessage::from_widget(h(9), MessageData::StyledPropertySelector(StyledPropertySelectorMessage::PropertyName("X".into())));
    assert_eq!(editor.preview_message(&picked), Some(StyledPropertyEditorMessage::BindProperty("X".into())));
    let custom = PropertyEditorInstance::Custom { container: h(1), editor: h(2) };
    assert_eq!(
        StyledPropertyEditorDefinition::wrap_instance(custom, h(3)),
        PropertyEditorInstance::Custom { container: h(3), editor: h(3) }
    );
    assert_eq!(StyledPropertyEditorDefinition::new(4, 5).inner_type_id, 5);
}

#[test]
fn enum_editor_switches_variants() {
    let editor = EnumPropertyEditor { handle: h(1), variant_selector: h(2), inspector: h(3), layer_index: 0 };
    let chosen = EnumPropertyEditorInput::Editor {
        destination: h(1),
        direction: MessageDirection::ToWidget,
        message: EnumPropertyEditorMessage::variant(2),
    };
    assert!(matches!(editor.handle_routed_message(chosen), Some(EnumPropertyEditorOutput::VariantChosen { variant: 2 })));
    let reported = EnumPropertyEditorInput::Editor {
        destination: h(1),
        direction: MessageDirection::FromWidget,
        message: EnumPropertyEditorMessage::variant(2),
    };
    assert!(editor.handle_routed_message(reported).is_none());
    let selected = UiMessage::from_widget(h(2), MessageData::DropdownList(DropdownListMessage::SelectionChanged(Some(1))));
    assert_eq!(editor.preview_message(&selected, 0), Some(1));
    assert_eq!(editor.preview_message(&selected, LOCAL_SYNC_FLAG), None);
}

#[test]
fn enum_definition_names_and_translation() {
    let def = EnumPropertyEditorDefinition::new(8, vec!["Red".into(), "Green".into()]);
    assert_eq!(def.index_of("Green"), 1);
    let opt = EnumPropertyEditorDefinition::new_optional(9);
    assert_eq!(opt.names, vec!["None".to_string(), "Some".to_string()]);
    assert_eq!(opt.index_of("Some"), 1);
    assert_eq!(def.create_message(h(2), 1, Some(1)), None);
    assert_eq!(
        def.create_message(h(2), 1, None),
        Some(UiMessage::for_widget(h(2), MessageData::DropdownList(DropdownListMessage::Selection(Some(1)))))
    );
    let r = def.translate_message("color", EnumPropertyEditorMessage::Variant(1), ObjectValue { value: 44 });
    assert!(matches!(r.value, FieldKind::Object(ObjectValue { value: 44 })));
    let inner = PropertyChanged { name: "r".into(), value: FieldKind::object(ObjectValue { value: 1 }) };
    let r = def.translate_message("color", EnumPropertyEditorMessage::property_changed(inner), ObjectValue { value: 0 });
    assert_eq!(r.path(), "color.r");
}

fn entry(base: u32) -> Entry {
    Entry {
        key_editor: PropertyEditorInstance::Simple { editor: h(base) },
        value_editor: PropertyEditorInstance::Simple { editor: h(base + 1) },
        remove: h(base + 2),
        value: ObjectValue { value: base as u64 },
    }
}

#[test]
fn hash_map_editor_reports_entry_events() {
    let mut map = HashMap::new();
    map.insert(1u64, entry(10));
    map.insert(2u64, entry(20));
    let (editor, children, rows, columns) = HashMapPropertyEditorBuilder::new().with_hash_map(map).build(h(1), h(2), h(3));
    assert_eq!(children.len(), 2 + 6);
    assert_eq!(&children[..2], &[h(2), h(2)]);
    assert_eq!(rows, vec![GridDimension::auto(); 3]);
    assert_eq!(columns, vec![GridDimension::auto(), GridDimension::stretch(), GridDimension::auto()]);
    let m = UiMessage::from_widget(h(21), MessageData::Widget(WidgetMessage::Focus));
    assert_eq!(editor.entry_events(&m), vec![(2, EntryEvent::ValueChanged)]);
    let remove = UiMessage::from_widget(h(12), MessageData::Button(ButtonMessage::Click));
    assert_eq!(editor.entry_events(&remove), vec![(1, EntryEvent::Remove)]);
    match HashMapPropertyEditor::entry_message(2, EntryEvent::KeyChanged, &m) {
        HashMapPropertyEditorMessage::KeyChanged { key, message } => {
            assert_eq!(key, 2);
            assert_eq!(message, m);
        }
        _ => panic!(),
    }
    let add = UiMessage::from_widget(h(2), MessageData::Button(ButtonMessage::Click));
    assert!(editor.wants_new_key(&add));
    let mut keys = editor.existing_keys();
    keys.sort();
    assert_eq!(keys, vec![1, 2]);
}

#[test]
fn hash_map_children_and_rows() {
    let mut map = HashMap::new();
    map.insert(5u64, entry(50));
    assert_eq!(make_children_list(h(9), &map), vec![h(9), h(50), h(51), h(52)]);
    assert_eq!(make_rows(&map).len(), 2);
    let mut editor = HashMapPropertyEditorBuilder::new().build(h(1), h(2), h(3)).0;
    let (children, rows) = editor.set_entries(map);
    assert_eq!(children, vec![h(2), h(50), h(51), h(52)]);
    assert_eq!(rows.len(), 2);
    editor.set_dialog(h(7));
    let from_dialog = UiMessage::from_widget(h(7), MessageData::Widget(WidgetMessage::Focus));
    assert!(matches!(
        editor.preview_message(&from_dialog, Some(SelectHashMapKeyDialogWindowMessage::Key(6))),
        Some(HashMapPropertyEditorMessage::InsertDefault { key: 6 })
    ));
}

#[test]
fn key_dialog_reports_key_on_ok() {
    let dialog = SelectHashMapKeyDialogWindowBuilder::new(4).with_existing_keys(vec![1]).build(h(1), h(2), h(3), h(4));
    let ok = UiMessage::from_widget(h(3), MessageData::Button(ButtonMessage::Click));
    let (key, close) = dialog.handle_routed_message(&ok);
    assert_eq!(key, Some(SelectHashMapKeyDialogWindowMessage::Key(4)));
    assert_eq!(close, Some(UiMessage::for_widget(h(1), MessageData::Window(WindowMessage::Close))));
    let cancel = UiMessage::from_widget(h(4), MessageData::Button(ButtonMessage::Click));
    assert_eq!(dialog.handle_routed_message(&cancel).0, None);
}

fn slice() -> TextureSlice {
    TextureSlice {
        texture: Some(1),
        texture_region: URect { x: 0, y: 0, w: 64, h: 64 },
        left_margin: 4,
        right_margin: 4,
        top_margin: 8,
        bottom_margin: 8,
    }
}

#[test]
fn slice_window_applies_margin_fields() {
    let (mut w, initial) = TextureSliceEditorWindowBuilder::new()
        .with_texture_slice(slice())
        .build(h(1), h(2), h(3), h(4), h(5), h(6), h(7), h(8));
    assert_eq!(initial.len(), 5);
    assert_eq!(initial[0], UiMessage::for_widget(h(8), MessageData::RectEditor(RectEditorMessage::Value(slice().texture_region))));
    assert_eq!(initial[4], UiMessage::for_widget(h(7), MessageData::NumericUpDown(NumericUpDownMessage::Value(slice().bottom_margin))));
    let right = UiMessage::from_widget(h(5), MessageData::NumericUpDown(NumericUpDownMessage::Value(10)));
    let out = w.handle_routed_message(&right);
    let expected = TextureSlice { right_margin: 10, ..slice() };
    assert_eq!(out, vec![UiMessage::for_widget(h(1), MessageData::TextureSliceEditor(TextureSliceEditorMessage::Slice(expected)))]);
    assert_eq!(w.texture_slice, slice());
    let set = UiMessage::for_widget(h(1), MessageData::TextureSliceEditor(TextureSliceEditorMessage::Slice(expected)));
    let out = w.handle_routed_message(&set);
    assert_eq!(w.texture_slice, expected);
    assert_eq!(out.len(), 7);
    assert_eq!(out[0].destination, h(3));
    assert_eq!(out[3].data, MessageData::NumericUpDown(NumericUpDownMessage::Value(10)));
    assert_eq!(out[6].destination, h(2));
    assert!(w.handle_routed_message(&set).is_empty());
    let region = UiMessage::from_widget(h(8), MessageData::RectEditor(RectEditorMessage::Value(URect { x: 1, y: 2, w: 3, h: 4 })));
    let out = w.handle_routed_message(&region);
    assert_eq!(out.len(), 1);
}

#[test]
fn slice_field_opens_window_and_syncs() {
    let (mut f, children, label) = TextureSliceFieldEditorBuilder::new().with_texture_slice(slice()).build(h(1), h(2));
    assert_eq!(children, vec![h(2)]);
    assert_eq!(label, "Edit...");
    let click = UiMessage::for_widget(h(2), MessageData::Button(ButtonMessage::Click));
    assert_eq!(f.handle_routed_message(&click), (true, Vec::new()));
    let open = f.editor_opened(h(9));
    assert!(matches!(open.data, MessageData::Window(WindowMessage::Open { modal: true, .. })));
    let other = TextureSlice { top_margin: 1, ..slice() };
    let set = UiMessage::for_widget(h(1), MessageData::TextureSliceEditor(TextureSliceEditorMessage::Slice(other)));
    let (opened, out) = f.handle_routed_message(&set);
    assert!(!opened);
    assert_eq!(f.texture_slice, other);
    assert_eq!(out[0].direction, MessageDirection::FromWidget);
    assert_eq!(out[1].destination, h(9));
    let def = TextureSlicePropertyEditorDefinition { value_type_id: 3 };
    assert_eq!(def.translate_message(&out[0]), Some(other));
    assert_eq!(def.translate_message(&set), None);
    assert_eq!(def.create_message(h(1), other), set);
}

#[test]
fn hot_key_and_key_binding_definitions() {
    let d = HotKeyPropertyEditorDefinition { value_type_id: 1 };
    let m = d.create_message(h(1), HotKey::ctrl_key(KeyCode::KeyZ));
    assert_eq!(m, HotKeyEditorMessage::value(h(1), MessageDirection::ToWidget, HotKey::ctrl_key(KeyCode::KeyZ)));
    assert_eq!(d.translate_message(&m), None);
    let back = HotKeyEditorMessage::value(h(1), MessageDirection::FromWidget, HotKey::NotSet);
    assert_eq!(d.translate_message(&back), Some(HotKey::NotSet));
    let k = KeyBindingPropertyEditorDefinition { value_type_id: 2 };
    let m = k.create_message(h(1), KeyBinding::Key(KeyCode::KeyQ));
    assert_eq!(k.translate_message(&m), None);
    assert_eq!(k.translate_message(&UiMessage { direction: MessageDirection::FromWidget, ..m }), Some(KeyBinding::Key(KeyCode::KeyQ)));
}

#[test]
fn margin_typed_comes_back_to_its_field() {
    let (mut w, _) = TextureSliceEditorWindowBuilder::new()
        .with_texture_slice(slice())
        .build(h(1), h(2), h(3), h(4), h(5), h(6), h(7), h(8));
    let typed = UiMessage::from_widget(h(7), MessageData::NumericUpDown(NumericUpDownMessage::Value(3)));
    let request = w.handle_routed_message(&typed);
    let out = w.handle_routed_message(&request[0]);
    assert_eq!(w.texture_slice.bottom_margin, 3);
    assert!(out.contains(&UiMessage::for_widget(h(7), MessageData::NumericUpDown(NumericUpDownMessage::Value(3)))));
}

#[test]
fn numeric_rect_and_string_definitions() {
    let n = NumericPropertyEditorDefinition { value_type_id: 4 };
    let m = n.create_message(h(2), 7);
    assert_eq!(m, UiMessage::for_widget(h(2), MessageData::NumericUpDown(NumericUpDownMessage::Value(7))));
    assert_eq!(n.translate_message(&m), None);
    assert_eq!(n.translate_message(&UiMessage { direction: MessageDirection::FromWidget, ..m }), Some(7));
    let r = RectPropertyEditorDefinition::new(5);
    let rect = URect { x: 1, y: 2, w: 3, h: 4 };
    let m = r.create_message(h(3), rect);
    assert_eq!(m, UiMessage::for_widget(h(3), MessageData::RectEditor(RectEditorMessage::Value(rect))));
    assert_eq!(r.translate_message(&m), None);
    assert_eq!(r.translate_message(&UiMessage { direction: MessageDirection::FromWidget, ..m }), Some(rect));
    assert_eq!(n.translate_message(&UiMessage::from_widget(h(3), MessageData::RectEditor(RectEditorMessage::Value(rect)))), None);
    let s = StringPropertyEditorDefinition { value_type_id: 6 };
    let m = s.create_message(h(4), "abc".to_string());
    assert_eq!(m, UiMessage::for_widget(h(4), MessageData::Text(TextMessage::Text("abc".to_string()))));
    assert_eq!(s.translate_message(&m), None);
    let typed = UiMessage::from_widget(h(4), MessageData::Text(TextMessage::Text("xyz".to_string())));
    assert_eq!(s.translate_message(&typed), Some("xyz".to_string()));
}

#[test]
fn hash_map_entries_sync_and_translation() {
    let mut values = HashMap::new();
    values.insert(1u64, ObjectValue { value: 100 });
    values.insert(2u64, ObjectValue { value: 200 });
    values.insert(3u64, ObjectValue { value: 300 });
    let mut key_editors = HashMap::new();
    let mut value_editors = HashMap::new();
    let mut removes = HashMap::new();
    for k in [1u64, 2] {
        key_editors.insert(k, PropertyEditorInstance::Simple { editor: h(10 * k as u32) });
        value_editors.insert(k, PropertyEditorInstance::Simple { editor: h(10 * k as u32 + 1) });
        removes.insert(k, h(10 * k as u32 + 2));
    }
    value_editors.insert(3, PropertyEditorInstance::Simple { editor: h(31) });
    let (entries, placements) = make_entries(&values, &key_editors, &value_editors, &removes);
    let mut keys: Vec<u64> = entries.keys().copied().collect();
    keys.sort();
    assert_eq!(keys, vec![1, 2]);
    assert_eq!(entries[&2], Entry {
        key_editor: PropertyEditorInstance::Simple { editor: h(20) },
        value_editor: PropertyEditorInstance::Simple { editor: h(21) },
        remove: h(22),
        value: ObjectValue { value: 200 },
    });
    assert_eq!(placements.len(), 6);
    for p in &placements {
        assert!(p.row >= 1 && p.row <= 3);
        assert_eq!(p.column as u32, p.widget.index % 10);
    }

    let mut c = PropertyEditorDefinitionContainer::empty();
    let def = HashMapPropertyEditorDefinition::new(50, 51, 52);
    let (editor, _, _, _) = HashMapPropertyEditorBuilder::new().with_hash_map(entries).build(h(1), h(2), h(3));
    assert!(matches!(def.create_message(&c, &editor, &values), HashMapSync::RebuildEntries));
    values.remove(&3);
    match def.create_message(&c, &editor, &values) {
        HashMapSync::SyncEntries(v) => {
            assert_eq!(v.len(), 2);
            assert!(v.iter().all(|s| s.key.is_none() && s.value.is_none()));
        }
        _ => panic!(),
    }
    c.insert(PropertyEditorDefinition::Numeric(NumericPropertyEditorDefinition { value_type_id: 51 }));
    c.insert(PropertyEditorDefinition::Numeric(NumericPropertyEditorDefinition { value_type_id: 52 }));
    match def.create_message(&c, &editor, &values) {
        HashMapSync::SyncEntries(v) => {
            assert_eq!(v.len(), 2);
            let mut shown: Vec<u64> = v.iter().map(|s| s.key.unwrap().1).collect();
            shown.sort();
            assert_eq!(shown, vec![1, 2]);
            assert!(v.iter().all(|s| s.value.unwrap().1.value == 100 * s.key.unwrap().1));
        }
        _ => panic!(),
    }

    let inner = UiMessage::from_widget(h(21), MessageData::Widget(WidgetMessage::Focus));
    let changed = HashMapPropertyEditorMessage::ValueChanged { key: 2, message: inner };
    let r = def.translate_message(&c, "map", MessageDirection::FromWidget, &changed, Some(FieldKind::object(ObjectValue { value: 5 })), ObjectValue { value: 0 });
    let r = r.unwrap();
    assert_eq!(r.name, "map");
    match r.action {
        HashMapAction::ValueChanged { key, action: FieldKind::Object(v) } => {
            assert_eq!(key, ObjectValue { value: 2 });
            assert_eq!(v, ObjectValue { value: 5 });
        }
        _ => panic!(),
    }
    assert!(def.translate_message(&c, "map", MessageDirection::FromWidget, &changed, None, ObjectValue { value: 0 }).is_none());
    assert!(def.translate_message(&c, "map", MessageDirection::ToWidget, &changed, Some(FieldKind::object(ObjectValue { value: 5 })), ObjectValue { value: 0 }).is_none());
    let insert = HashMapPropertyEditorMessage::InsertDefault { key: 9 };
    match def.translate_message(&c, "map", MessageDirection::FromWidget, &insert, None, ObjectValue { value: 4 }).unwrap().action {
        HashMapAction::Insert { key, value } => {
            assert_eq!(key, ObjectValue { value: 9 });
            assert_eq!(value, ObjectValue { value: 4 });
        }
        _ => panic!(),
    }
    let remove = HashMapPropertyEditorMessage::Remove { key: 1 };
    assert!(matches!(
        def.translate_message(&c, "map", MessageDirection::FromWidget, &remove, None, ObjectValue { value: 4 }).unwrap().action,
        HashMapAction::Remove { key: ObjectValue { value: 1 } }
    ));
    let entries_msg = HashMapPropertyEditorMessage::Entries { hash_map: HashMap::new() };
    assert!(def.translate_message(&c, "map", MessageDirection::FromWidget, &entries_msg, None, ObjectValue { value: 4 }).is_none());
}

#[test]
fn enum_definition_variants_and_indices() {
    assert!(!EnumPropertyEditorDefinition::optional_variant_is_some(0));
    assert!(EnumPropertyEditorDefinition::optional_variant_is_some(1));
    assert_eq!(EnumPropertyEditorDefinition::optional_index(false), 0);
    assert_eq!(EnumPropertyEditorDefinition::optional_index(true), 1);
    let d = EnumPropertyEditorDefinition::new(3, vec!["Left".to_string(), "Center".to_string(), "Right".to_string()]);
    for i in 0..3 {
        let name = d.variant_name(i).clone();
        assert_eq!(d.index_of(&name), i);
    }
    assert_eq!(d.variant_name(1), "Center");
}
