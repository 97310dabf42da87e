use fyrox_ui::grid::GridDimension;
use fyrox_ui::array::{
    create_item_views, create_items, ArrayEditor, ArrayEditorMessage, ArrayPropertyEditorDefinition, Item as ArrayItem,
};
use fyrox_ui::collection::{
    CollectionEditor, CollectionEditorEvent, CollectionEditorMessage, CollectionSync, Item as CollectionItem,
    VecCollectionPropertyEditorDefinition,
};
use fyrox_ui::editors::{
    BoolPropertyEditorDefinition, DefaultEditorTypeIds, PropertyEditorDefinition, PropertyEditorDefinitionContainer,
    PropertyEditorInstance, RangePropertyEditorDefinition, RectPropertyEditorDefinition, RefCellPropertyEditorDefinition,
    UNIT_TYPE_ID,
};
use fyrox_ui::inherit::{
    InheritablePropertyEditorBuilder, InheritablePropertyEditorDefinition, InheritablePropertyEditorInput,
    InheritablePropertyEditorMessage, InheritablePropertyEditorOutput,
};
use fyrox_ui::inspector::{CollectionChanged, FieldKind, InheritableAction, InspectorError, ObjectValue, PropertyChanged};
use fyrox_ui::message::{ButtonMessage, Handle, MessageData, MessageDirection, UiMessage, WidgetMessage};

fn h(i: u32) -> Handle {
    Handle::new(i, 1)
}

fn bool_def(id: u64) -> PropertyEditorDefinition {
    PropertyEditorDefinition::Bool(BoolPropertyEditorDefinition { value_type_id: id })
}

fn change(name: &str, value: u64) -> PropertyChanged {
    PropertyChanged { name: name.to_string(), value: FieldKind::object(ObjectValue { value }) }
}

#[test]
fn instance_editor_and_root() {
    let simple = PropertyEditorInstance::Simple { editor: h(1) };
    let custom = PropertyEditorInstance::Custom { container: h(2), editor: h(3) };
    assert_eq!(simple.editor(), h(1));
    assert_eq!(custom.editor(), h(3));
    assert_eq!(custom.root(), h(2));
    assert_eq!(PropertyEditorInstance::default(), PropertyEditorInstance::Simple { editor: Handle::none() });
}

#[test]
fn container_insert_replaces_and_returns_previous() {
    let mut c = PropertyEditorDefinitionContainer::empty();
    assert_eq!(c.context_type_id(), UNIT_TYPE_ID);
    assert!(c.insert(bool_def(5)).is_none());
    assert_eq!(c.get(5).unwrap().property_editor, bool_def(5));
    c.set_context_type_id(77);
    let range = PropertyEditorDefinition::Range(RangePropertyEditorDefinition::new(5));
    let old = c.insert_raw(range).unwrap();
    assert_eq!(old.source_type_id, UNIT_TYPE_ID);
    assert_eq!(old.property_editor, bool_def(5));
    let now = c.get(5).unwrap();
    assert_eq!(now.source_type_id, 77);
    assert_eq!(now.property_editor, range);
    assert!(c.get(6).is_none());
}

#[test]
fn merge_marks_definitions_with_current_source() {
    let mut a = PropertyEditorDefinitionContainer::default();
    a.insert(bool_def(1));
    a.insert(bool_def(2));
    let mut b = PropertyEditorDefinitionContainer::default();
    b.set_context_type_id(9);
    b.insert(PropertyEditorDefinition::Rect(RectPropertyEditorDefinition::new(2)));
    b.insert(PropertyEditorDefinition::RefCell(RefCellPropertyEditorDefinition::new(3, 1)));
    a.set_context_type_id(4);
    a.merge(b);
    let mut ids = a.type_ids();
    ids.sort();
    assert_eq!(ids, vec![1, 2, 3]);
    assert_eq!(a.get(1).unwrap().source_type_id, UNIT_TYPE_ID);
    assert_eq!(a.get(2).unwrap(), fyrox_ui::editors::PropertyEditorDefinitionContainerEntry {
        source_type_id: 4,
        property_editor: PropertyEditorDefinition::Rect(RectPropertyEditorDefinition::new(2)),
    });
    assert_eq!(a.get(3).unwrap().source_type_id, 4);
}

#[test]
fn registering_inheritable_collections_and_enums() {
    let mut c = PropertyEditorDefinitionContainer::empty();
    c.register_inheritable_vec_collection(10, 1, 11);
    c.register_inheritable_enum(20, 21);
    assert_eq!(c.get(10).unwrap().property_editor, PropertyEditorDefinition::VecCollection(VecCollectionPropertyEditorDefinition::new(10, 1)));
    assert_eq!(c.get(11).unwrap().property_editor, PropertyEditorDefinition::Inheritable(InheritablePropertyEditorDefinition::new(11)));
    assert_eq!(c.get(20).unwrap().property_editor, PropertyEditorDefinition::Enum { value_type_id: 20 });
    assert_eq!(c.type_ids().len(), 4);
}

#[test]
fn array_editor_reports_item_changes() {
    let items = vec![
        ArrayItem { editor_instance: PropertyEditorInstance::Simple { editor: h(1) } },
        ArrayItem { editor_instance: PropertyEditorInstance::Custom { container: h(2), editor: h(3) } },
    ];
    assert_eq!(create_item_views(&items), vec![h(1), h(2)]);
    let editor = ArrayEditor { handle: h(9), items };
    let m = UiMessage::from_widget(h(3), MessageData::Widget(WidgetMessage::Focus));
    match editor.handle_routed_message(m.clone()) {
        Some(ArrayEditorMessage::ItemChanged { index, message }) => {
            assert_eq!(index, 1);
            assert_eq!(message, m);
        }
        None => panic!("expected a change"),
    }
    assert!(editor.handle_routed_message(UiMessage::from_widget(h(2), MessageData::Widget(WidgetMessage::Focus))).is_none());
}

#[test]
fn array_definition_translates_item_changes() {
    let mut c = PropertyEditorDefinitionContainer::empty();
    let def = ArrayPropertyEditorDefinition::new(30, 5);
    let msg = || ArrayEditorMessage::item_changed(2, UiMessage::from_widget(h(1), MessageData::Button(ButtonMessage::Click)));
    assert!(def.translate_message(&c, "arr", MessageDirection::FromWidget, msg(), Some(change("", 1))).is_none());
    c.insert(bool_def(5));
    let r = def.translate_message(&c, "arr", MessageDirection::FromWidget, msg(), Some(change("", 1))).unwrap();
    assert_eq!(r.name, "arr");
    assert_eq!(r.path(), "arr[2]");
    match r.value {
        FieldKind::Collection(cc) => match *cc {
            CollectionChanged::ItemChanged { index, property: FieldKind::Object(v) } => {
                assert_eq!(index, 2);
                assert_eq!(v, ObjectValue { value: 1 });
            }
            _ => panic!(),
        },
        _ => panic!(),
    }
    assert!(def.translate_message(&c, "arr", MessageDirection::ToWidget, msg(), Some(change("", 1))).is_none());
    assert!(def.translate_message(&c, "arr", MessageDirection::FromWidget, msg(), None).is_none());
}

fn collection_editor() -> CollectionEditor {
    CollectionEditor {
        handle: h(50),
        add: h(51),
        items: vec![
            CollectionItem { editor_instance: PropertyEditorInstance::Simple { editor: h(60) }, remove: h(70) },
            CollectionItem { editor_instance: PropertyEditorInstance::Simple { editor: h(61) }, remove: h(71) },
        ],
        panel: h(52),
        layer_index: 0,
    }
}

#[test]
fn collection_editor_reports_removals_and_item_changes() {
    let e = collection_editor();
    let remove = UiMessage::from_widget(h(71), MessageData::Button(ButtonMessage::Click));
    assert!(matches!(e.handle_routed_message(remove), Some(CollectionEditorEvent::Changed(CollectionChanged::Remove(1)))));
    let stray_click = UiMessage::from_widget(h(61), MessageData::Button(ButtonMessage::Click));
    assert!(e.handle_routed_message(stray_click).is_none());
    let edit = UiMessage::from_widget(h(61), MessageData::Widget(WidgetMessage::Focus));
    match e.handle_routed_message(edit.clone()) {
        Some(CollectionEditorEvent::Editor(CollectionEditorMessage::ItemChanged { index, message })) => {
            assert_eq!(index, 1);
            assert_eq!(message, edit);
        }
        _ => panic!(),
    }
    let add = UiMessage::from_widget(h(51), MessageData::Button(ButtonMessage::Click));
    assert!(matches!(e.preview_message(&add, ObjectValue { value: 8 }), Some(CollectionChanged::Add(ObjectValue { value: 8 }))));
    assert!(e.preview_message(&edit, ObjectValue { value: 8 }).is_none());
    assert!(e.needs_new_items(3));
    assert!(!e.needs_new_items(2));
}

#[test]
fn collection_editor_replaces_items() {
    let mut e = collection_editor();
    let out = e.set_items(Vec::new(), &[h(90)], &[h(80), h(81)]);
    assert!(e.items.is_empty());
    assert_eq!(out.len(), 3);
    assert_eq!(out[0], UiMessage::for_widget(h(80), MessageData::Widget(WidgetMessage::Remove)));
    assert_eq!(out[2], UiMessage::for_widget(h(90), MessageData::Widget(WidgetMessage::LinkWith(h(52)))));
}

#[test]
fn collection_definition_translates_changes() {
    let mut c = PropertyEditorDefinitionContainer::empty();
    c.insert(bool_def(7));
    let def = VecCollectionPropertyEditorDefinition::new(40, 7);
    let r = def
        .translate_message(&c, "list", MessageDirection::FromWidget, CollectionEditorEvent::Changed(CollectionChanged::Remove(4)), None)
        .unwrap();
    assert!(matches!(r.value, FieldKind::Collection(ref cc) if matches!(**cc, CollectionChanged::Remove(4))));
    let item = CollectionEditorEvent::Editor(CollectionEditorMessage::ItemChanged {
        index: 1,
        message: UiMessage::from_widget(h(1), MessageData::Widget(WidgetMessage::Focus)),
    });
    let r = def.translate_message(&c, "list", MessageDirection::FromWidget, item, Some(change("", 3))).unwrap();
    assert_eq!(r.path(), "list[1]");
    let items = CollectionEditorEvent::Editor(CollectionEditorMessage::Items(Vec::new()));
    assert!(def.translate_message(&c, "list", MessageDirection::FromWidget, items, None).is_none());
    let to_widget = CollectionEditorEvent::Changed(CollectionChanged::Remove(0));
    assert!(def.translate_message(&c, "list", MessageDirection::ToWidget, to_widget, None).is_none());
}

#[test]
fn inheritable_editor_reacts() {
    let (editor, layout) = InheritablePropertyEditorBuilder::new()
        .with_inner_editor(h(2))
        .with_container(h(3))
        .with_modified(true)
        .build(h(1), h(4), h(5));
    assert!(layout.revert_visible);
    assert_eq!(layout.grid, h(5));
    assert_eq!(layout.grid_children, vec![h(3), h(4)]);
    assert_eq!(layout.revert_column, 1);
    assert_eq!(layout.rows, vec![GridDimension::auto()]);
    assert_eq!(layout.columns, vec![GridDimension::stretch(), GridDimension::auto()]);
    assert_eq!(layout.revert_tooltip, "Revert To Parent");
    assert_eq!(editor.inspector, h(2));
    let click = InheritablePropertyEditorInput::Ui(UiMessage::from_widget(h(4), MessageData::Button(ButtonMessage::Click)));
    assert!(matches!(editor.handle_routed_message(click), Some(InheritablePropertyEditorOutput::Post(InheritablePropertyEditorMessage::Revert))));
    let modified = InheritablePropertyEditorInput::Editor { destination: h(1), message: InheritablePropertyEditorMessage::Modified(false) };
    match editor.handle_routed_message(modified) {
        Some(InheritablePropertyEditorOutput::Send(m)) => {
            assert_eq!(m, UiMessage::for_widget(h(4), MessageData::Widget(WidgetMessage::Visibility(false))));
        }
        _ => panic!(),
    }
    let inner = InheritablePropertyEditorInput::InspectorChanged { source: h(2), change: change("x", 1) };
    assert!(matches!(
        editor.handle_routed_message(inner),
        Some(InheritablePropertyEditorOutput::Post(InheritablePropertyEditorMessage::PropertyChanged(_)))
    ));
    let elsewhere = InheritablePropertyEditorInput::InspectorChanged { source: h(8), change: change("x", 1) };
    assert!(editor.handle_routed_message(elsewhere).is_none());
}

#[test]
fn inheritable_definition_translates() {
    let def = InheritablePropertyEditorDefinition::new(3);
    let r = def.translate_message("v", MessageDirection::ToWidget, InheritablePropertyEditorMessage::Revert).unwrap();
    assert!(matches!(r.value, FieldKind::Inheritable(InheritableAction::Revert)));
    let r = def
        .translate_message("v", MessageDirection::FromWidget, InheritablePropertyEditorMessage::PropertyChanged(change("inner", 2)))
        .unwrap();
    assert_eq!(r.path(), "v.inner");
    assert!(def
        .translate_message("v", MessageDirection::ToWidget, InheritablePropertyEditorMessage::PropertyChanged(change("inner", 2)))
        .is_none());
    assert!(def.translate_message("v", MessageDirection::FromWidget, InheritablePropertyEditorMessage::Modified(true)).is_none());
    assert!(InheritablePropertyEditorDefinition::is_modified(true, true));
    assert!(!InheritablePropertyEditorDefinition::is_modified(false, true));
}

#[test]
fn item_definition_requires_a_definition_only_for_items() {
    let mut c = PropertyEditorDefinitionContainer::empty();
    assert!(matches!(fyrox_ui::editors::item_definition(&c, 5, "Foo", 0), Ok(None)));
    match fyrox_ui::editors::item_definition(&c, 5, "Foo", 2) {
        Err(fyrox_ui::inspector::InspectorError::Custom(m)) => assert_eq!(m, "Missing property editor of type Foo"),
        _ => panic!(),
    }
    c.insert(bool_def(5));
    assert!(matches!(fyrox_ui::editors::item_definition(&c, 5, "Foo", 2), Ok(Some(e)) if e.property_editor == bool_def(5)));
}

#[test]
fn editor_builders() {
    let b = fyrox_ui::collection::CollectionEditorBuilder::new().with_add(h(2)).with_layer_index(3).with_immutable_collection(true);
    assert!(!b.remove_buttons_visible());
    let e = b.build(h(1), h(4), Vec::new());
    assert_eq!((e.handle, e.add, e.panel, e.layer_index), (h(1), h(2), h(4), 3));
    let a = fyrox_ui::array::ArrayEditorBuilder::new().with_layer_index(1).build(h(5), Vec::new());
    assert_eq!(a.handle, h(5));
    let en = fyrox_ui::enumeration::EnumPropertyEditorBuilder::new().with_variant_selector(h(6)).with_sync_flag(1).with_layer_index(2).build(h(7), h(8));
    assert_eq!((en.handle, en.variant_selector, en.inspector, en.layer_index), (h(7), h(6), h(8), 2));
}

#[test]
fn default_editors_cover_the_listed_types() {
    let ids = DefaultEditorTypeIds {
        bool_type: 1,
        string_type: 2,
        path_type: 3,
        color_type: 4,
        color_gradient_type: 5,
        curve_type: 6,
        key_binding_type: 7,
        texture_slice_type: 8,
        numeric_types: vec![10, 11],
        vector_types: vec![12],
        matrix_types: vec![13],
        range_types: vec![14],
        quat_types: vec![15],
        rect_types: vec![16],
        enum_types: vec![17],
        inheritable_types: vec![18, 19],
        vec_collection_types: vec![(20, 2)],
        array_types: vec![(21, 10)],
        ref_cell_types: vec![(22, 20)],
        styled_types: vec![(23, 4)],
    };
    let c = PropertyEditorDefinitionContainer::with_default_editors(&ids);
    let mut types = c.type_ids();
    types.sort();
    assert_eq!(types, vec![1, 2, 3, 4, 5, 6, 7, 8, 10, 11, 12, 13, 14, 15, 16, 17, 18, 19, 20, 21, 22, 23]);
    assert_eq!(c.context_type_id(), UNIT_TYPE_ID);
    assert_eq!(c.get(1).unwrap().property_editor, bool_def(1));
    assert_eq!(c.get(1).unwrap().source_type_id, UNIT_TYPE_ID);
    assert_eq!(c.get(17).unwrap().property_editor, PropertyEditorDefinition::Enum { value_type_id: 17 });
    assert_eq!(
        c.get(21).unwrap().property_editor,
        PropertyEditorDefinition::Array(ArrayPropertyEditorDefinition { value_type_id: 21, item_type_id: 10 })
    );
    assert!(c.get(9).is_none());
}

#[test]
fn array_definition_syncs_and_builds_items() {
    let mut c = PropertyEditorDefinitionContainer::empty();
    let def = ArrayPropertyEditorDefinition::new(30, 5);
    let items = vec![
        ArrayItem { editor_instance: PropertyEditorInstance::Simple { editor: h(1) } },
        ArrayItem { editor_instance: PropertyEditorInstance::Custom { container: h(2), editor: h(3) } },
    ];
    let editor = ArrayEditor { handle: h(9), items };
    let values = [ObjectValue { value: 7 }, ObjectValue { value: 8 }, ObjectValue { value: 9 }];
    assert!(def.create_message(&c, &editor, "arr", "Arr", "obj.arr", &values).is_empty());
    match create_items(&c, 5, "u8", "arr", "Arr", "obj.arr", &values) {
        Err(InspectorError::Custom(m)) => assert_eq!(m, "Missing property editor of type u8"),
        _ => panic!(),
    }
    assert!(create_items(&c, 5, "u8", "arr", "Arr", "obj.arr", &[]).unwrap().is_empty());
    c.insert(bool_def(5));
    let sync = def.create_message(&c, &editor, "arr", "Arr", "obj.arr", &values);
    assert_eq!(sync.len(), 2);
    assert_eq!(sync[1].instance, h(3));
    assert_eq!(sync[1].value, ObjectValue { value: 8 });
    assert_eq!(sync[1].name, "arr[1]");
    assert_eq!(sync[1].display_name, "Arr[1]");
    assert_eq!(sync[1].base_path, "obj.arr[1]");
    let built = create_items(&c, 5, "u8", "arr", "Arr", "obj.arr", &values).unwrap();
    assert_eq!(built.len(), 3);
    assert_eq!(built[2].name, "arr[2]");
    assert_eq!(built[2].base_path, "obj.arr[2]");
    assert_eq!(built[2].value, ObjectValue { value: 9 });
}

#[test]
fn collection_items_sync_or_rebuild() {
    let mut c = PropertyEditorDefinitionContainer::empty();
    let def = VecCollectionPropertyEditorDefinition::new(40, 5);
    let editor = collection_editor();
    let values = [ObjectValue { value: 7 }, ObjectValue { value: 8 }];
    assert!(matches!(def.item_syncs(&c, "list", "List", "o.list", &editor, &values[..1], 2), CollectionSync::Rebuild));
    match def.item_syncs(&c, "list", "List", "o.list", &editor, &values, 2) {
        CollectionSync::Sync(v) => assert!(v.is_empty()),
        _ => panic!(),
    }
    c.insert(bool_def(5));
    match def.item_syncs(&c, "list", "List", "o.list", &editor, &values, 2) {
        CollectionSync::Sync(v) => {
            assert_eq!(v.len(), 2);
            assert_eq!(v[1].instance, h(61));
            assert_eq!(v[1].value, ObjectValue { value: 8 });
            assert_eq!(v[1].name, "list[1]");
            assert_eq!(v[1].display_name, "List[1]");
            assert_eq!(v[1].base_path, "o.list[1]");
            assert_eq!(v[1].layer_index, 3);
        }
        _ => panic!(),
    }
}
