use fyrox_ui::editors::{BoolPropertyEditorDefinition, PropertyEditorDefinition, PropertyEditorDefinitionContainer};
use fyrox_ui::inspector::{
    finish_sync, from_object_plan, make_expander_description, FieldPlan, InspectedField, make_item_name, make_tooltip, CollectionChanged, FieldKind,
    InheritableAction, InspectorBuilder, InspectorContext, InspectorError, Menu, ObjectValue, PropertyAction,
    PropertyChanged, PropertyFilter, SyncField, SyncStep, TargetResponse,
};
use fyrox_ui::message::{Handle, MessageData, UiMessage, WidgetMessage};

fn change(name: &str, value: FieldKind) -> PropertyChanged {
    PropertyChanged { name: name.to_string(), value }
}

#[test]
fn path_of_nested_changes() {
    let leaf = change("name", FieldKind::object(ObjectValue { value: 1 }));
    assert_eq!(leaf.path(), "name");
    let item = change(
        "items",
        FieldKind::Collection(Box::new(CollectionChanged::ItemChanged {
            index: 12,
            property: FieldKind::Inspectable(Box::new(leaf)),
        })),
    );
    assert_eq!(item.path(), "items[12].name");
    let plain_item = change(
        "v",
        FieldKind::Collection(Box::new(CollectionChanged::ItemChanged { index: 0, property: FieldKind::object(ObjectValue { value: 3 }) })),
    );
    assert_eq!(plain_item.path(), "v[0]");
    let nested = change("outer", FieldKind::Inspectable(Box::new(change("inner", FieldKind::object(ObjectValue { value: 2 })))));
    assert_eq!(nested.path(), "outer.inner");
    let removed = change("list", FieldKind::Collection(Box::new(CollectionChanged::Remove(3))));
    assert_eq!(removed.path(), "list");
}

#[test]
fn item_names() {
    assert_eq!(make_item_name("points", 0), "points[0]");
    assert_eq!(make_item_name("points", 305), "points[305]");
}

#[test]
fn inheritable_changes_are_recognised() {
    let revert = change("x", FieldKind::Inheritable(InheritableAction::Revert));
    assert!(revert.is_inheritable());
    let nested = change("o", FieldKind::Inspectable(Box::new(revert)));
    assert!(nested.is_inheritable());
    assert!(!change("y", FieldKind::object(ObjectValue { value: 0 })).is_inheritable());
}

#[test]
fn actions_follow_nested_changes() {
    let inner = FieldKind::Collection(Box::new(CollectionChanged::ItemChanged {
        index: 1,
        property: FieldKind::Inspectable(Box::new(change("f", FieldKind::object(ObjectValue { value: 9 })))),
    }));
    assert_eq!(PropertyAction::from_field_kind(&inner), PropertyAction::Modify { value: ObjectValue { value: 9 } });
    let add = FieldKind::Collection(Box::new(CollectionChanged::Add(ObjectValue { value: 4 })));
    assert_eq!(PropertyAction::from_field_kind(&add), PropertyAction::AddItem { value: ObjectValue { value: 4 } });
    let remove = FieldKind::Collection(Box::new(CollectionChanged::Remove(2)));
    assert_eq!(PropertyAction::from_field_kind(&remove), PropertyAction::RemoveItem { index: 2 });
    assert_eq!(PropertyAction::from_field_kind(&FieldKind::Inheritable(InheritableAction::Revert)), PropertyAction::Revert);
}

#[test]
fn applying_actions() {
    let ok = TargetResponse { path_resolved: true, is_list: true, accepted: true, removed: Some(ObjectValue { value: 5 }) };
    let modify = PropertyAction::Modify { value: ObjectValue { value: 1 } };
    assert_eq!(modify.apply(ok), Ok(None));
    assert_eq!(modify.apply(TargetResponse { path_resolved: false, ..ok }), Err(modify));
    let add = PropertyAction::AddItem { value: ObjectValue { value: 1 } };
    assert_eq!(add.apply(TargetResponse { is_list: false, ..ok }), Err(add));
    let remove = PropertyAction::RemoveItem { index: 0 };
    assert_eq!(remove.apply(ok), Ok(Some(ObjectValue { value: 5 })));
    assert_eq!(remove.apply(TargetResponse { removed: None, ..ok }), Err(remove));
    assert_eq!(PropertyAction::Revert.apply(ok), Err(PropertyAction::Revert));
}

#[test]
fn filters() {
    assert!(PropertyFilter::<fn(ObjectValue) -> bool>::all().pass(ObjectValue { value: 0 }));
    let even = PropertyFilter::new(|v: ObjectValue| v.value % 2 == 0);
    assert!(even.pass(ObjectValue { value: 2 }));
    assert!(!even.pass(ObjectValue { value: 3 }));
}

#[test]
fn default_menu_is_empty() {
    let m = Menu::default();
    assert!(m.copy_value_as_string.is_none());
    assert!(m.menu.is_none());
}

#[test]
fn expander_texts_and_tooltips() {
    assert_eq!(make_expander_description("Name", ""), "Name");
    assert_eq!(make_expander_description("Name", "What it is."), "Name\n\nWhat it is.");
    let tip = Handle::new(3, 1);
    assert!(make_tooltip("", tip).is_none());
    assert_eq!(make_tooltip("hint", tip).unwrap().handle(), tip);
}

fn entry(name: &str, tag: &str, ty: u64, editor: u32, container: u32) -> fyrox_ui::inspector::ContextEntry {
    fyrox_ui::inspector::ContextEntry {
        property_name: name.into(),
        property_display_name: name.to_uppercase(),
        property_tag: tag.into(),
        property_value_type_id: ty,
        property_editor: Handle::new(editor, 1),
        property_debug_output: format!("{name}-value"),
        property_container: Handle::new(container, 1),
    }
}

fn context() -> fyrox_ui::inspector::InspectorContext {
    let mut c = fyrox_ui::inspector::InspectorContext::default();
    c.entries = vec![entry("a", "t1", 5, 10, 20), entry("b", "t2", 6, 11, 21), entry("a", "t3", 5, 12, 22)];
    c.sync_flag = 99;
    c.object_type_id = 42;
    c
}

#[test]
fn context_lookups_find_first_match() {
    let c = context();
    assert_eq!(c.find_property_editor("a").unwrap().property_editor, Handle::new(10, 1));
    assert!(c.find_property_editor("z").is_none());
    assert_eq!(c.find_property_editor_by_tag("t3").unwrap().property_container, Handle::new(22, 1));
    assert_eq!(c.find_property_editor_widget("b"), Handle::new(11, 1));
    assert!(c.find_property_editor_widget("nope").is_none());
}

#[test]
fn sync_steps_and_outcome() {
    let c = context();
    let mut defs = PropertyEditorDefinitionContainer::empty();
    defs.insert(PropertyEditorDefinition::Bool(BoolPropertyEditorDefinition { value_type_id: 5 }));
    let fields = vec![
        SyncField { name: "a".into(), value_type_id: 5, shown: true },
        SyncField { name: "b".into(), value_type_id: 6, shown: true },
        SyncField { name: "c".into(), value_type_id: 5, shown: true },
        SyncField { name: "a".into(), value_type_id: 5, shown: false },
    ];
    let steps = c.sync_steps(&defs, 42, &fields).unwrap();
    assert_eq!(steps, vec![SyncStep::Update(0), SyncStep::Skip, SyncStep::OutOfSync, SyncStep::Skip]);
    match c.sync_steps(&defs, 7, &fields) {
        Err(e) => assert!(e.len() == 1 && matches!(e[0], InspectorError::OutOfSync)),
        Ok(_) => panic!(),
    }
    assert!(finish_sync(Vec::new()).is_ok());
    assert_eq!(finish_sync(vec![InspectorError::OutOfSync]).unwrap_err().len(), 1);
}

#[test]
fn inspector_translates_for_matching_editors_only() {
    let mut c = context();
    c.entries.push(entry("d", "", 5, 10, 23));
    let inspector = InspectorBuilder::new().with_opt_context(None).with_opt_context(Some(c)).build(Handle::new(1, 1));
    assert_eq!(inspector.entries_to_translate(Handle::new(10, 1), 0), vec![0, 3]);
    assert!(inspector.entries_to_translate(Handle::new(10, 1), 99).is_empty());
    assert_eq!(inspector.copied_entries(&[Handle::new(30, 1), Handle::new(22, 1), Handle::new(20, 1)]), vec![2, 0]);
    assert_eq!(inspector.context().entries.len(), 4);
}

#[test]
fn new_context_replaces_children() {
    let mut inspector = InspectorBuilder::new().build(Handle::new(1, 1));
    let mut next = InspectorContext::default();
    next.stack_panel = Handle::new(9, 1);
    let out = inspector.set_context(next, &[Handle::new(5, 1)]);
    assert_eq!(out, vec![
        UiMessage::for_widget(Handle::new(5, 1), MessageData::Widget(WidgetMessage::Remove)),
        UiMessage::for_widget(Handle::new(9, 1), MessageData::Widget(WidgetMessage::LinkWith(Handle::new(1, 1)))),
    ]);
    assert_eq!(inspector.context.stack_panel, Handle::new(9, 1));
}

fn field(name: &str, doc: &str, type_id: u64, value: u64, read_only: bool) -> InspectedField {
    InspectedField {
        name: name.to_string(),
        display_name: name.to_uppercase(),
        description: doc.to_string(),
        tag: String::new(),
        value: ObjectValue { value },
        type_id,
        value_type_name: format!("T{type_id}"),
        read_only,
    }
}

#[test]
fn object_plan_per_field() {
    let mut defs = PropertyEditorDefinitionContainer::empty();
    defs.insert(PropertyEditorDefinition::Bool(BoolPropertyEditorDefinition { value_type_id: 1 }));
    let fields = vec![field("a", "", 1, 10, true), field("b", "doc", 2, 20, false), field("c", "", 1, 99, false)];
    let filter = PropertyFilter::new(|v: ObjectValue| v.value < 50);
    let plan = from_object_plan(&defs, &fields, &filter);
    assert_eq!(plan.len(), 3);
    match &plan[0] {
        FieldPlan::Editor { value_type_id, description, disabled } => {
            assert_eq!(*value_type_id, 1);
            assert_eq!(description, "A");
            assert!(*disabled);
        }
        _ => panic!(),
    }
    match &plan[1] {
        FieldPlan::Missing { description, message } => {
            assert_eq!(description, "B\n\ndoc");
            assert_eq!(message, "Property Editor Is Missing For Type T2!");
        }
        _ => panic!(),
    }
    assert!(matches!(plan[2], FieldPlan::Skip));
    let all: PropertyFilter<fn(ObjectValue) -> bool> = PropertyFilter::all();
    assert!(!matches!(from_object_plan(&defs, &fields, &all)[2], FieldPlan::Skip));
}
