use fyrox_ui::list_view::{ListView, ListViewBuilder, ListViewItem, ListViewMessage, WidgetLink};
use fyrox_ui::message::{
    Handle, KeyCode, KeyboardModifiers, MessageData, MessageDirection, MouseButton, ScrollViewerMessage, UiMessage,
    WidgetMessage,
};

fn h(i: u32) -> Handle {
    Handle::new(i, 1)
}

fn list(n: u32) -> ListView {
    let items: Vec<Handle> = (0..n).map(|i| h(100 + i)).collect();
    let containers: Vec<Handle> = (0..n).map(|i| h(200 + i)).collect();
    ListViewBuilder::new().with_items(items).build(h(1), containers, h(2), h(3)).0
}

fn selection_of(m: &UiMessage) -> Vec<usize> {
    match &m.data {
        MessageData::ListView(ListViewMessage::SelectionChanged(s)) => s.clone(),
        _ => panic!("not a selection"),
    }
}

#[test]
fn builder_uses_given_or_default_parts() {
    let l = list(2);
    assert_eq!(l.panel, h(2));
    assert_eq!(l.scroll_viewer, h(3));
    assert_eq!(l.items(), &[h(100), h(101)]);
    assert!(l.selection.is_empty());
    let l = ListViewBuilder::new().with_items_panel(h(7)).with_scroll_viewer(h(8)).build(h(1), Vec::new(), h(2), h(3)).0;
    assert_eq!((l.panel, l.scroll_viewer), (h(7), h(8)));
}

#[test]
fn selection_change_is_kept_and_reported() {
    let mut l = list(3);
    let mut m = ListViewMessage::selection(h(1), MessageDirection::ToWidget, vec![2]);
    let out = l.handle_routed_message(&mut m);
    assert_eq!(l.selection, vec![2]);
    assert_eq!(out.len(), 1);
    assert_eq!(out[0].direction, MessageDirection::FromWidget);
    assert_eq!(selection_of(&out[0]), vec![2]);
    let mut again = ListViewMessage::selection(h(1), MessageDirection::ToWidget, vec![2]);
    assert!(l.handle_routed_message(&mut again).is_empty());
    assert_eq!(l.decorator_states(), vec![false, false, true]);
}

#[test]
fn arrow_keys_wrap_around() {
    let mut l = list(3);
    assert_eq!(l.navigation_target(KeyCode::ArrowDown), Some(0));
    l.selection = vec![2];
    assert_eq!(l.navigation_target(KeyCode::ArrowDown), Some(0));
    l.selection = vec![0];
    assert_eq!(l.navigation_target(KeyCode::ArrowUp), Some(2));
    l.selection = vec![1, 0];
    assert_eq!(l.largest_selection_index(), Some(1));
    assert_eq!(l.smallest_selection_index(), Some(0));
    assert_eq!(l.navigation_target(KeyCode::KeyA), None);
    let mut key = UiMessage::for_widget(h(1), MessageData::Widget(WidgetMessage::KeyDown(KeyCode::ArrowDown)));
    let out = l.handle_routed_message(&mut key);
    assert!(key.handled);
    assert_eq!(selection_of(&out[0]), vec![2]);
    assert_eq!(out[0].direction, MessageDirection::ToWidget);
}

#[test]
fn empty_list_has_no_navigation_target() {
    let l = list(0);
    assert_eq!(l.navigation_target(KeyCode::ArrowDown), None);
    assert_eq!(l.largest_selection_index(), None);
}

#[test]
fn out_of_range_selection_is_fixed() {
    let mut l = list(2);
    l.selection = vec![0, 5];
    let m = l.fix_selection().unwrap();
    assert_eq!(selection_of(&m), vec![0, 1]);
    l.selection = vec![1];
    assert!(l.fix_selection().is_none());
}

#[test]
fn bring_into_view_only_for_own_items() {
    let mut l = list(2);
    let mut m = ListViewMessage::bring_item_into_view(h(1), MessageDirection::ToWidget, h(101));
    let out = l.handle_routed_message(&mut m);
    assert_eq!(out.len(), 1);
    assert_eq!(out[0].destination, h(3));
    assert_eq!(out[0].data, MessageData::ScrollViewer(ScrollViewerMessage::BringIntoView(h(101))));
    let mut other = ListViewMessage::bring_item_into_view(h(1), MessageDirection::ToWidget, h(999));
    assert!(l.handle_routed_message(&mut other).is_empty());
}

#[test]
fn items_are_added_and_removed() {
    let mut l = list(2);
    let link = l.add_item(h(102), h(202));
    assert_eq!(link.destination, h(202));
    assert_eq!(link.data, MessageData::Widget(WidgetMessage::LinkWith(h(2))));
    assert_eq!(l.items().len(), 3);
    l.selection = vec![2];
    let out = l.remove_item(h(100), h(200));
    assert_eq!(l.items(), &[h(101), h(102)]);
    assert_eq!(l.item_containers, vec![h(201), h(202)]);
    assert_eq!(out[0].data, MessageData::Widget(WidgetMessage::Remove));
    assert_eq!(out.len(), 2);
    assert_eq!(selection_of(&out[1]), vec![1]);
    assert!(l.remove_item(h(555), h(556)).is_empty());
}

#[test]
fn set_items_replaces_children() {
    let mut l = list(1);
    let out = l.set_items(vec![h(110), h(111)], vec![h(210), h(211)], &[h(200)]);
    assert_eq!(l.items(), &[h(110), h(111)]);
    assert_eq!(out[0].destination, h(200));
    assert_eq!(out[0].data, MessageData::Widget(WidgetMessage::Remove));
    assert_eq!(out[1].data, MessageData::Widget(WidgetMessage::LinkWith(h(2))));
    assert_eq!(out[2].destination, h(211));
}

#[test]
fn clicking_an_item_selects_it() {
    let mut l = list(3);
    l.selection = vec![0];
    let item = ListViewItem { handle: h(202) };
    let mut up = UiMessage::for_widget(h(202), MessageData::Widget(WidgetMessage::MouseUp { button: MouseButton::Left }));
    let out = item.handle_routed_message(&l, KeyboardModifiers::none(), &mut up);
    assert!(up.handled);
    assert_eq!(selection_of(&out[0]), vec![2]);
    let ctrl = KeyboardModifiers { alt: false, shift: false, control: true, system: false };
    assert_eq!(item.click_selection(&l, ctrl), vec![0, 2]);
}

#[test]
fn fixing_a_fixed_selection_changes_nothing() {
    let mut l = list(3);
    l.selection = vec![7, 1, 3];
    let fixed = selection_of(&l.fix_selection().unwrap());
    assert_eq!(fixed, vec![2, 1, 2]);
    l.selection = fixed;
    assert!(l.fix_selection().is_none());
}

#[test]
fn builder_links_items_into_containers_and_panel() {
    let (_, layout) = ListViewBuilder::new().with_items(vec![h(100), h(101)]).build(h(1), vec![h(200), h(201)], h(2), h(3));
    assert!(layout.accepts_input);
    assert_eq!(
        layout.links,
        vec![
            WidgetLink { child: h(100), parent: h(200) },
            WidgetLink { child: h(101), parent: h(201) },
            WidgetLink { child: h(200), parent: h(2) },
            WidgetLink { child: h(201), parent: h(2) },
        ]
    );
}
