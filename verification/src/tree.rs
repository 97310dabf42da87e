//! The widget tree as the user interface routes messages through it: which widgets exist,
//! their parents and children, and the few flags that routing reads. A message addressed to a
//! widget bubbles from it up to the root; the user interface itself reacts to the messages that
//! move widgets in the tree, focus them or remove them.

use vstd::prelude::*;
use crate::message::{Handle, MessageData, MessageDirection, MouseButton, PopupMessage, UiMessage, WidgetMessage};
use crate::ui::{UserInterface, DoubleClickEntry, RestrictionEntry, focus_messages, without_first};

verus! {

/// One widget of the tree, without its children.
#[derive(Copy, Clone, Debug, PartialEq, Eq, Structural)]
pub struct WidgetNode {
    /// Whether the slot holds a widget.
    pub alive: bool,
    /// The generation of the slot: a handle names the widget only with this generation.
    pub generation: u32,
    pub parent: Handle,
    /// Whether the widget can be dragged.
    pub drag_allowed: bool,
    /// Whether something can be dropped on the widget.
    pub drop_allowed: bool,
    /// Whether the mouse is over the widget itself (not only over a child).
    pub mouse_directly_over: bool,
    /// Whether the widget and all its ancestors are visible.
    pub globally_visible: bool,
    /// The widget's context menu, or none.
    pub context_menu: Handle,
    /// The widget's tooltip, or none.
    pub tooltip: Handle,
}

/// The widgets of a user interface, by slot: slot `i` holds the widget of index `i`, and
/// `children[i]` its children in drawing order.
pub struct WidgetTree {
    pub nodes: Vec<WidgetNode>,
    pub children: Vec<Vec<Handle>>,
}

/// The widget tree as plain values.
pub struct TreeView {
    pub nodes: Seq<WidgetNode>,
    pub children: Seq<Seq<Handle>>,
}

impl View for WidgetTree {
    type V = TreeView;

    open spec fn view(&self) -> TreeView {
        TreeView { nodes: self.nodes@, children: self.children@.map_values(|c: Vec<Handle>| c@) }
    }
}

impl WidgetTree {
    /// There are as many children lists as slots, and slot indices fit in a handle.
    pub open spec fn wf(&self) -> bool {
        &&& self.nodes@.len() == self.children@.len()
        &&& self.nodes@.len() <= u32::MAX
    }
}

/// Whether `h` names a widget of the tree: not the none handle, and a slot that holds a widget
/// of the same generation.
pub open spec fn node_valid(nodes: Seq<WidgetNode>, h: Handle) -> bool {
    &&& !h.spec_is_none()
    &&& h.index < nodes.len()
    &&& nodes[h.index as int].alive
    &&& nodes[h.index as int].generation == h.generation
}

/// The widgets from `h` up through its parents, as long as they exist, at most `fuel` of them.
pub open spec fn route_up(nodes: Seq<WidgetNode>, h: Handle, fuel: nat) -> Seq<Handle>
    decreases fuel,
{
    if fuel == 0 || !node_valid(nodes, h) {
        Seq::empty()
    } else {
        seq![h] + route_up(nodes, nodes[h.index as int].parent, (fuel - 1) as nat)
    }
}

/// The order in which a message addressed to `h` reaches the widgets: `h`, then its parent,
/// and so on up to the root.
pub open spec fn bubble_route(nodes: Seq<WidgetNode>, h: Handle) -> Seq<Handle> {
    route_up(nodes, h, nodes.len())
}

/// The first widget from `h` up through its parents that allows dragging (with `drop`, that
/// allows dropping), or none.
pub open spec fn find_up(nodes: Seq<WidgetNode>, h: Handle, fuel: nat, drop: bool) -> Handle
    decreases fuel,
{
    if fuel == 0 || !node_valid(nodes, h) {
        Handle::spec_none()
    } else if (if drop { nodes[h.index as int].drop_allowed } else { nodes[h.index as int].drag_allowed }) {
        h
    } else {
        find_up(nodes, nodes[h.index as int].parent, (fuel - 1) as nat, drop)
    }
}

/// The first widget from `h` up through its parents that has a context menu, or none.
pub open spec fn find_menu_up(nodes: Seq<WidgetNode>, h: Handle, fuel: nat) -> Handle
    decreases fuel,
{
    if fuel == 0 || !node_valid(nodes, h) {
        Handle::spec_none()
    } else if !nodes[h.index as int].context_menu.spec_is_none() {
        h
    } else {
        find_menu_up(nodes, nodes[h.index as int].parent, (fuel - 1) as nat)
    }
}

proof fn lemma_find_menu_up_valid(nodes: Seq<WidgetNode>, h: Handle, fuel: nat)
    ensures
        find_menu_up(nodes, h, fuel).spec_is_none() || node_valid(nodes, find_menu_up(nodes, h, fuel)),
    decreases fuel,
{
    if fuel > 0 && node_valid(nodes, h) && nodes[h.index as int].context_menu.spec_is_none() {
        lemma_find_menu_up_valid(nodes, nodes[h.index as int].parent, (fuel - 1) as nat);
    }
}

/// The messages that show a context menu after a right click on the picked widget `picked`:
/// the menu of the first widget from it up that has one is placed at the cursor for that
/// widget, opened, and told that it serves the picked widget.
pub open spec fn context_menu_messages(nodes: Seq<WidgetNode>, picked: Handle) -> Seq<UiMessage> {
    let target = find_menu_up(nodes, picked, nodes.len());
    if target.spec_is_none() {
        Seq::empty()
    } else {
        let menu = nodes[target.index as int].context_menu;
        seq![
            UiMessage { destination: menu, direction: MessageDirection::ToWidget, handled: false, data: MessageData::Popup(PopupMessage::PlacementAtCursor(target)) },
            UiMessage { destination: menu, direction: MessageDirection::ToWidget, handled: false, data: MessageData::Popup(PopupMessage::Open) },
            UiMessage { destination: menu, direction: MessageDirection::ToWidget, handled: false, data: MessageData::Popup(PopupMessage::Owner(picked)) },
        ]
    }
}

/// `s` without the first occurrence of `h`.
pub open spec fn remove_first(s: Seq<Handle>, h: Handle) -> Seq<Handle>
    decreases s.len(),
{
    if s.len() == 0 {
        s
    } else if s[0] == h {
        s.drop_first()
    } else {
        seq![s[0]] + remove_first(s.drop_first(), h)
    }
}

proof fn lemma_remove_first(s: Seq<Handle>, h: Handle, p: int)
    requires
        0 <= p <= s.len(),
        p < s.len() ==> s[p] == h,
        forall|k: int| 0 <= k < p ==> s[k] != h,
    ensures
        remove_first(s, h) == (if p < s.len() { s.remove(p) } else { s }),
    decreases s.len(),
{
    if s.len() > 0 {
        if s[0] == h {
            assert(p == 0);
            assert(s.drop_first() =~= s.remove(0));
        } else {
            lemma_remove_first(s.drop_first(), h, p - 1);
            if p < s.len() {
                assert(seq![s[0]] + s.drop_first().remove(p - 1) =~= s.remove(p));
            } else {
                assert(seq![s[0]] + s.drop_first() =~= s);
            }
        }
    }
}

/// The tree after `h` leaves its parent: its parent becomes none, and it leaves the parent's
/// children.
pub open spec fn isolated(t: TreeView, h: Handle) -> TreeView {
    let p = t.nodes[h.index as int].parent;
    if p.spec_is_none() {
        t
    } else {
        TreeView {
            nodes: t.nodes.update(h.index as int, WidgetNode { parent: Handle::spec_none(), ..t.nodes[h.index as int] }),
            children: if node_valid(t.nodes, p) {
                t.children.update(p.index as int, remove_first(t.children[p.index as int], h))
            } else {
                t.children
            },
        }
    }
}

/// The tree after `child` becomes the last child (with `front`, the first) of `parent`.
pub open spec fn linked(t: TreeView, child: Handle, parent: Handle, front: bool) -> TreeView {
    let i = isolated(t, child);
    let c = i.children[parent.index as int];
    TreeView {
        nodes: i.nodes.update(child.index as int, WidgetNode { parent, ..i.nodes[child.index as int] }),
        children: i.children.update(parent.index as int, if front { seq![child] + c } else { c.push(child) }),
    }
}

/// The tree after `h` moves to the end (with `front`, the start) of its parent's children.
pub open spec fn reordered(t: TreeView, h: Handle, front: bool) -> TreeView {
    let p = t.nodes[h.index as int].parent;
    if node_valid(t.nodes, p) {
        let c = remove_first(t.children[p.index as int], h);
        TreeView { nodes: t.nodes, children: t.children.update(p.index as int, if front { seq![h] + c } else { c.push(h) }) }
    } else {
        t
    }
}

/// The handle of the widget in slot `i`.
pub open spec fn slot_handle(nodes: Seq<WidgetNode>, i: int) -> Handle {
    Handle { index: i as u32, generation: nodes[i].generation }
}

/// Whether the widget in slot `i` lies in the subtree of `root`: it exists and `root` is on
/// its way up.
pub open spec fn in_subtree(nodes: Seq<WidgetNode>, i: int, root: Handle) -> bool {
    node_valid(nodes, slot_handle(nodes, i)) && route_up(nodes, slot_handle(nodes, i), nodes.len()).contains(root)
}

/// The slots after freeing every widget of the subtree of `root`.
pub open spec fn without_subtree(nodes: Seq<WidgetNode>, root: Handle) -> Seq<WidgetNode> {
    Seq::new(nodes.len(), |i: int| if in_subtree(nodes, i, root) { WidgetNode { alive: false, ..nodes[i] } } else { nodes[i] })
}

/// The picking restrictions after removing, for each freed widget of the first `n` slots in
/// slot order, its first restriction.
pub open spec fn restrictions_without(stack: Seq<RestrictionEntry>, nodes: Seq<WidgetNode>, root: Handle, n: int) -> Seq<RestrictionEntry>
    decreases n,
{
    if n <= 0 {
        stack
    } else {
        let s = restrictions_without(stack, nodes, root, n - 1);
        if in_subtree(nodes, n - 1, root) { without_first(s, slot_handle(nodes, n - 1)) } else { s }
    }
}

/// `h`, unless it is a widget of the subtree of `root` about to be freed, in which case none.
pub open spec fn unless_removed(nodes: Seq<WidgetNode>, root: Handle, h: Handle) -> Handle {
    if node_valid(nodes, h) && route_up(nodes, h, nodes.len()).contains(root) { Handle::spec_none() } else { h }
}

/// Whether the widget `h` is freed with the subtree of `root` (among the first `n` slots).
pub open spec fn removed_before(nodes: Seq<WidgetNode>, root: Handle, h: Handle, n: int) -> bool {
    &&& h.index < n
    &&& in_subtree(nodes, h.index as int, root)
    &&& slot_handle(nodes, h.index as int) == h
}

/// The double click entries after the picked widget changed: timers restarted, counts cleared.
pub open spec fn reset_entries(entries: Seq<DoubleClickEntry>, slice: u32) -> Seq<DoubleClickEntry> {
    Seq::new(entries.len(), |i: int| DoubleClickEntry { timer: slice, click_count: 0, ..entries[i] })
}

/// The user interface after the widgets of the subtree of `root` in the tree `nodes` are freed:
/// the picked, previously picked, captured and focused widgets among them are forgotten (the
/// double click counts restart when the picked one is), and each loses its first picking
/// restriction.
pub open spec fn ui_without_subtree(ui: UserInterface, nodes: Seq<WidgetNode>, root: Handle) -> UserInterface {
    UserInterface {
        prev_picked_node: unless_removed(nodes, root, ui.prev_picked_node),
        picked_node: unless_removed(nodes, root, ui.picked_node),
        captured_node: unless_removed(nodes, root, ui.captured_node),
        keyboard_focus_node: unless_removed(nodes, root, ui.keyboard_focus_node),
        ..ui
    }
}

proof fn lemma_removed_before_all(nodes: Seq<WidgetNode>, root: Handle, h: Handle)
    ensures
        removed_before(nodes, root, h, nodes.len() as int) == (node_valid(nodes, h) && route_up(nodes, h, nodes.len()).contains(root)),
{
    if node_valid(nodes, h) {
        assert(slot_handle(nodes, h.index as int) == h);
    }
}

/// What routing a message did: the widgets it reached, in order, and the messages the user
/// interface sends in reply.
#[derive(Debug)]
pub struct RouteStep {
    pub route: Vec<Handle>,
    pub out: Vec<UiMessage>,
}

impl WidgetTree {
    /// Whether the widget in slot `i` lies in the subtree of `root`.
    fn slot_in_subtree(&self, i: usize, root: Handle) -> (r: bool)
        requires
            i < self.nodes@.len(),
            self.nodes@.len() <= u32::MAX,
        ensures
            r == in_subtree(self.nodes@, i as int, root),
    {
        let sh = Handle { index: i as u32, generation: self.nodes[i].generation };
        assert(sh == slot_handle(self.nodes@, i as int));
        if !self.is_valid(sh) {
            return false;
        }
        let route = self.route(sh);
        let mut k: usize = 0;
        while k < route.len()
            invariant
                k <= route@.len(),
                route@ == bubble_route(self.nodes@, sh),
                node_valid(self.nodes@, sh),
                sh == slot_handle(self.nodes@, i as int),
                forall|j: int| 0 <= j < k ==> route@[j] != root,
            decreases route@.len() - k,
        {
            if route[k] == root {
                assert(route@.contains(root)) by {
                    assert(route@[k as int] == root);
                }
                assert(route_up(self.nodes@, sh, self.nodes@.len()).contains(root));
                assert(node_valid(self.nodes@, slot_handle(self.nodes@, i as int)));
                return true;
            }
            k = k + 1;
        }
        false
    }
}

impl UserInterface {
    /// Frees `root` and every widget below it: `root` leaves its parent, the widgets of its
    /// subtree are freed, and the user interface forgets them.
    pub fn remove_widget(&mut self, tree: &mut WidgetTree, root: Handle)
        requires
            old(tree).wf(),
            node_valid(old(tree).nodes@, root),
        ensures
            final(tree).wf(),
            final(tree)@.nodes == without_subtree(isolated(old(tree)@, root).nodes, root),
            final(tree)@.children == isolated(old(tree)@, root).children,
            ({
                let nodes = isolated(old(tree)@, root).nodes;
                let picked_removed = node_valid(nodes, old(self).picked_node) && route_up(nodes, old(self).picked_node, nodes.len()).contains(root);
                &&& *final(self) == (UserInterface {
                    picking_stack: final(self).picking_stack,
                    double_click_entries: final(self).double_click_entries,
                    ..ui_without_subtree(*old(self), nodes, root)
                })
                &&& final(self).picking_stack@ == restrictions_without(old(self).picking_stack@, nodes, root, nodes.len() as int)
                &&& final(self).double_click_entries@ == (if picked_removed {
                    reset_entries(old(self).double_click_entries@, old(self).double_click_time_slice)
                } else {
                    old(self).double_click_entries@
                })
            }),
    {
        tree.isolate(root);
        let ghost nodes = tree.nodes@;
        let n = tree.nodes.len();
        let mut marks: Vec<bool> = Vec::new();
        let mut i: usize = 0;
        while i < n
            invariant
                i <= n,
                n == tree.nodes@.len(),
                tree.nodes@ == nodes,
                tree.wf(),
                marks@.len() == i,
                forall|j: int| 0 <= j < i ==> marks@[j] == in_subtree(nodes, j, root),
            decreases n - i,
        {
            let m = tree.slot_in_subtree(i, root);
            marks.push(m);
            i = i + 1;
        }
        let ghost old_ui = *self;
        let ghost picked_removed = node_valid(nodes, old_ui.picked_node) && route_up(nodes, old_ui.picked_node, nodes.len()).contains(root);
        let mut i: usize = 0;
        while i < n
            invariant
                i <= n,
                n == nodes.len(),
                n <= u32::MAX,
                marks@.len() == n,
                forall|j: int| 0 <= j < n ==> marks@[j] == in_subtree(nodes, j, root),
                tree.nodes@.len() == n,
                tree.wf(),
                tree@.children == isolated(old(tree)@, root).children,
                forall|j: int| 0 <= j < n ==> #[trigger] tree.nodes@[j]
                    == (if j < i && in_subtree(nodes, j, root) { WidgetNode { alive: false, ..nodes[j] } } else { nodes[j] }),
                self.prev_picked_node == (if removed_before(nodes, root, old_ui.prev_picked_node, i as int) { Handle::spec_none() } else { old_ui.prev_picked_node }),
                self.picked_node == (if removed_before(nodes, root, old_ui.picked_node, i as int) { Handle::spec_none() } else { old_ui.picked_node }),
                self.captured_node == (if removed_before(nodes, root, old_ui.captured_node, i as int) { Handle::spec_none() } else { old_ui.captured_node }),
                self.keyboard_focus_node == (if removed_before(nodes, root, old_ui.keyboard_focus_node, i as int) { Handle::spec_none() } else { old_ui.keyboard_focus_node }),
                self.picking_stack@ == restrictions_without(old_ui.picking_stack@, nodes, root, i as int),
                self.double_click_entries@ == (if removed_before(nodes, root, old_ui.picked_node, i as int) {
                    reset_entries(old_ui.double_click_entries@, old_ui.double_click_time_slice)
                } else {
                    old_ui.double_click_entries@
                }),
                *self == (UserInterface {
                    prev_picked_node: self.prev_picked_node,
                    picked_node: self.picked_node,
                    captured_node: self.captured_node,
                    keyboard_focus_node: self.keyboard_focus_node,
                    picking_stack: self.picking_stack,
                    double_click_entries: self.double_click_entries,
                    ..old_ui
                }),
            decreases n - i,
        {
            if marks[i] {
                let node = tree.nodes[i];
                let sh = Handle { index: i as u32, generation: node.generation };
                assert(sh == slot_handle(nodes, i as int));
                assert(node_valid(nodes, sh));
                tree.nodes.set(i, WidgetNode { alive: false, ..node });
                if self.prev_picked_node == sh {
                    self.prev_picked_node = Handle::none();
                }
                if self.picked_node == sh {
                    self.try_set_picked_node(Handle::none());
                    assert(self.double_click_entries@ =~= reset_entries(old_ui.double_click_entries@, old_ui.double_click_time_slice));
                }
                if self.captured_node == sh {
                    self.captured_node = Handle::none();
                }
                if self.keyboard_focus_node == sh {
                    self.keyboard_focus_node = Handle::none();
                }
                self.remove_picking_restriction(sh);
            }
            i = i + 1;
        }
        proof {
            lemma_removed_before_all(nodes, root, old_ui.prev_picked_node);
            lemma_removed_before_all(nodes, root, old_ui.picked_node);
            lemma_removed_before_all(nodes, root, old_ui.captured_node);
            lemma_removed_before_all(nodes, root, old_ui.keyboard_focus_node);
            assert(tree.nodes@ =~= without_subtree(nodes, root));
        }
    }
}

/// The tree after the widget `h` gets the context menu (with `tooltip`, the tooltip) `m`, none
/// meaning no menu.
pub open spec fn with_widget_handle(t: TreeView, h: Handle, m: Option<Handle>, tooltip: bool) -> TreeView {
    let v = match m { Some(x) => x, None => Handle::spec_none() };
    let n = t.nodes[h.index as int];
    TreeView {
        nodes: t.nodes.update(h.index as int, if tooltip { WidgetNode { tooltip: v, ..n } } else { WidgetNode { context_menu: v, ..n } }),
        children: t.children,
    }
}

impl UserInterface {
    fn context_menu_out(&self, tree: &WidgetTree) -> (r: Vec<UiMessage>)
        ensures
            r@ == context_menu_messages(tree.nodes@, self.picked_node),
    {
        let mut out: Vec<UiMessage> = Vec::new();
        let target = tree.find_menu_up(self.picked_node);
        proof {
            lemma_find_menu_up_valid(tree.nodes@, self.picked_node, tree.nodes@.len());
        }
        if target.is_some() {
            let menu = tree.nodes[target.index as usize].context_menu;
            out.push(UiMessage::for_widget(menu, MessageData::Popup(PopupMessage::PlacementAtCursor(target))));
            out.push(UiMessage::for_widget(menu, MessageData::Popup(PopupMessage::Open)));
            out.push(UiMessage::for_widget(menu, MessageData::Popup(PopupMessage::Owner(self.picked_node))));
        }
        assert(out@ =~= context_menu_messages(tree.nodes@, self.picked_node));
        out
    }

    /// Routes one message: when it is addressed to a widget of the tree, it reaches that widget
    /// and then each of its ancestors in turn, up to the root (`route`). The user interface
    /// then reacts to the widget messages that concern it: a request to focus a widget (or to
    /// drop the focus, which goes back to the root canvas) moves the keyboard focus and sends
    /// the focus messages; `Topmost` and `Lowermost` move the widget to the end or the start of
    /// its parent's children; `LinkWith` and `LinkWithReverse` make it the last or first child
    /// of an existing widget other than itself; `Unlink` moves it under the root canvas;
    /// `Remove` frees it with its subtree; `ContextMenu` and `Tooltip` set its menu or
    /// tooltip; a right button going down shows the context menu of the picked widget or of
    /// its nearest ancestor that has one. A message addressed to no widget reaches nothing and
    /// changes nothing.
    pub fn poll_message_step(&mut self, tree: &mut WidgetTree, message: &UiMessage) -> (r: RouteStep)
        requires
            old(tree).wf(),
        ensures
            final(tree).wf(),
            !node_valid(old(tree).nodes@, message.destination) ==> {
                &&& r.route@.len() == 0
                &&& r.out@.len() == 0
                &&& *final(self) == *old(self)
                &&& final(tree)@ == old(tree)@
            },
            node_valid(old(tree).nodes@, message.destination) ==> {
                let d = message.destination;
                let t = old(tree)@;
                &&& r.route@ == bubble_route(t.nodes, d)
                &&& match message.data {
                    MessageData::Widget(WidgetMessage::Focus) => if message.direction == MessageDirection::ToWidget {
                        &&& r.out@ == focus_messages(old(self).keyboard_focus_node, d)
                        &&& *final(self) == (UserInterface { keyboard_focus_node: d, ..*old(self) })
                        &&& final(tree)@ == t
                    } else {
                        r.out@.len() == 0 && *final(self) == *old(self) && final(tree)@ == t
                    },
                    MessageData::Widget(WidgetMessage::Unfocus) => if message.direction == MessageDirection::ToWidget {
                        &&& r.out@ == focus_messages(old(self).keyboard_focus_node, old(self).root_canvas)
                        &&& *final(self) == (UserInterface { keyboard_focus_node: old(self).root_canvas, ..*old(self) })
                        &&& final(tree)@ == t
                    } else {
                        r.out@.len() == 0 && *final(self) == *old(self) && final(tree)@ == t
                    },
                    MessageData::Widget(WidgetMessage::Topmost) =>
                        r.out@.len() == 0 && *final(self) == *old(self) && final(tree)@ == reordered(t, d, false),
                    MessageData::Widget(WidgetMessage::Lowermost) =>
                        r.out@.len() == 0 && *final(self) == *old(self) && final(tree)@ == reordered(t, d, true),
                    MessageData::Widget(WidgetMessage::LinkWith(p)) =>
                        r.out@.len() == 0 && *final(self) == *old(self)
                            && final(tree)@ == (if node_valid(t.nodes, p) && p != d { linked(t, d, p, false) } else { t }),
                    MessageData::Widget(WidgetMessage::LinkWithReverse(p)) =>
                        r.out@.len() == 0 && *final(self) == *old(self)
                            && final(tree)@ == (if node_valid(t.nodes, p) && p != d { linked(t, d, p, true) } else { t }),
                    MessageData::Widget(WidgetMessage::Unlink) =>
                        r.out@.len() == 0 && *final(self) == *old(self)
                            && final(tree)@ == (if node_valid(t.nodes, old(self).root_canvas) && old(self).root_canvas != d {
                                linked(t, d, old(self).root_canvas, false)
                            } else {
                                isolated(t, d)
                            }),
                    MessageData::Widget(WidgetMessage::Remove) => {
                        let nodes = isolated(t, d).nodes;
                        let picked_removed = node_valid(nodes, old(self).picked_node) && route_up(nodes, old(self).picked_node, nodes.len()).contains(d);
                        &&& r.out@.len() == 0
                        &&& final(tree)@.nodes == without_subtree(nodes, d)
                        &&& final(tree)@.children == isolated(t, d).children
                        &&& *final(self) == (UserInterface {
                            picking_stack: final(self).picking_stack,
                            double_click_entries: final(self).double_click_entries,
                            ..ui_without_subtree(*old(self), nodes, d)
                        })
                        &&& final(self).picking_stack@ == restrictions_without(old(self).picking_stack@, nodes, d, nodes.len() as int)
                        &&& final(self).double_click_entries@ == (if picked_removed {
                            reset_entries(old(self).double_click_entries@, old(self).double_click_time_slice)
                        } else {
                            old(self).double_click_entries@
                        })
                    },
                    MessageData::Widget(WidgetMessage::ContextMenu(m)) =>
                        r.out@.len() == 0 && *final(self) == *old(self) && final(tree)@ == with_widget_handle(t, d, m, false),
                    MessageData::Widget(WidgetMessage::Tooltip(m)) =>
                        r.out@.len() == 0 && *final(self) == *old(self) && final(tree)@ == with_widget_handle(t, d, m, true),
                    MessageData::Widget(WidgetMessage::MouseDown { button }) =>
                        r.out@ == (if button == MouseButton::Right { context_menu_messages(t.nodes, old(self).picked_node) } else { Seq::empty() })
                            && *final(self) == *old(self) && final(tree)@ == t,
                    _ => r.out@.len() == 0 && *final(self) == *old(self) && final(tree)@ == t,
                }
            },
    {
        let d = message.destination;
        if !tree.is_valid(d) {
            return RouteStep { route: Vec::new(), out: Vec::new() };
        }
        let route = tree.route(d);
        let mut out: Vec<UiMessage> = Vec::new();
        match &message.data {
            MessageData::Widget(w) => {
                match w {
                    WidgetMessage::Focus => {
                        if message.direction == MessageDirection::ToWidget {
                            out = self.request_focus(d);
                        }
                    },
                    WidgetMessage::Unfocus => {
                        if message.direction == MessageDirection::ToWidget {
                            let root = self.root_canvas;
                            out = self.request_focus(root);
                        }
                    },
                    WidgetMessage::Topmost => {
                        tree.reorder(d, false);
                    },
                    WidgetMessage::Lowermost => {
                        tree.reorder(d, true);
                    },
                    WidgetMessage::LinkWith(p) => {
                        if tree.is_valid(*p) && *p != d {
                            tree.link(d, *p, false);
                        }
                    },
                    WidgetMessage::LinkWithReverse(p) => {
                        if tree.is_valid(*p) && *p != d {
                            tree.link(d, *p, true);
                        }
                    },
                    WidgetMessage::Unlink => {
                        let root = self.root_canvas;
                        if tree.is_valid(root) && root != d {
                            tree.link(d, root, false);
                        } else {
                            tree.isolate(d);
                        }
                    },
                    WidgetMessage::Remove => {
                        self.remove_widget(tree, d);
                    },
                    WidgetMessage::ContextMenu(m) => {
                        let v = match m { Some(x) => *x, None => Handle::none() };
                        let i = d.index as usize;
                        let n = tree.nodes[i];
                        tree.nodes.set(i, WidgetNode { context_menu: v, ..n });
                        assert(tree@.nodes =~= with_widget_handle(old(tree)@, d, *m, false).nodes);
                        assert(tree@.children =~= with_widget_handle(old(tree)@, d, *m, false).children);
                    },
                    WidgetMessage::Tooltip(m) => {
                        let v = match m { Some(x) => *x, None => Handle::none() };
                        let i = d.index as usize;
                        let n = tree.nodes[i];
                        tree.nodes.set(i, WidgetNode { tooltip: v, ..n });
                        assert(tree@.nodes =~= with_widget_handle(old(tree)@, d, *m, true).nodes);
                        assert(tree@.children =~= with_widget_handle(old(tree)@, d, *m, true).children);
                    },
                    WidgetMessage::MouseDown { button } => {
                        if *button == MouseButton::Right {
                            out = self.context_menu_out(tree);
                        }
                    },
                    _ => {},
                }
            },
            _ => {},
        }
        RouteStep { route, out }
    }
}

impl WidgetTree {
    /// Whether `h` names a widget of the tree.
    pub fn is_valid(&self, h: Handle) -> (r: bool)
        ensures
            r == node_valid(self.nodes@, h),
    {
        if h.is_none() {
            return false;
        }
        let i = h.index as usize;
        i < self.nodes.len() && self.nodes[i].alive && self.nodes[i].generation == h.generation
    }

    /// The widgets a message addressed to `h` reaches, in order.
    pub fn route(&self, h: Handle) -> (r: Vec<Handle>)
        ensures
            r@ == bubble_route(self.nodes@, h),
    {
        let mut out: Vec<Handle> = Vec::new();
        let mut cur = h;
        let mut fuel = self.nodes.len();
        loop
            invariant
                fuel <= self.nodes@.len(),
                out@ + route_up(self.nodes@, cur, fuel as nat) == bubble_route(self.nodes@, h),
            ensures
                out@ == bubble_route(self.nodes@, h),
            decreases fuel,
        {
            if fuel == 0 || !self.is_valid(cur) {
                assert(out@ + Seq::<Handle>::empty() =~= out@);
                break;
            }
            let next = self.nodes[cur.index as usize].parent;
            proof {
                assert(out@.push(cur) + route_up(self.nodes@, next, (fuel - 1) as nat) =~= out@ + route_up(self.nodes@, cur, fuel as nat));
            }
            out.push(cur);
            cur = next;
            fuel = fuel - 1;
        }
        out
    }

    /// The first widget from `h` up through its parents that has a context menu, or none.
    pub fn find_menu_up(&self, h: Handle) -> (r: Handle)
        ensures
            r == find_menu_up(self.nodes@, h, self.nodes@.len()),
    {
        let mut cur = h;
        let mut fuel = self.nodes.len();
        loop
            invariant
                fuel <= self.nodes@.len(),
                find_menu_up(self.nodes@, cur, fuel as nat) == find_menu_up(self.nodes@, h, self.nodes@.len()),
            decreases fuel,
        {
            if fuel == 0 || !self.is_valid(cur) {
                return Handle::none();
            }
            let n = self.nodes[cur.index as usize];
            if n.context_menu.is_some() {
                return cur;
            }
            cur = n.parent;
            fuel = fuel - 1;
        }
    }

    /// The first widget from `h` up through its parents that allows dragging (with `drop`,
    /// dropping), or none.
    pub fn find_up(&self, h: Handle, drop: bool) -> (r: Handle)
        ensures
            r == find_up(self.nodes@, h, self.nodes@.len(), drop),
    {
        let mut cur = h;
        let mut fuel = self.nodes.len();
        loop
            invariant
                fuel <= self.nodes@.len(),
                find_up(self.nodes@, cur, fuel as nat, drop) == find_up(self.nodes@, h, self.nodes@.len(), drop),
            decreases fuel,
        {
            if fuel == 0 || !self.is_valid(cur) {
                return Handle::none();
            }
            let n = self.nodes[cur.index as usize];
            if (if drop { n.drop_allowed } else { n.drag_allowed }) {
                return cur;
            }
            cur = n.parent;
            fuel = fuel - 1;
        }
    }

    fn set_children(&mut self, i: usize, c: Vec<Handle>)
        requires
            i < old(self).children@.len(),
        ensures
            final(self).nodes@ == old(self).nodes@,
            final(self)@.children == old(self)@.children.update(i as int, c@),
            final(self).children@.len() == old(self).children@.len(),
    {
        let ghost c_view = c@;
        self.children.set(i, c);
        assert(self@.children =~= old(self)@.children.update(i as int, c_view));
    }

    fn copy_children(&self, i: usize) -> (r: Vec<Handle>)
        requires
            i < self.children@.len(),
        ensures
            r@ == self@.children[i as int],
    {
        let src = &self.children[i];
        let mut out: Vec<Handle> = Vec::new();
        let mut k: usize = 0;
        while k < src.len()
            invariant
                k <= src@.len(),
                out@ == src@.take(k as int),
            decreases src@.len() - k,
        {
            out.push(src[k]);
            k = k + 1;
            assert(out@ =~= src@.take(k as int));
        }
        assert(src@.take(src@.len() as int) =~= src@);
        out
    }

    /// The children of slot `i` without the first occurrence of `h`.
    fn children_without(&self, i: usize, h: Handle) -> (r: Vec<Handle>)
        requires
            i < self.children@.len(),
        ensures
            r@ == remove_first(self@.children[i as int], h),
    {
        let mut c = self.copy_children(i);
        let ghost s = c@;
        let mut p: usize = 0;
        while p < c.len()
            invariant
                p <= s.len(),
                c@ == s,
                forall|k: int| 0 <= k < p ==> s[k] != h,
            ensures
                p <= s.len(),
                p < s.len() ==> s[p as int] == h,
                forall|k: int| 0 <= k < p ==> s[k] != h,
            decreases s.len() - p,
        {
            if c[p] == h {
                break;
            }
            p = p + 1;
        }
        proof {
            lemma_remove_first(s, h, p as int);
        }
        if p < c.len() {
            c.remove(p);
        }
        c
    }

    /// `h` leaves its parent.
    pub fn isolate(&mut self, h: Handle)
        requires
            old(self).wf(),
            node_valid(old(self).nodes@, h),
        ensures
            final(self).wf(),
            final(self)@ == isolated(old(self)@, h),
    {
        let i = h.index as usize;
        let n = self.nodes[i];
        let p = n.parent;
        if p.is_some() {
            self.nodes.set(i, WidgetNode { parent: Handle::none(), ..n });
            if self.is_valid(p) {
                let c = self.children_without(p.index as usize, h);
                self.set_children(p.index as usize, c);
            }
            assert(self@.nodes =~= isolated(old(self)@, h).nodes);
            assert(self@.children =~= isolated(old(self)@, h).children);
        }
    }

    /// `child` becomes the last child (with `front`, the first) of `parent`, after leaving its
    /// former parent.
    pub fn link(&mut self, child: Handle, parent: Handle, front: bool)
        requires
            old(self).wf(),
            node_valid(old(self).nodes@, child),
            node_valid(old(self).nodes@, parent),
        ensures
            final(self).wf(),
            final(self)@ == linked(old(self)@, child, parent, front),
    {
        self.isolate(child);
        let ghost t = self@;
        let pi = parent.index as usize;
        let mut c = self.copy_children(pi);
        let ghost c0 = c@;
        if front {
            c.insert(0, child);
            assert(c@ =~= seq![child] + c0);
        } else {
            c.push(child);
        }
        let ci = child.index as usize;
        let n = self.nodes[ci];
        self.nodes.set(ci, WidgetNode { parent, ..n });
        self.set_children(pi, c);
        assert(self@.nodes =~= linked(old(self)@, child, parent, front).nodes);
        assert(self@.children =~= linked(old(self)@, child, parent, front).children);
    }

    /// `h` moves to the end (with `front`, the start) of its parent's children.
    pub fn reorder(&mut self, h: Handle, front: bool)
        requires
            old(self).wf(),
            node_valid(old(self).nodes@, h),
        ensures
            final(self).wf(),
            final(self)@ == reordered(old(self)@, h, front),
    {
        let p = self.nodes[h.index as usize].parent;
        if self.is_valid(p) {
            let mut c = self.children_without(p.index as usize, h);
            let ghost c0 = c@;
            if front {
                c.insert(0, h);
                assert(c@ =~= seq![h] + c0);
            } else {
                c.push(h);
            }
            self.set_children(p.index as usize, c);
            assert(self@.nodes =~= reordered(old(self)@, h, front).nodes);
            assert(self@.children =~= reordered(old(self)@, h, front).children);
        }
    }
}

} // verus!
