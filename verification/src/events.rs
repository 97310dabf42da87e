//! What the user interface does with an event of the operating system: which widget is picked
//! and focused, the double click counts, dragging and dropping, the mouse entering and leaving
//! widgets, and the messages each event sends. Where an event has a position, the caller passes
//! the widget that the hit test finds there.

use vstd::prelude::*;
use crate::message::{ButtonState, Handle, KeyCode, KeyboardModifiers, MessageData, MessageDirection, MouseButton, UiMessage, WidgetMessage};
use crate::ui::{UserInterface, DoubleClickEntry, MouseState, after_press, focus_messages, spec_timer_running};
use crate::tree::{WidgetNode, WidgetTree, node_valid, find_up, reset_entries};

verus! {

/// The phase of a touch.
#[derive(Copy, Clone, Debug, PartialEq, Eq, Structural)]
pub enum TouchPhase {
    Started,
    Moved,
    Ended,
    Cancelled,
}

/// An event of the operating system, as plain values.
#[derive(Debug)]
pub enum OsEvent {
    /// A mouse button went down or up.
    MouseInput { button: MouseButton, state: ButtonState },
    /// The cursor moved; `past_drag_threshold` tells whether it is now farther from where the
    /// mouse was last pressed than dragging needs.
    CursorMoved { past_drag_threshold: bool },
    /// The mouse wheel turned.
    MouseWheel,
    /// A key went down or up, typing `text` (possibly empty).
    KeyboardInput { button: KeyCode, state: ButtonState, text: String },
    /// The modifier keys changed.
    KeyboardModifiers(KeyboardModifiers),
    /// A touch started, moved, ended or was cancelled.
    Touch { phase: TouchPhase, id: u64 },
}

/// The part of a user interface that events change, as plain values.
#[verifier::ext_equal]
pub struct PointerState {
    pub picked: Handle,
    pub prev_picked: Handle,
    pub focus: Handle,
    pub drag_node: Handle,
    pub is_dragging: bool,
    pub mouse_state: MouseState,
    pub modifiers: KeyboardModifiers,
    pub entries: Seq<DoubleClickEntry>,
}

pub open spec fn pointer_of(ui: UserInterface) -> PointerState {
    PointerState {
        picked: ui.picked_node,
        prev_picked: ui.prev_picked_node,
        focus: ui.keyboard_focus_node,
        drag_node: ui.drag_node,
        is_dragging: ui.is_dragging,
        mouse_state: ui.mouse_state,
        modifiers: ui.keyboard_modifiers,
        entries: ui.double_click_entries@,
    }
}

/// The message `w` coming from the widget `h`.
pub open spec fn from_widget(h: Handle, w: WidgetMessage) -> UiMessage {
    UiMessage { destination: h, direction: MessageDirection::FromWidget, handled: false, data: MessageData::Widget(w) }
}

/// `m` alone when `c` holds, otherwise nothing.
pub open spec fn sent_if(c: bool, m: UiMessage) -> Seq<UiMessage> {
    if c { seq![m] } else { Seq::empty() }
}

/// The state after `picked` becomes the picked widget: when it changes, the double click counts
/// restart.
pub open spec fn picked_state(p: PointerState, picked: Handle, slice: u32) -> PointerState {
    if p.picked != picked { PointerState { picked, entries: reset_entries(p.entries, slice), ..p } } else { p }
}

/// The state after looking for the widget to drag from `start` up: the first that allows
/// dragging becomes the drag widget; when there is none, it stays as it was.
pub open spec fn drag_searched(p: PointerState, nodes: Seq<WidgetNode>, start: Handle) -> PointerState {
    let f = find_up(nodes, start, nodes.len(), false);
    if !start.spec_is_none() && !f.spec_is_none() { PointerState { drag_node: f, ..p } } else { p }
}

/// A press (a mouse button going down, or a touch starting) on the widget `picked`: it becomes
/// the picked widget; when it already was, the press counts towards a double click; the widget
/// to drag is looked for from it up; it gets the keyboard focus; it hears `down` and then, when
/// the press completes a double click, `double`.
pub open spec fn pressed(p: PointerState, nodes: Seq<WidgetNode>, picked: Handle, button: MouseButton, slice: u32, down: WidgetMessage, double: WidgetMessage) -> (PointerState, Seq<UiMessage>) {
    let p1 = picked_state(p, picked, slice);
    let counted = if p.picked != picked { (p1.entries, false) } else { after_press(p1.entries, button, spec_timer_running(p1.entries, button), slice) };
    let p2 = drag_searched(PointerState { entries: counted.0, ..p1 }, nodes, picked);
    (
        PointerState { focus: picked, ..p2 },
        focus_messages(p.focus, picked) + sent_if(!picked.spec_is_none(), from_widget(picked, down)) + sent_if(counted.1, from_widget(picked, double)),
    )
}

/// A release (a mouse button going up, or a touch ending) over the picked widget: it hears `up`;
/// a drag under way ends, dropping the dragged widget on the first widget from the picked one
/// up that allows dropping, if any; the drag widget is forgotten. Without a picked widget,
/// nothing happens.
pub open spec fn released(p: PointerState, nodes: Seq<WidgetNode>, up: WidgetMessage) -> (PointerState, Seq<UiMessage>) {
    if p.picked.spec_is_none() {
        (p, Seq::empty())
    } else {
        let target = find_up(nodes, p.picked, nodes.len(), true);
        (
            PointerState { is_dragging: false, drag_node: Handle::spec_none(), ..p },
            seq![from_widget(p.picked, up)] + sent_if(p.is_dragging && !target.spec_is_none(), from_widget(target, WidgetMessage::Drop(p.drag_node))),
        )
    }
}

/// The cursor moves over `picked`: it becomes the picked widget; a drag starts when the left
/// button is down on a widget that can be dragged and the cursor went far enough; the widget
/// the mouse left hears so, the one it came over hears so, and the picked widget hears that the
/// mouse moved over it and, during a drag, that the dragged widget is over it.
pub open spec fn cursor_moved(p: PointerState, nodes: Seq<WidgetNode>, picked: Handle, past: bool, slice: u32) -> (PointerState, Seq<WidgetNode>, Seq<UiMessage>) {
    let p1 = picked_state(p, picked, slice);
    let start = !p1.is_dragging && p1.mouse_state.left == ButtonState::Pressed && !picked.spec_is_none() && !p1.drag_node.spec_is_none() && past;
    let p2 = if start { PointerState { is_dragging: true, ..p1 } } else { p1 };
    let prev = p.prev_picked;
    let leave = picked != prev && node_valid(nodes, prev) && nodes[prev.index as int].mouse_directly_over;
    let nodes1 = if leave { nodes.update(prev.index as int, WidgetNode { mouse_directly_over: false, ..nodes[prev.index as int] }) } else { nodes };
    let enter = node_valid(nodes1, picked) && !nodes1[picked.index as int].mouse_directly_over;
    let nodes2 = if enter { nodes1.update(picked.index as int, WidgetNode { mouse_directly_over: true, ..nodes1[picked.index as int] }) } else { nodes1 };
    (
        p2,
        nodes2,
        sent_if(start, from_widget(picked, WidgetMessage::DragStarted(p1.drag_node)))
            + sent_if(leave, from_widget(prev, WidgetMessage::MouseLeave))
            + sent_if(enter, from_widget(picked, WidgetMessage::MouseEnter))
            + sent_if(!picked.spec_is_none(), from_widget(picked, WidgetMessage::MouseMove))
            + sent_if(!picked.spec_is_none() && p2.is_dragging, from_widget(picked, WidgetMessage::DragOver(p2.drag_node))),
    )
}

/// The mouse state after `button` goes to `state`; only the left, right and middle buttons are
/// tracked.
pub open spec fn mouse_state_after(m: MouseState, button: MouseButton, state: ButtonState) -> MouseState {
    match button {
        MouseButton::Left => MouseState { left: state, ..m },
        MouseButton::Right => MouseState { right: state, ..m },
        MouseButton::Middle => MouseState { middle: state, ..m },
        _ => m,
    }
}

/// Whether the user interface handled an event (rather than letting it through to what lies
/// behind it): a press or a move over a widget, a release or a wheel turn while a widget is
/// picked, a key while the focused widget is visible; never a change of the modifier keys.
pub open spec fn event_processed(p: PointerState, nodes: Seq<WidgetNode>, event: OsEvent, picked: Handle) -> bool {
    match event {
        OsEvent::MouseInput { state, .. } => if state == ButtonState::Pressed { !picked.spec_is_none() } else { !p.picked.spec_is_none() },
        OsEvent::CursorMoved { .. } => !picked.spec_is_none(),
        OsEvent::MouseWheel => !p.picked.spec_is_none(),
        OsEvent::KeyboardInput { .. } => node_valid(nodes, p.focus) && nodes[p.focus.index as int].globally_visible,
        OsEvent::KeyboardModifiers(_) => false,
        OsEvent::Touch { phase, .. } => match phase {
            TouchPhase::Started | TouchPhase::Moved => !picked.spec_is_none(),
            TouchPhase::Ended | TouchPhase::Cancelled => !p.picked.spec_is_none(),
        },
    }
}

/// What an event does to the pointer state and the widgets, and the messages it sends, the
/// picked widget at the event's position being `picked`. Every event ends with the picked
/// widget remembered as the previously picked one.
pub open spec fn after_event(p: PointerState, nodes: Seq<WidgetNode>, event: OsEvent, picked: Handle, slice: u32) -> (PointerState, Seq<WidgetNode>, Seq<UiMessage>) {
    let r = event_effect(p, nodes, event, picked, slice);
    (PointerState { prev_picked: r.0.picked, ..r.0 }, r.1, r.2)
}

/// What an event does, before the picked widget is remembered as the previously picked one.
pub open spec fn event_effect(p: PointerState, nodes: Seq<WidgetNode>, event: OsEvent, picked: Handle, slice: u32) -> (PointerState, Seq<WidgetNode>, Seq<UiMessage>) {
    match event {
        OsEvent::MouseInput { button, state } => {
            let p0 = PointerState { mouse_state: mouse_state_after(p.mouse_state, button, state), ..p };
            let (q, out) = if state == ButtonState::Pressed {
                pressed(p0, nodes, picked, button, slice, WidgetMessage::MouseDown { button }, WidgetMessage::DoubleClick { button })
            } else {
                released(p0, nodes, WidgetMessage::MouseUp { button })
            };
            (q, nodes, out)
        },
        OsEvent::CursorMoved { past_drag_threshold } => cursor_moved(p, nodes, picked, past_drag_threshold, slice),
        OsEvent::MouseWheel => (p, nodes, sent_if(!p.picked.spec_is_none(), from_widget(p.picked, WidgetMessage::MouseWheel))),
        OsEvent::KeyboardInput { button, state, text } => {
            let to_focus = node_valid(nodes, p.focus) && nodes[p.focus.index as int].globally_visible;
            let out = if !to_focus {
                Seq::empty()
            } else if state == ButtonState::Pressed {
                seq![from_widget(p.focus, WidgetMessage::KeyDown(button))] + sent_if(
                    text@.len() > 0,
                    UiMessage { destination: p.focus, direction: MessageDirection::FromWidget, handled: false, data: MessageData::WidgetText(text) },
                )
            } else {
                seq![from_widget(p.focus, WidgetMessage::KeyUp(button))]
            };
            (p, nodes, out)
        },
        OsEvent::KeyboardModifiers(m) => (PointerState { modifiers: m, ..p }, nodes, Seq::empty()),
        OsEvent::Touch { phase, id } => match phase {
            TouchPhase::Started => {
                let (q, out) = pressed(p, nodes, picked, MouseButton::Left, slice, WidgetMessage::TouchStarted { id }, WidgetMessage::DoubleTap { id });
                (q, nodes, out)
            },
            TouchPhase::Moved => {
                let p1 = drag_searched(picked_state(p, picked, slice), nodes, picked);
                (
                    PointerState { focus: picked, ..p1 },
                    nodes,
                    focus_messages(p.focus, picked) + sent_if(!picked.spec_is_none(), from_widget(picked, WidgetMessage::TouchMoved { id })),
                )
            },
            TouchPhase::Ended => {
                let (q, out) = released(p, nodes, WidgetMessage::TouchEnded { id });
                (q, nodes, out)
            },
            TouchPhase::Cancelled => if p.picked.spec_is_none() {
                (p, nodes, Seq::empty())
            } else {
                (
                    PointerState { is_dragging: false, drag_node: Handle::spec_none(), ..p },
                    nodes,
                    seq![from_widget(p.picked, WidgetMessage::TouchCancelled { id })],
                )
            },
        },
    }
}

/// The parts of a user interface that events leave alone.
pub open spec fn same_frame(a: UserInterface, b: UserInterface) -> bool {
    &&& a.captured_node == b.captured_node
    &&& a.picking_stack@ == b.picking_stack@
    &&& a.double_click_time_slice == b.double_click_time_slice
    &&& a.root_canvas == b.root_canvas
}

fn from_widget_message(h: Handle, w: WidgetMessage) -> (r: UiMessage)
    ensures
        r == from_widget(h, w),
{
    UiMessage::from_widget(h, MessageData::Widget(w))
}

impl UserInterface {
    fn pick(&mut self, picked: Handle)
        ensures
            pointer_of(*final(self)) == picked_state(pointer_of(*old(self)), picked, old(self).double_click_time_slice),
            same_frame(*final(self), *old(self)),
    {
        self.try_set_picked_node(picked);
        proof {
            if old(self).picked_node != picked {
                assert(self.double_click_entries@ =~= reset_entries(old(self).double_click_entries@, old(self).double_click_time_slice));
            }
            assert(pointer_of(*self) =~= picked_state(pointer_of(*old(self)), picked, old(self).double_click_time_slice));
        }
    }

    fn search_drag(&mut self, tree: &WidgetTree, start: Handle)
        ensures
            pointer_of(*final(self)) == drag_searched(pointer_of(*old(self)), tree.nodes@, start),
            same_frame(*final(self), *old(self)),
    {
        if start.is_some() {
            let f = tree.find_up(start, false);
            if f.is_some() {
                self.drag_node = f;
            }
        }
        assert(pointer_of(*self) =~= drag_searched(pointer_of(*old(self)), tree.nodes@, start));
    }

    fn press(&mut self, tree: &WidgetTree, picked: Handle, button: MouseButton, down: WidgetMessage, double: WidgetMessage) -> (out: Vec<UiMessage>)
        requires
            old(self).double_click_entries@.len() < usize::MAX,
        ensures
            (pointer_of(*final(self)), out@) == pressed(pointer_of(*old(self)), tree.nodes@, picked, button, old(self).double_click_time_slice, down, double),
            same_frame(*final(self), *old(self)),
    {
        let ghost p = pointer_of(*self);
        let ghost slice = self.double_click_time_slice;
        let changed = self.picked_node != picked;
        self.pick(picked);
        let ghost p1 = pointer_of(*self);
        let mut dbl = false;
        if !changed {
            let running = self.timer_running(button);
            dbl = self.register_press(button, running);
        }
        let ghost counted = if p.picked != picked { (p1.entries, false) } else { after_press(p1.entries, button, spec_timer_running(p1.entries, button), slice) };
        assert(self.double_click_entries@ == counted.0 && dbl == counted.1);
        assert(pointer_of(*self) =~= PointerState { entries: counted.0, ..p1 });
        self.search_drag(tree, picked);
        let mut out = self.request_focus(picked);
        let ghost f = out@;
        if picked.is_some() {
            out.push(from_widget_message(picked, down));
        }
        let ghost f2 = out@;
        if dbl {
            out.push(from_widget_message(picked, double));
        }
        proof {
            assert(f2 =~= f + sent_if(!picked.spec_is_none(), from_widget(picked, down)));
            assert(out@ =~= f2 + sent_if(counted.1, from_widget(picked, double)));
            assert(pointer_of(*self) =~= pressed(p, tree.nodes@, picked, button, slice, down, double).0);
        }
        out
    }

    fn release(&mut self, tree: &WidgetTree, up: WidgetMessage) -> (out: Vec<UiMessage>)
        ensures
            (pointer_of(*final(self)), out@) == released(pointer_of(*old(self)), tree.nodes@, up),
            same_frame(*final(self), *old(self)),
    {
        let mut out: Vec<UiMessage> = Vec::new();
        if self.picked_node.is_none() {
            assert(out@ =~= Seq::<UiMessage>::empty());
            return out;
        }
        let target = tree.find_up(self.picked_node, true);
        out.push(from_widget_message(self.picked_node, up));
        if self.is_dragging && target.is_some() {
            out.push(from_widget_message(target, WidgetMessage::Drop(self.drag_node)));
        }
        self.is_dragging = false;
        self.drag_node = Handle::none();
        proof {
            let p = pointer_of(*old(self));
            assert(out@ =~= seq![from_widget(p.picked, up)] + sent_if(p.is_dragging && !target.spec_is_none(), from_widget(target, WidgetMessage::Drop(p.drag_node))));
            assert(pointer_of(*self) =~= released(p, tree.nodes@, up).0);
        }
        out
    }

    fn cursor_move(&mut self, tree: &mut WidgetTree, picked: Handle, past: bool) -> (out: Vec<UiMessage>)
        requires
            old(tree).wf(),
        ensures
            final(tree).wf(),
            final(tree)@.children == old(tree)@.children,
            (pointer_of(*final(self)), final(tree)@.nodes, out@)
                == cursor_moved(pointer_of(*old(self)), old(tree)@.nodes, picked, past, old(self).double_click_time_slice),
            same_frame(*final(self), *old(self)),
    {
        let ghost p = pointer_of(*self);
        let ghost nodes = tree.nodes@;
        self.pick(picked);
        let ghost p1 = pointer_of(*self);
        let mut out: Vec<UiMessage> = Vec::new();
        let start = !self.is_dragging && self.mouse_state.left == ButtonState::Pressed && picked.is_some() && self.drag_node.is_some() && past;
        if start {
            self.is_dragging = true;
            out.push(from_widget_message(picked, WidgetMessage::DragStarted(self.drag_node)));
        }
        let ghost o1 = out@;
        let prev = self.prev_picked_node;
        let leave = picked != prev && tree.is_valid(prev) && tree.nodes[prev.index as usize].mouse_directly_over;
        if leave {
            let i = prev.index as usize;
            let n = tree.nodes[i];
            tree.nodes.set(i, WidgetNode { mouse_directly_over: false, ..n });
            out.push(from_widget_message(prev, WidgetMessage::MouseLeave));
        }
        let ghost o2 = out@;
        let ghost nodes1 = tree.nodes@;
        let enter = tree.is_valid(picked) && !tree.nodes[picked.index as usize].mouse_directly_over;
        if enter {
            let i = picked.index as usize;
            let n = tree.nodes[i];
            tree.nodes.set(i, WidgetNode { mouse_directly_over: true, ..n });
            out.push(from_widget_message(picked, WidgetMessage::MouseEnter));
        }
        let ghost o3 = out@;
        if picked.is_some() {
            out.push(from_widget_message(picked, WidgetMessage::MouseMove));
        }
        let ghost o4 = out@;
        if picked.is_some() && self.is_dragging {
            out.push(from_widget_message(picked, WidgetMessage::DragOver(self.drag_node)));
        }
        proof {
            let r = cursor_moved(p, nodes, picked, past, self.double_click_time_slice);
            assert(o1 =~= sent_if(start, from_widget(picked, WidgetMessage::DragStarted(p1.drag_node))));
            assert(o2 =~= o1 + sent_if(leave, from_widget(prev, WidgetMessage::MouseLeave)));
            assert(o3 =~= o2 + sent_if(enter, from_widget(picked, WidgetMessage::MouseEnter)));
            assert(o4 =~= o3 + sent_if(!picked.spec_is_none(), from_widget(picked, WidgetMessage::MouseMove)));
            assert(out@ =~= r.2);
            assert(tree.nodes@ =~= r.1);
            assert(pointer_of(*self) =~= r.0);
            assert(tree@.children =~= old(tree)@.children);
        }
        out
    }
}

impl UserInterface {
    /// Handles one event of the operating system, `picked` being the widget that the hit test
    /// finds at the event's position (events without a position ignore it). The pointer state
    /// and the widgets change, and the messages are sent, as `after_event` says: a mouse press
    /// picks, counts double clicks, finds the widget to drag, focuses and sends `MouseDown`
    /// (and `DoubleClick`); a release sends `MouseUp` and ends a drag with a drop; a cursor move
    /// picks, starts a drag, sends `MouseLeave`, `MouseEnter`, `MouseMove` and `DragOver`; the
    /// wheel goes to the picked widget; keys and typed text go to the focused widget when it is
    /// visible; modifiers are recorded; touches do as presses, moves and releases do.
    pub fn process_os_event(&mut self, tree: &mut WidgetTree, event: OsEvent, picked: Handle) -> (r: (Vec<UiMessage>, bool))
        requires
            old(tree).wf(),
            old(self).double_click_entries@.len() < usize::MAX,
        ensures
            final(tree).wf(),
            final(tree)@.children == old(tree)@.children,
            (pointer_of(*final(self)), final(tree)@.nodes, r.0@)
                == after_event(pointer_of(*old(self)), old(tree)@.nodes, event, picked, old(self).double_click_time_slice),
            r.1 == event_processed(pointer_of(*old(self)), old(tree)@.nodes, event, picked),
            same_frame(*final(self), *old(self)),
    {
        let ghost p = pointer_of(*self);
        let ghost nodes = tree.nodes@;
        let ghost slice = self.double_click_time_slice;
        let ghost ev = event;
        let processed = self.processed_flag(tree, &event, picked);
        let out = match event {
            OsEvent::MouseInput { button, state } => self.mouse_input_event(tree, button, state, picked),
            OsEvent::CursorMoved { past_drag_threshold } => self.cursor_move(tree, picked, past_drag_threshold),
            OsEvent::MouseWheel => self.wheel_event(),
            OsEvent::KeyboardInput { button, state, text } => self.keyboard_event(tree, button, state, text),
            OsEvent::KeyboardModifiers(m) => {
                self.set_keyboard_modifiers(m);
                assert(pointer_of(*self) =~= PointerState { modifiers: m, ..p });
                Vec::new()
            },
            OsEvent::Touch { phase, id } => self.touch_event(tree, phase, id, picked),
        };
        proof {
            assert(event_effect(p, nodes, ev, picked, slice) == (pointer_of(*self), tree@.nodes, out@));
        }
        self.prev_picked_node = self.picked_node;
        proof {
            let r = after_event(p, nodes, ev, picked, slice);
            assert(pointer_of(*self) =~= r.0);
        }
        (out, processed)
    }

    fn processed_flag(&self, tree: &WidgetTree, event: &OsEvent, picked: Handle) -> (r: bool)
        ensures
            r == event_processed(pointer_of(*self), tree@.nodes, *event, picked),
    {
        match event {
            OsEvent::MouseInput { state, .. } => match state {
                ButtonState::Pressed => picked.is_some(),
                ButtonState::Released => self.picked_node.is_some(),
            },
            OsEvent::CursorMoved { .. } => picked.is_some(),
            OsEvent::MouseWheel => self.picked_node.is_some(),
            OsEvent::KeyboardInput { .. } => {
                let focus = self.keyboard_focus_node;
                tree.is_valid(focus) && tree.nodes[focus.index as usize].globally_visible
            },
            OsEvent::KeyboardModifiers(_) => false,
            OsEvent::Touch { phase, .. } => match phase {
                TouchPhase::Started | TouchPhase::Moved => picked.is_some(),
                TouchPhase::Ended | TouchPhase::Cancelled => self.picked_node.is_some(),
            },
        }
    }

    fn mouse_input_event(&mut self, tree: &WidgetTree, button: MouseButton, state: ButtonState, picked: Handle) -> (out: Vec<UiMessage>)
        requires
            old(self).double_click_entries@.len() < usize::MAX,
        ensures
            (pointer_of(*final(self)), tree@.nodes, out@)
                == event_effect(pointer_of(*old(self)), tree@.nodes, OsEvent::MouseInput { button, state }, picked, old(self).double_click_time_slice),
            same_frame(*final(self), *old(self)),
    {
        let ghost p = pointer_of(*self);
        self.set_mouse_button_state(button, state);
        assert(pointer_of(*self) =~= PointerState { mouse_state: mouse_state_after(p.mouse_state, button, state), ..p });
        match state {
            ButtonState::Pressed => self.press(tree, picked, button, WidgetMessage::MouseDown { button }, WidgetMessage::DoubleClick { button }),
            ButtonState::Released => self.release(tree, WidgetMessage::MouseUp { button }),
        }
    }

    fn wheel_event(&mut self) -> (out: Vec<UiMessage>)
        ensures
            *final(self) == *old(self),
            out@ == sent_if(!old(self).picked_node.spec_is_none(), from_widget(old(self).picked_node, WidgetMessage::MouseWheel)),
    {
        let mut out: Vec<UiMessage> = Vec::new();
        if self.picked_node.is_some() {
            out.push(from_widget_message(self.picked_node, WidgetMessage::MouseWheel));
        }
        assert(out@ =~= sent_if(!self.picked_node.spec_is_none(), from_widget(self.picked_node, WidgetMessage::MouseWheel)));
        out
    }

    fn keyboard_event(&mut self, tree: &WidgetTree, button: KeyCode, state: ButtonState, text: String) -> (out: Vec<UiMessage>)
        ensures
            *final(self) == *old(self),
            (pointer_of(*final(self)), tree@.nodes, out@)
                == event_effect(pointer_of(*old(self)), tree@.nodes, OsEvent::KeyboardInput { button, state, text }, Handle::spec_none(), old(self).double_click_time_slice),
    {
        let ghost t = text;
        let mut out: Vec<UiMessage> = Vec::new();
        let focus = self.keyboard_focus_node;
        if tree.is_valid(focus) && tree.nodes[focus.index as usize].globally_visible {
            match state {
                ButtonState::Pressed => {
                    out.push(from_widget_message(focus, WidgetMessage::KeyDown(button)));
                    let ghost o1 = out@;
                    if text.unicode_len() > 0 {
                        out.push(UiMessage::from_widget(focus, MessageData::WidgetText(text)));
                    }
                    assert(out@ =~= seq![from_widget(focus, WidgetMessage::KeyDown(button))] + sent_if(
                        t@.len() > 0,
                        UiMessage { destination: focus, direction: MessageDirection::FromWidget, handled: false, data: MessageData::WidgetText(t) },
                    ));
                },
                ButtonState::Released => {
                    out.push(from_widget_message(focus, WidgetMessage::KeyUp(button)));
                    assert(out@ =~= seq![from_widget(focus, WidgetMessage::KeyUp(button))]);
                },
            }
        } else {
            assert(out@ =~= Seq::<UiMessage>::empty());
        }
        assert(pointer_of(*self) =~= pointer_of(*old(self)));
        out
    }

    fn touch_event(&mut self, tree: &WidgetTree, phase: TouchPhase, id: u64, picked: Handle) -> (out: Vec<UiMessage>)
        requires
            old(self).double_click_entries@.len() < usize::MAX,
        ensures
            (pointer_of(*final(self)), tree@.nodes, out@)
                == event_effect(pointer_of(*old(self)), tree@.nodes, OsEvent::Touch { phase, id }, picked, old(self).double_click_time_slice),
            same_frame(*final(self), *old(self)),
    {
        let ghost p = pointer_of(*self);
        match phase {
            TouchPhase::Started => self.press(tree, picked, MouseButton::Left, WidgetMessage::TouchStarted { id }, WidgetMessage::DoubleTap { id }),
            TouchPhase::Moved => {
                self.pick(picked);
                self.search_drag(tree, picked);
                let mut out = self.request_focus(picked);
                let ghost f = out@;
                if picked.is_some() {
                    out.push(from_widget_message(picked, WidgetMessage::TouchMoved { id }));
                }
                assert(out@ =~= f + sent_if(!picked.spec_is_none(), from_widget(picked, WidgetMessage::TouchMoved { id })));
                assert(pointer_of(*self) =~= PointerState { focus: picked, ..drag_searched(picked_state(p, picked, self.double_click_time_slice), tree@.nodes, picked) });
                out
            },
            TouchPhase::Ended => self.release(tree, WidgetMessage::TouchEnded { id }),
            TouchPhase::Cancelled => {
                let mut out: Vec<UiMessage> = Vec::new();
                if self.picked_node.is_some() {
                    out.push(from_widget_message(self.picked_node, WidgetMessage::TouchCancelled { id }));
                    self.is_dragging = false;
                    self.drag_node = Handle::none();
                    assert(out@ =~= seq![from_widget(p.picked, WidgetMessage::TouchCancelled { id })]);
                } else {
                    assert(out@ =~= Seq::<UiMessage>::empty());
                }
                assert(pointer_of(*self) =~= event_effect(p, tree@.nodes, OsEvent::Touch { phase, id }, picked, self.double_click_time_slice).0);
                out
            },
        }
    }
}

} // verus!
