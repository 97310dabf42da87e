//! The pointer, focus and picking state of a user interface: mouse capture, the stack of
//! picking restrictions, the picked and focused widgets.

use vstd::prelude::*;
use crate::message::{ButtonState, Handle, KeyboardModifiers, MessageData, MessageDirection, MouseButton, UiMessage, WidgetMessage};

verus! {

/// Orientation of something.
#[derive(Copy, Clone, Debug, PartialEq, Eq, Hash, Structural)]
pub enum Orientation {
    /// Vertical orientation. This is default value.
    Vertical,
    /// Horizontal orientation.
    Horizontal,
}

impl Default for Orientation {
    fn default() -> (r: Orientation)
        ensures
            r == Orientation::Vertical,
    {
        Orientation::Vertical
    }
}

/// State of the mouse buttons.
#[derive(Copy, Clone, Debug, PartialEq, Eq, Structural)]
pub struct MouseState {
    pub left: ButtonState,
    pub right: ButtonState,
    pub middle: ButtonState,
}

impl Default for MouseState {
    fn default() -> (r: MouseState)
        ensures
            r == (MouseState { left: ButtonState::Released, right: ButtonState::Released, middle: ButtonState::Released }),
    {
        MouseState { left: ButtonState::Released, right: ButtonState::Released, middle: ButtonState::Released }
    }
}

/// A restriction of picking to a widget and its descendants.
#[derive(Copy, Clone, Debug, PartialEq, Eq, Structural)]
pub struct RestrictionEntry {
    /// Handle to UI node to which picking must be restricted to.
    pub handle: Handle,
    /// Stops the search through the picking stack at this entry.
    pub stop: bool,
}

/// Events that invalidate the layout of a widget.
#[derive(Copy, Clone, Debug, PartialEq, Eq)]
pub enum LayoutEvent {
    MeasurementInvalidated(Handle),
    ArrangementInvalidated(Handle),
    VisibilityChanged(Handle),
}

/// A shared handle of a widget (such as a context menu shared by several widgets), with the
/// number of its users. Each user takes a share with `acquire` and gives it back with
/// `release`; when the last share is given back, the widget is asked to remove itself. The
/// count lives in this one value, so it is not cloned: a new user takes a share instead.
#[derive(Debug, PartialEq, Eq)]
pub struct RcUiNodeHandle {
    handle: Handle,
    uses: u64,
}

impl RcUiNodeHandle {
    pub closed spec fn spec_handle(&self) -> Handle {
        self.handle
    }

    /// The number of users.
    pub closed spec fn spec_uses(&self) -> nat {
        self.uses as nat
    }

    /// A shared handle of the widget `handle`, with one user.
    pub fn new(handle: Handle) -> (r: Self)
        ensures
            r.spec_handle() == handle,
            r.spec_uses() == 1,
    {
        RcUiNodeHandle { handle, uses: 1 }
    }

    /// The widget's handle.
    pub fn handle(&self) -> (r: Handle)
        ensures
            r == self.spec_handle(),
    {
        self.handle
    }

    /// The number of users.
    pub fn uses(&self) -> (r: u64)
        ensures
            r == self.spec_uses(),
    {
        self.uses
    }

    /// One more user shares the widget.
    pub fn acquire(&mut self)
        requires
            old(self).spec_uses() < u64::MAX,
        ensures
            final(self).spec_handle() == old(self).spec_handle(),
            final(self).spec_uses() == old(self).spec_uses() + 1,
    {
        self.uses = self.uses + 1;
    }

    /// One user gives its share back. When it was the last one, returns the message that asks
    /// the widget to remove itself; otherwise nothing.
    pub fn release(&mut self) -> (r: Option<UiMessage>)
        requires
            old(self).spec_uses() > 0,
        ensures
            final(self).spec_handle() == old(self).spec_handle(),
            final(self).spec_uses() == old(self).spec_uses() - 1,
            final(self).spec_uses() == 0 ==> r == Some(UiMessage {
                destination: old(self).spec_handle(),
                direction: MessageDirection::ToWidget,
                handled: false,
                data: MessageData::Widget(WidgetMessage::Remove),
            }),
            final(self).spec_uses() > 0 ==> r is None,
    {
        self.uses = self.uses - 1;
        if self.uses == 0 {
            Some(UiMessage::for_widget(self.handle, MessageData::Widget(WidgetMessage::Remove)))
        } else {
            None
        }
    }
}

/// The number of users of a shared handle and the number of removal messages sent, after
/// `ops` starting from `uses` users: `true` takes a share (`acquire`), `false` gives one back
/// (`release`), and giving back the last share sends one removal message.
pub open spec fn shares_after(uses: nat, ops: Seq<bool>) -> (nat, nat)
    decreases ops.len(),
{
    if ops.len() == 0 {
        (uses, 0)
    } else {
        let (u, removals) = shares_after(uses, ops.drop_last());
        if ops.last() {
            (u + 1, removals)
        } else {
            ((u - 1) as nat, removals + if u == 1 { 1nat } else { 0nat })
        }
    }
}

/// Every step of `ops` finds the handle in use: there are users left to take or give back a
/// share.
pub open spec fn shares_in_use(uses: nat, ops: Seq<bool>) -> bool
    decreases ops.len(),
{
    ops.len() == 0 || (shares_in_use(uses, ops.drop_last()) && shares_after(uses, ops.drop_last()).0 > 0)
}

/// Over any sequence of shares taken and given back by the users of a new shared handle, the
/// widget is asked to remove itself exactly once if the last share has been given back, and
/// not at all otherwise.
pub proof fn lemma_removed_once(ops: Seq<bool>)
    requires
        shares_in_use(1, ops),
    ensures
        shares_after(1, ops).1 == (if shares_after(1, ops).0 == 0 { 1nat } else { 0nat }),
    decreases ops.len(),
{
    if ops.len() > 0 {
        lemma_removed_once(ops.drop_last());
    }
}

/// Whether a widget is enabled, given the enabled flags of the widget and of its ancestors,
/// the widget first: it is enabled exactly when it and every ancestor are.
pub fn is_node_enabled(chain: &[bool]) -> (r: bool)
    requires
        chain@.len() > 0,
    ensures
        r == forall|i: int| 0 <= i < chain@.len() ==> #[trigger] chain@[i],
{
    let mut enabled = chain[0];
    let mut i: usize = 1;
    while i < chain.len()
        invariant
            1 <= i <= chain@.len(),
            enabled == chain@[0],
            forall|j: int| 1 <= j < i ==> #[trigger] chain@[j],
        decreases chain@.len() - i,
    {
        if !chain[i] {
            assert(!(forall|k: int| 0 <= k < chain@.len() ==> #[trigger] chain@[k])) by {
                assert(!chain@[i as int]);
            }
            return false;
        }
        i = i + 1;
    }
    enabled
}

/// Double click tracking for one mouse button; the timer is the bit pattern of an `f32`.
#[derive(Copy, Clone, Debug, PartialEq, Eq)]
pub struct DoubleClickEntry {
    pub button: MouseButton,
    pub timer: u32,
    pub click_count: u32,
}

/// The index of the first double click entry of `button`, or -1.
pub open spec fn entry_of_button(entries: Seq<DoubleClickEntry>, button: MouseButton) -> int
    decreases entries.len(),
{
    if entries.len() == 0 {
        -1
    } else if entries[0].button == button {
        0
    } else {
        let r = entry_of_button(entries.drop_first(), button);
        if r < 0 { -1 } else { r + 1 }
    }
}

proof fn lemma_entry_of_button(entries: Seq<DoubleClickEntry>, button: MouseButton)
    ensures
        -1 <= entry_of_button(entries, button) < entries.len(),
        entry_of_button(entries, button) >= 0 ==> entries[entry_of_button(entries, button)].button == button,
        forall|j: int| 0 <= j < entries.len() && (j < entry_of_button(entries, button) || entry_of_button(entries, button) < 0)
            ==> (#[trigger] entries[j]).button != button,
    decreases entries.len(),
{
    if entries.len() > 0 {
        lemma_entry_of_button(entries.drop_first(), button);
        assert forall|j: int| 0 < j < entries.len() implies #[trigger] entries[j] == entries.drop_first()[j - 1] by {}
    }
}

/// The double click entries after a press of `button` on the widget that was already picked,
/// and whether the press completes a double click. `timer_running` tells whether the
/// button's timer is still running. A first press of a button starts its timer with one click;
/// a press while the timer runs counts a click, and the second click is a double click, which
/// restarts the timer with no clicks; a press after the timer ran out starts it again with one
/// click.
pub open spec fn after_press(entries: Seq<DoubleClickEntry>, button: MouseButton, timer_running: bool, slice: u32) -> (Seq<DoubleClickEntry>, bool) {
    let k = entry_of_button(entries, button);
    if k < 0 {
        (entries.push(DoubleClickEntry { button, timer: slice, click_count: 1 }), false)
    } else {
        let e = entries[k];
        if timer_running {
            if e.click_count + 1 >= 2 {
                (entries.update(k, DoubleClickEntry { timer: slice, click_count: 0, ..e }), true)
            } else {
                (entries.update(k, DoubleClickEntry { click_count: (e.click_count + 1) as u32, ..e }), false)
            }
        } else {
            (entries.update(k, DoubleClickEntry { timer: slice, click_count: 1, ..e }), false)
        }
    }
}

/// The messages that moving the keyboard focus from `old_focus` to `new_focused` sends: none
/// when it stays; otherwise the old widget hears that it lost the focus and the new one that it
/// got it (each only for a real widget).
pub open spec fn focus_messages(old_focus: Handle, new_focused: Handle) -> Seq<UiMessage> {
    if old_focus == new_focused {
        Seq::empty()
    } else {
        (if old_focus.spec_is_none() {
            Seq::<UiMessage>::empty()
        } else {
            seq![UiMessage {
                destination: old_focus,
                direction: MessageDirection::FromWidget,
                handled: false,
                data: MessageData::Widget(WidgetMessage::Unfocus),
            }]
        }) + (if new_focused.spec_is_none() {
            Seq::<UiMessage>::empty()
        } else {
            seq![UiMessage {
                destination: new_focused,
                direction: MessageDirection::FromWidget,
                handled: false,
                data: MessageData::Widget(WidgetMessage::Focus),
            }]
        })
    }
}

/// Whether the double click timer of `button` still runs: the button has an entry and its
/// time (the bits of an `f32`) is above zero.
pub open spec fn spec_timer_running(entries: Seq<DoubleClickEntry>, button: MouseButton) -> bool {
    let k = entry_of_button(entries, button);
    k >= 0 && 0 < entries[k].timer <= 0x7F80_0000
}

/// The pointer, focus and picking state of a user interface.
#[derive(Clone, Debug)]
pub struct UserInterface {
    pub picked_node: Handle,
    pub prev_picked_node: Handle,
    pub captured_node: Handle,
    pub keyboard_focus_node: Handle,
    pub picking_stack: Vec<RestrictionEntry>,
    pub mouse_state: MouseState,
    pub keyboard_modifiers: KeyboardModifiers,
    pub double_click_entries: Vec<DoubleClickEntry>,
    /// Bit pattern of the `f32` time within which two clicks make a double click.
    pub double_click_time_slice: u32,
    /// The root of the widget tree.
    pub root_canvas: Handle,
    /// The widget that a drag would move: the first widget that allows dragging, from the
    /// widget last pressed up to the root.
    pub drag_node: Handle,
    /// Whether a drag is under way.
    pub is_dragging: bool,
}

/// The picking stack after removing the first entry for `node`, if any.
pub open spec fn without_first(stack: Seq<RestrictionEntry>, node: Handle) -> Seq<RestrictionEntry>
    decreases stack.len(),
{
    if stack.len() == 0 {
        stack
    } else if stack[0].handle == node {
        stack.drop_first()
    } else {
        seq![stack[0]] + without_first(stack.drop_first(), node)
    }
}

/// The widget that a hit test finds, given whether the captured widget is alive, the widget
/// an unrestricted pick finds, and for each picking restriction the widget a pick within it
/// finds (none for a dead restriction): the captured widget, or the unrestricted pick without
/// restrictions, or the first pick found going down the stack from the top, stopping after
/// an entry that says so.
pub open spec fn hit_test_result(stack: Seq<RestrictionEntry>, captured: Handle, captured_alive: bool, unrestricted: Handle, picks: Seq<Handle>) -> Handle {
    if captured_alive {
        captured
    } else if stack.len() == 0 {
        unrestricted
    } else {
        search_down(stack, picks, stack.len() as int)
    }
}

/// The first pick found among entries `0..n`, from entry `n - 1` down.
pub open spec fn search_down(stack: Seq<RestrictionEntry>, picks: Seq<Handle>, n: int) -> Handle
    decreases n,
{
    if n <= 0 {
        Handle { index: 0, generation: 0 }
    } else if !picks[n - 1].spec_is_none() {
        picks[n - 1]
    } else if stack[n - 1].stop {
        Handle { index: 0, generation: 0 }
    } else {
        search_down(stack, picks, n - 1)
    }
}

impl UserInterface {
    pub open spec fn spec_picking_stack(&self) -> Seq<RestrictionEntry> {
        self.picking_stack@
    }

    /// The root canvas `root_canvas` has the keyboard focus; nothing picked or captured, no
    /// restrictions, buttons released, no modifiers.
    pub fn new(double_click_time_slice: u32, root_canvas: Handle) -> (r: Self)
        ensures
            r.picked_node.spec_is_none(),
            r.prev_picked_node.spec_is_none(),
            r.captured_node.spec_is_none(),
            r.keyboard_focus_node == root_canvas,
            r.spec_picking_stack().len() == 0,
            r.double_click_entries@.len() == 0,
            r.double_click_time_slice == double_click_time_slice,
            r.root_canvas == root_canvas,
            r.drag_node.spec_is_none(),
            !r.is_dragging,
    {
        UserInterface {
            picked_node: Handle::none(),
            prev_picked_node: Handle::none(),
            captured_node: Handle::none(),
            keyboard_focus_node: root_canvas,
            picking_stack: Vec::new(),
            mouse_state: MouseState::default(),
            keyboard_modifiers: KeyboardModifiers::none(),
            double_click_entries: Vec::new(),
            double_click_time_slice,
            root_canvas,
            drag_node: Handle::none(),
            is_dragging: false,
        }
    }

    /// The state of the modifier keys.
    pub fn keyboard_modifiers(&self) -> (r: KeyboardModifiers)
        ensures
            r == self.keyboard_modifiers,
    {
        self.keyboard_modifiers
    }

    /// Captures the mouse for `node` unless some widget has it already; tells whether it did.
    pub fn capture_mouse(&mut self, node: Handle) -> (r: bool)
        ensures
            r == old(self).captured_node.spec_is_none(),
            final(self).captured_node == (if r { node } else { old(self).captured_node }),
            final(self).spec_picking_stack() == old(self).spec_picking_stack(),
            final(self).keyboard_focus_node == old(self).keyboard_focus_node,
            final(self).picked_node == old(self).picked_node,
    {
        if self.captured_node.is_none() {
            self.captured_node = node;
            true
        } else {
            false
        }
    }

    /// Releases the mouse capture.
    pub fn release_mouse_capture(&mut self)
        ensures
            final(self).captured_node.spec_is_none(),
            final(self).spec_picking_stack() == old(self).spec_picking_stack(),
            final(self).keyboard_focus_node == old(self).keyboard_focus_node,
            final(self).picked_node == old(self).picked_node,
    {
        self.captured_node = Handle::none();
    }

    /// The widget that has the mouse captured.
    pub fn captured_node(&self) -> (r: Handle)
        ensures
            r == self.captured_node,
    {
        self.captured_node
    }

    /// Restricts picking to `restriction.handle`; the widget must differ from the one on top.
    pub fn push_picking_restriction(&mut self, restriction: RestrictionEntry)
        requires
            old(self).spec_picking_stack().len() > 0 ==> old(self).spec_picking_stack().last().handle != restriction.handle,
        ensures
            final(self).spec_picking_stack() == old(self).spec_picking_stack().push(restriction),
            final(self).captured_node == old(self).captured_node,
    {
        self.picking_stack.push(restriction);
    }

    /// Removes the first restriction for `node`, if any.
    pub fn remove_picking_restriction(&mut self, node: Handle)
        ensures
            final(self).spec_picking_stack() == without_first(old(self).spec_picking_stack(), node),
            final(self).captured_node == old(self).captured_node,
            *final(self) == (UserInterface { picking_stack: final(self).picking_stack, ..*old(self) }),
    {
        let ghost s = self.picking_stack@;
        let mut p: usize = 0;
        while p < self.picking_stack.len()
            invariant
                p <= s.len(),
                self.picking_stack@ == s,
                forall|k: int| 0 <= k < p ==> s[k].handle != node,
            ensures
                p <= s.len(),
                p < s.len() ==> s[p as int].handle == node,
                forall|k: int| 0 <= k < p ==> s[k].handle != node,
            decreases s.len() - p,
        {
            if self.picking_stack[p].handle == node {
                break;
            }
            p = p + 1;
        }
        proof {
            lemma_without_first(s, node, p as int);
        }
        if p < self.picking_stack.len() {
            self.picking_stack.remove(p);
        }
    }

    /// The picking restrictions, bottom first.
    pub fn picking_restriction_stack(&self) -> (r: &[RestrictionEntry])
        ensures
            r@ == self.spec_picking_stack(),
    {
        self.picking_stack.as_slice()
    }

    /// Removes all picking restrictions.
    pub fn drop_picking_restrictions(&mut self)
        ensures
            final(self).spec_picking_stack().len() == 0,
            final(self).captured_node == old(self).captured_node,
    {
        self.picking_stack.clear();
    }

    /// The restriction on top, if any.
    pub fn top_picking_restriction(&self) -> (r: Option<RestrictionEntry>)
        ensures
            r == (if self.spec_picking_stack().len() == 0 { None } else { Some(self.spec_picking_stack().last()) }),
    {
        let n = self.picking_stack.len();
        if n == 0 { None } else { Some(self.picking_stack[n - 1]) }
    }

    /// Finds the widget under the pointer: `captured_alive` tells whether the captured widget
    /// is alive, `unrestricted` is what a pick from the root finds, and `picks[i]` is what a
    /// pick within restriction `i` finds (none when its widget is dead).
    pub fn hit_test(&self, captured_alive: bool, unrestricted: Handle, picks: &[Handle]) -> (r: Handle)
        requires
            picks@.len() == self.spec_picking_stack().len(),
        ensures
            r == hit_test_result(self.spec_picking_stack(), self.captured_node, captured_alive, unrestricted, picks@),
    {
        if captured_alive {
            return self.captured_node;
        }
        if self.picking_stack.len() == 0 {
            return unrestricted;
        }
        let ghost s = self.picking_stack@;
        let mut n = self.picking_stack.len();
        while n > 0
            invariant
                n <= s.len(),
                s == self.picking_stack@,
                s.len() > 0,
                !captured_alive,
                picks@.len() == s.len(),
                search_down(s, picks@, s.len() as int) == search_down(s, picks@, n as int),
            decreases n,
        {
            if picks[n - 1].is_some() {
                return picks[n - 1];
            }
            if self.picking_stack[n - 1].stop {
                return Handle::none();
            }
            n = n - 1;
        }
        Handle::none()
    }

    /// Makes `node` the picked widget; when it changes, the previous double click tracking is
    /// reset (timers to the time slice, counts to zero). Tells whether it changed.
    pub fn try_set_picked_node(&mut self, node: Handle) -> (r: bool)
        ensures
            r == (old(self).picked_node != node),
            *final(self) == (UserInterface { picked_node: node, double_click_entries: final(self).double_click_entries, ..*old(self) }),
            final(self).picked_node == node,
            final(self).captured_node == old(self).captured_node,
            final(self).spec_picking_stack() == old(self).spec_picking_stack(),
            final(self).double_click_time_slice == old(self).double_click_time_slice,
            final(self).double_click_entries@.len() == old(self).double_click_entries@.len(),
            forall|i: int| 0 <= i < final(self).double_click_entries@.len() ==> (#[trigger] final(self).double_click_entries@[i]) == if r {
                DoubleClickEntry { timer: old(self).double_click_time_slice, click_count: 0, ..old(self).double_click_entries@[i] }
            } else {
                old(self).double_click_entries@[i]
            },
    {
        if self.picked_node != node {
            self.picked_node = node;
            self.reset_double_click_entries();
            true
        } else {
            false
        }
    }

    fn reset_double_click_entries(&mut self)
        ensures
            *final(self) == (UserInterface { double_click_entries: final(self).double_click_entries, ..*old(self) }),
            final(self).picked_node == old(self).picked_node,
            final(self).captured_node == old(self).captured_node,
            final(self).spec_picking_stack() == old(self).spec_picking_stack(),
            final(self).double_click_time_slice == old(self).double_click_time_slice,
            final(self).double_click_entries@.len() == old(self).double_click_entries@.len(),
            forall|i: int| 0 <= i < final(self).double_click_entries@.len() ==> (#[trigger] final(self).double_click_entries@[i])
                == (DoubleClickEntry { timer: old(self).double_click_time_slice, click_count: 0, ..old(self).double_click_entries@[i] }),
    {
        let n = self.double_click_entries.len();
        let mut i: usize = 0;
        while i < n
            invariant
                n == self.double_click_entries@.len(),
                n == old(self).double_click_entries@.len(),
                i <= n,
                *self == (UserInterface { double_click_entries: self.double_click_entries, ..*old(self) }),
                self.picked_node == old(self).picked_node,
                self.captured_node == old(self).captured_node,
                self.picking_stack@ == old(self).picking_stack@,
                self.double_click_time_slice == old(self).double_click_time_slice,
                forall|k: int| 0 <= k < i ==> (#[trigger] self.double_click_entries@[k])
                    == (DoubleClickEntry { timer: old(self).double_click_time_slice, click_count: 0, ..old(self).double_click_entries@[k] }),
                forall|k: int| i <= k < n ==> (#[trigger] self.double_click_entries@[k]) == old(self).double_click_entries@[k],
            decreases n - i,
        {
            let e = self.double_click_entries[i];
            self.double_click_entries.set(i, DoubleClickEntry { timer: self.double_click_time_slice, click_count: 0, ..e });
            i = i + 1;
        }
    }

    /// Records the new state of a mouse button; only the left, right and middle buttons are
    /// tracked.
    pub fn set_mouse_button_state(&mut self, button: MouseButton, state: ButtonState)
        ensures
            final(self).mouse_state == match button {
                MouseButton::Left => MouseState { left: state, ..old(self).mouse_state },
                MouseButton::Right => MouseState { right: state, ..old(self).mouse_state },
                MouseButton::Middle => MouseState { middle: state, ..old(self).mouse_state },
                _ => old(self).mouse_state,
            },
            *final(self) == (UserInterface { mouse_state: final(self).mouse_state, ..*old(self) }),
            final(self).picked_node == old(self).picked_node,
            final(self).captured_node == old(self).captured_node,
            final(self).keyboard_focus_node == old(self).keyboard_focus_node,
            final(self).spec_picking_stack() == old(self).spec_picking_stack(),
            final(self).keyboard_modifiers == old(self).keyboard_modifiers,
            final(self).double_click_entries@ == old(self).double_click_entries@,
    {
        match button {
            MouseButton::Left => self.mouse_state.left = state,
            MouseButton::Right => self.mouse_state.right = state,
            MouseButton::Middle => self.mouse_state.middle = state,
            _ => {},
        }
    }

    /// Records the state of the modifier keys.
    pub fn set_keyboard_modifiers(&mut self, modifiers: KeyboardModifiers)
        ensures
            final(self).keyboard_modifiers == modifiers,
            *final(self) == (UserInterface { keyboard_modifiers: modifiers, ..*old(self) }),
            final(self).mouse_state == old(self).mouse_state,
            final(self).picked_node == old(self).picked_node,
            final(self).captured_node == old(self).captured_node,
            final(self).keyboard_focus_node == old(self).keyboard_focus_node,
            final(self).spec_picking_stack() == old(self).spec_picking_stack(),
            final(self).double_click_entries@ == old(self).double_click_entries@,
    {
        self.keyboard_modifiers = modifiers;
    }

    /// Whether the double click timer of `button` still runs: the button has an entry and its
    /// time (the bits of an `f32`) is above zero.
    pub fn timer_running(&self, button: MouseButton) -> (r: bool)
        ensures
            r == spec_timer_running(self.double_click_entries@, button),
    {
        proof {
            lemma_entry_of_button(self.double_click_entries@, button);
        }
        let n = self.double_click_entries.len();
        let mut k: usize = 0;
        while k < n
            invariant
                n == self.double_click_entries@.len(),
                k <= n,
                forall|j: int| 0 <= j < k ==> (#[trigger] self.double_click_entries@[j]).button != button,
                -1 <= entry_of_button(self.double_click_entries@, button) < n,
                entry_of_button(self.double_click_entries@, button) >= 0 ==> self.double_click_entries@[entry_of_button(self.double_click_entries@, button)].button == button,
                forall|j: int| 0 <= j < n && (j < entry_of_button(self.double_click_entries@, button) || entry_of_button(self.double_click_entries@, button) < 0)
                    ==> (#[trigger] self.double_click_entries@[j]).button != button,
            decreases n - k,
        {
            if self.double_click_entries[k].button == button {
                let t = self.double_click_entries[k].timer;
                return 0 < t && t <= 0x7F80_0000;
            }
            k = k + 1;
        }
        false
    }

    /// Counts a press of `button` on the widget that was already picked; `timer_running`
    /// tells whether the button's double click timer is still running. Returns whether the
    /// press completes a double click.
    pub fn register_press(&mut self, button: MouseButton, timer_running: bool) -> (r: bool)
        requires
            old(self).double_click_entries@.len() < usize::MAX,
        ensures
            (final(self).double_click_entries@, r) == after_press(old(self).double_click_entries@, button, timer_running, old(self).double_click_time_slice),
            *final(self) == (UserInterface { double_click_entries: final(self).double_click_entries, ..*old(self) }),
            final(self).picked_node == old(self).picked_node,
            final(self).captured_node == old(self).captured_node,
            final(self).keyboard_focus_node == old(self).keyboard_focus_node,
            final(self).spec_picking_stack() == old(self).spec_picking_stack(),
            final(self).double_click_time_slice == old(self).double_click_time_slice,
    {
        proof {
            lemma_entry_of_button(self.double_click_entries@, button);
        }
        let n = self.double_click_entries.len();
        let mut k: usize = 0;
        while k < n
            invariant
                n == self.double_click_entries@.len(),
                self.double_click_entries@ == old(self).double_click_entries@,
                k <= n,
                forall|j: int| 0 <= j < k ==> (#[trigger] self.double_click_entries@[j]).button != button,
                -1 <= entry_of_button(self.double_click_entries@, button) < n,
                entry_of_button(self.double_click_entries@, button) >= 0 ==> self.double_click_entries@[entry_of_button(self.double_click_entries@, button)].button == button,
                forall|j: int| 0 <= j < n && (j < entry_of_button(self.double_click_entries@, button) || entry_of_button(self.double_click_entries@, button) < 0)
                    ==> (#[trigger] self.double_click_entries@[j]).button != button,
            ensures
                k <= n,
                k < n ==> k == entry_of_button(self.double_click_entries@, button),
                k == n ==> entry_of_button(self.double_click_entries@, button) < 0,
            decreases n - k,
        {
            if self.double_click_entries[k].button == button {
                break;
            }
            k = k + 1;
        }
        if k == n {
            self.double_click_entries.push(DoubleClickEntry { button, timer: self.double_click_time_slice, click_count: 1 });
            false
        } else {
            let e = self.double_click_entries[k];
            if timer_running {
                if e.click_count >= 1 {
                    self.double_click_entries.set(k, DoubleClickEntry { timer: self.double_click_time_slice, click_count: 0, ..e });
                    true
                } else {
                    self.double_click_entries.set(k, DoubleClickEntry { click_count: e.click_count + 1, ..e });
                    false
                }
            } else {
                self.double_click_entries.set(k, DoubleClickEntry { timer: self.double_click_time_slice, click_count: 1, ..e });
                false
            }
        }
    }

    /// Moves the keyboard focus to `new_focused`; returns the messages that tell the old
    /// widget it lost the focus and the new one it got it (each only for a real widget).
    pub fn request_focus(&mut self, new_focused: Handle) -> (out: Vec<UiMessage>)
        ensures
            final(self).keyboard_focus_node == new_focused,
            *final(self) == (UserInterface { keyboard_focus_node: new_focused, ..*old(self) }),
            out@ == focus_messages(old(self).keyboard_focus_node, new_focused),
            final(self).captured_node == old(self).captured_node,
            final(self).picked_node == old(self).picked_node,
            final(self).spec_picking_stack() == old(self).spec_picking_stack(),
            old(self).keyboard_focus_node == new_focused ==> out@.len() == 0,
            old(self).keyboard_focus_node != new_focused ==> out@ == (if old(self).keyboard_focus_node.spec_is_none() {
                Seq::<UiMessage>::empty()
            } else {
                seq![UiMessage {
                    destination: old(self).keyboard_focus_node,
                    direction: MessageDirection::FromWidget,
                    handled: false,
                    data: MessageData::Widget(WidgetMessage::Unfocus),
                }]
            }) + (if new_focused.spec_is_none() {
                Seq::<UiMessage>::empty()
            } else {
                seq![UiMessage {
                    destination: new_focused,
                    direction: MessageDirection::FromWidget,
                    handled: false,
                    data: MessageData::Widget(WidgetMessage::Focus),
                }]
            }),
    {
        let mut out: Vec<UiMessage> = Vec::new();
        if self.keyboard_focus_node != new_focused {
            if self.keyboard_focus_node.is_some() {
                out.push(UiMessage::from_widget(self.keyboard_focus_node, MessageData::Widget(WidgetMessage::Unfocus)));
            }
            self.keyboard_focus_node = new_focused;
            if self.keyboard_focus_node.is_some() {
                out.push(UiMessage::from_widget(self.keyboard_focus_node, MessageData::Widget(WidgetMessage::Focus)));
            }
            assert(out@ =~= (if old(self).keyboard_focus_node.spec_is_none() {
                Seq::<UiMessage>::empty()
            } else {
                seq![UiMessage {
                    destination: old(self).keyboard_focus_node,
                    direction: MessageDirection::FromWidget,
                    handled: false,
                    data: MessageData::Widget(WidgetMessage::Unfocus),
                }]
            }) + (if new_focused.spec_is_none() {
                Seq::<UiMessage>::empty()
            } else {
                seq![UiMessage {
                    destination: new_focused,
                    direction: MessageDirection::FromWidget,
                    handled: false,
                    data: MessageData::Widget(WidgetMessage::Focus),
                }]
            }));
        }
        out
    }
}

proof fn lemma_without_first(s: Seq<RestrictionEntry>, node: Handle, p: int)
    requires
        0 <= p <= s.len(),
        p < s.len() ==> s[p].handle == node,
        forall|k: int| 0 <= k < p ==> s[k].handle != node,
    ensures
        without_first(s, node) == (if p < s.len() { s.remove(p) } else { s }),
    decreases s.len(),
{
    if s.len() > 0 {
        if s[0].handle == node {
            assert(p == 0);
            assert(s.drop_first() =~= s.remove(0));
        } else {
            lemma_without_first(s.drop_first(), node, p - 1);
            if p < s.len() {
                assert(seq![s[0]] + s.drop_first().remove(p - 1) =~= s.remove(p));
            } else {
                assert(seq![s[0]] + s.drop_first() =~= s);
            }
        }
    }
}

/// Pushing a restriction and then removing the restrictions of that widget leaves the
/// stack as it was, when the widget had no restriction before.
pub proof fn lemma_push_then_remove_restriction(stack: Seq<RestrictionEntry>, r: RestrictionEntry)
    requires
        forall|k: int| 0 <= k < stack.len() ==> stack[k].handle != r.handle,
    ensures
        without_first(stack.push(r), r.handle) == stack,
{
    let s = stack.push(r);
    lemma_without_first(s, r.handle, stack.len() as int);
    assert(s.remove(stack.len() as int) =~= stack);
}

/// Two presses of a button on the same widget, the second while the timer still runs, make a
/// double click; after it the button counts no clicks.
pub proof fn lemma_second_press_is_double_click(entries: Seq<DoubleClickEntry>, button: MouseButton, first_timer_running: bool, slice: u32)
    requires
        entry_of_button(entries, button) < 0 || entries[entry_of_button(entries, button)].click_count == 0,
    ensures
        ({
            let (after_first, first) = after_press(entries, button, first_timer_running, slice);
            let (after_second, second) = after_press(after_first, button, true, slice);
            &&& !first
            &&& second
            &&& after_second[entry_of_button(after_second, button)].click_count == 0
        }),
{
    lemma_entry_of_button(entries, button);
    let k = entry_of_button(entries, button);
    let (after_first, _) = after_press(entries, button, first_timer_running, slice);
    if k < 0 {
        assert(after_first.drop_last() == entries);
        lemma_entry_of_button_push(entries, button, DoubleClickEntry { button, timer: slice, click_count: 1 });
    } else {
        lemma_entry_of_button_update(entries, button, k, after_first[k]);
    }
    lemma_entry_of_button(after_first, button);
    let k2 = entry_of_button(after_first, button);
    let (after_second, _) = after_press(after_first, button, true, slice);
    lemma_entry_of_button_update(after_first, button, k2, after_second[k2]);
}

proof fn lemma_entry_of_button_push(entries: Seq<DoubleClickEntry>, button: MouseButton, e: DoubleClickEntry)
    requires
        entry_of_button(entries, button) < 0,
        e.button == button,
    ensures
        entry_of_button(entries.push(e), button) == entries.len(),
    decreases entries.len(),
{
    if entries.len() > 0 {
        lemma_entry_of_button_push(entries.drop_first(), button, e);
        assert(entries.push(e).drop_first() == entries.drop_first().push(e));
    }
}

proof fn lemma_entry_of_button_update(entries: Seq<DoubleClickEntry>, button: MouseButton, k: int, e: DoubleClickEntry)
    requires
        0 <= k < entries.len(),
        entry_of_button(entries, button) == k,
        e.button == button,
    ensures
        entry_of_button(entries.update(k, e), button) == k,
    decreases entries.len(),
{
    if k > 0 {
        lemma_entry_of_button_update(entries.drop_first(), button, k - 1, e);
        assert(entries.update(k, e).drop_first() == entries.drop_first().update(k - 1, e));
    }
}

/// A captured widget that is alive wins every hit test, whatever the restrictions and picks.
pub proof fn lemma_capture_wins(stack: Seq<RestrictionEntry>, captured: Handle, unrestricted: Handle, picks: Seq<Handle>)
    ensures
        hit_test_result(stack, captured, true, unrestricted, picks) == captured,
{
}

} // verus!
