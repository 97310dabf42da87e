//! List view: items in containers, a selection of item indices, keyboard navigation.

use vstd::prelude::*;
use crate::message::{
    Handle, KeyCode, KeyboardModifiers, MessageData, MessageDirection, ScrollViewerMessage,
    UiMessage, WidgetMessage,
};

verus! {

/// Messages that read or change the state of a list view.
#[derive(Debug, PartialEq, Eq)]
pub enum ListViewMessage {
    /// The selected indices.
    SelectionChanged(Vec<usize>),
    /// New items.
    Items(Vec<Handle>),
    /// Adds an item.
    AddItem(Handle),
    /// Removes an item.
    RemoveItem(Handle),
    /// Scrolls the view to show an item.
    BringItemIntoView(Handle),
}

/// Two list view messages say the same: equal, with lists compared by their elements.
pub open spec fn same_list_view_message(a: ListViewMessage, b: ListViewMessage) -> bool {
    match (a, b) {
        (ListViewMessage::SelectionChanged(x), ListViewMessage::SelectionChanged(y)) => x@ == y@,
        (ListViewMessage::Items(x), ListViewMessage::Items(y)) => x@ == y@,
        _ => a == b,
    }
}

impl Clone for ListViewMessage {
    fn clone(&self) -> (r: Self)
        ensures
            same_list_view_message(r, *self),
    {
        match self {
            ListViewMessage::SelectionChanged(v) => {
                let c = v.clone();
                assert forall|i: int| 0 <= i < v@.len() implies c@[i] == v@[i] by {
                    assert(cloned::<usize>(v@[i], c@[i]));
                }
                assert(c@ =~= v@);
                ListViewMessage::SelectionChanged(c)
            },
            ListViewMessage::Items(v) => {
                let c = v.clone();
                assert(c@ =~= v@);
                ListViewMessage::Items(c)
            },
            ListViewMessage::AddItem(h) => ListViewMessage::AddItem(*h),
            ListViewMessage::RemoveItem(h) => ListViewMessage::RemoveItem(*h),
            ListViewMessage::BringItemIntoView(h) => ListViewMessage::BringItemIntoView(*h),
        }
    }
}

impl ListViewMessage {
    /// A [`ListViewMessage::SelectionChanged`] message.
    pub fn selection(destination: Handle, direction: MessageDirection, selection: Vec<usize>) -> (r: UiMessage)
        ensures
            r == (UiMessage { destination, direction, handled: false, data: MessageData::ListView(ListViewMessage::SelectionChanged(selection)) }),
    {
        UiMessage { destination, direction, handled: false, data: MessageData::ListView(ListViewMessage::SelectionChanged(selection)) }
    }

    /// A [`ListViewMessage::Items`] message.
    pub fn items(destination: Handle, direction: MessageDirection, items: Vec<Handle>) -> (r: UiMessage)
        ensures
            r == (UiMessage { destination, direction, handled: false, data: MessageData::ListView(ListViewMessage::Items(items)) }),
    {
        UiMessage { destination, direction, handled: false, data: MessageData::ListView(ListViewMessage::Items(items)) }
    }

    /// A [`ListViewMessage::AddItem`] message.
    pub fn add_item(destination: Handle, direction: MessageDirection, item: Handle) -> (r: UiMessage)
        ensures
            r == (UiMessage { destination, direction, handled: false, data: MessageData::ListView(ListViewMessage::AddItem(item)) }),
    {
        UiMessage { destination, direction, handled: false, data: MessageData::ListView(ListViewMessage::AddItem(item)) }
    }

    /// A [`ListViewMessage::RemoveItem`] message.
    pub fn remove_item(destination: Handle, direction: MessageDirection, item: Handle) -> (r: UiMessage)
        ensures
            r == (UiMessage { destination, direction, handled: false, data: MessageData::ListView(ListViewMessage::RemoveItem(item)) }),
    {
        UiMessage { destination, direction, handled: false, data: MessageData::ListView(ListViewMessage::RemoveItem(item)) }
    }

    /// A [`ListViewMessage::BringItemIntoView`] message.
    pub fn bring_item_into_view(destination: Handle, direction: MessageDirection, item: Handle) -> (r: UiMessage)
        ensures
            r == (UiMessage { destination, direction, handled: false, data: MessageData::ListView(ListViewMessage::BringItemIntoView(item)) }),
    {
        UiMessage { destination, direction, handled: false, data: MessageData::ListView(ListViewMessage::BringItemIntoView(item)) }
    }
}

/// Whether `m` is a selection message for `destination` in `direction` that carries `sel`.
pub open spec fn is_selection_message(m: UiMessage, destination: Handle, direction: MessageDirection, sel: Seq<usize>) -> bool {
    &&& m.destination == destination
    &&& m.direction == direction
    &&& !m.handled
    &&& match m.data {
        MessageData::ListView(ListViewMessage::SelectionChanged(s)) => s@ == sel,
        _ => false,
    }
}

/// The selection with every index past the last item replaced by the last item's index, or
/// dropped when there are no items.
pub open spec fn fixed_selection(sel: Seq<usize>, len: nat) -> Seq<usize>
    decreases sel.len(),
{
    if sel.len() == 0 {
        Seq::empty()
    } else {
        let rest = fixed_selection(sel.drop_last(), len);
        let i = sel.last();
        if i >= len {
            if len > 0 { rest.push((len - 1) as usize) } else { rest }
        } else {
            rest.push(i)
        }
    }
}

/// The index that a press of `key` selects: the one after the largest selected index (going
/// round), the one before the smallest (going round), or the first item when nothing is
/// selected; none for other keys or without items.
pub open spec fn navigation_target(sel: Seq<usize>, len: nat, key: KeyCode) -> Option<usize> {
    if key == KeyCode::ArrowDown {
        if sel.len() == 0 {
            if len == 0 { None } else { Some(0usize) }
        } else {
            let i = seq_max(sel);
            let next = if i == usize::MAX { usize::MAX as int } else { i + 1 };
            Some((next % (len as int)) as usize)
        }
    } else if key == KeyCode::ArrowUp {
        if sel.len() == 0 {
            if len == 0 { None } else { Some(0usize) }
        } else {
            let i = seq_min(sel);
            let prev = if i == 0 { len - 1 } else { i - 1 };
            Some((prev % (len as int)) as usize)
        }
    } else {
        None
    }
}

/// Arrow up moves the selection one item up from its smallest index (whichever selected
/// position holds it), wrapping from the first item to the last: with `len` items it selects
/// `(smallest + len - 1) % len`, which differs from the smallest selected index whenever that
/// index is an item and there are at least two items.
pub proof fn lemma_arrow_up_moves_up(sel: Seq<usize>, len: nat, j: int)
    requires
        0 <= j < sel.len(),
        0 < len <= usize::MAX,
        forall|k: int| 0 <= k < sel.len() ==> sel[j] <= #[trigger] sel[k],
    ensures
        navigation_target(sel, len, KeyCode::ArrowUp) == Some(((sel[j] + len - 1) % (len as int)) as usize),
        sel[j] < len && len >= 2 ==> navigation_target(sel, len, KeyCode::ArrowUp) != Some(sel[j]),
{
    lemma_seq_min(sel);
    let m = seq_min(sel);
    let k = choose|k: int| 0 <= k < sel.len() && sel[k] == m;
    assert(m == sel[j]);
    if m == 0 {
        vstd::arithmetic::div_mod::lemma_small_mod((len - 1) as nat, len);
    } else {
        vstd::arithmetic::div_mod::lemma_mod_add_multiples_vanish(m - 1, len as int);
    }
    if sel[j] < len && len >= 2 {
        if m == 0 {
        } else {
            vstd::arithmetic::div_mod::lemma_small_mod((m - 1) as nat, len);
        }
    }
}

/// Arrow down moves the selection one item down from its largest index (whichever selected
/// position holds it), wrapping from the last item to the first: with `len` items it selects
/// `(largest + 1) % len`, which differs from the largest selected index whenever that index is
/// an item and there are at least two items.
pub proof fn lemma_arrow_down_moves_down(sel: Seq<usize>, len: nat, j: int)
    requires
        0 <= j < sel.len(),
        0 < len <= usize::MAX,
        sel[j] < usize::MAX,
        forall|k: int| 0 <= k < sel.len() ==> #[trigger] sel[k] <= sel[j],
    ensures
        navigation_target(sel, len, KeyCode::ArrowDown) == Some(((sel[j] + 1) % (len as int)) as usize),
        sel[j] < len && len >= 2 ==> navigation_target(sel, len, KeyCode::ArrowDown) != Some(sel[j]),
{
    lemma_seq_max(sel);
    let m = seq_max(sel);
    let k = choose|k: int| 0 <= k < sel.len() && sel[k] == m;
    assert(m == sel[j]);
    if sel[j] < len && len >= 2 {
        if m + 1 < len {
            vstd::arithmetic::div_mod::lemma_small_mod((m + 1) as nat, len);
        } else {
            assert(m + 1 == len);
            vstd::arithmetic::div_mod::lemma_mod_add_multiples_vanish(0, len as int);
            vstd::arithmetic::div_mod::lemma_small_mod(0, len);
        }
    }
}

/// A fixed selection holds only indices of items, and fixing it again changes nothing.
pub proof fn lemma_fixed_selection_is_fixed(sel: Seq<usize>, len: nat)
    ensures
        forall|j: int| 0 <= j < fixed_selection(sel, len).len() ==> #[trigger] fixed_selection(sel, len)[j] < len,
        fixed_selection(fixed_selection(sel, len), len) == fixed_selection(sel, len),
    decreases sel.len(),
{
    if sel.len() > 0 {
        lemma_fixed_selection_is_fixed(sel.drop_last(), len);
        let rest = fixed_selection(sel.drop_last(), len);
        let f = fixed_selection(sel, len);
        if f.len() > rest.len() {
            assert(f.drop_last() == rest);
            assert(f.last() < len);
        } else {
            assert(f == rest);
        }
    }
}

/// The largest element of a non-empty sequence.
pub open spec fn seq_max(s: Seq<usize>) -> usize
    decreases s.len(),
{
    if s.len() <= 1 {
        s[0]
    } else {
        let m = seq_max(s.drop_last());
        if s.last() > m { s.last() } else { m }
    }
}

/// The smallest element of a non-empty sequence.
pub open spec fn seq_min(s: Seq<usize>) -> usize
    decreases s.len(),
{
    if s.len() <= 1 {
        s[0]
    } else {
        let m = seq_min(s.drop_last());
        if s.last() < m { s.last() } else { m }
    }
}

proof fn lemma_seq_max(s: Seq<usize>)
    requires
        s.len() > 0,
    ensures
        s.contains(seq_max(s)),
        forall|j: int| 0 <= j < s.len() ==> s[j] <= seq_max(s),
    decreases s.len(),
{
    if s.len() > 1 {
        lemma_seq_max(s.drop_last());
        assert(s.drop_last().contains(seq_max(s.drop_last())));
        let k = choose|k: int| 0 <= k < s.drop_last().len() && s.drop_last()[k] == seq_max(s.drop_last());
        assert(s[k] == seq_max(s.drop_last()));
        assert forall|j: int| 0 <= j < s.len() implies s[j] <= seq_max(s) by {
            if j < s.len() - 1 {
                assert(s[j] == s.drop_last()[j]);
            }
        }
        if s.last() > seq_max(s.drop_last()) {
            assert(s[s.len() - 1] == seq_max(s));
        }
    } else {
        assert(s[0] == seq_max(s));
    }
}

proof fn lemma_seq_min(s: Seq<usize>)
    requires
        s.len() > 0,
    ensures
        s.contains(seq_min(s)),
        forall|j: int| 0 <= j < s.len() ==> seq_min(s) <= s[j],
    decreases s.len(),
{
    if s.len() > 1 {
        lemma_seq_min(s.drop_last());
        assert(s.drop_last().contains(seq_min(s.drop_last())));
        let k = choose|k: int| 0 <= k < s.drop_last().len() && s.drop_last()[k] == seq_min(s.drop_last());
        assert(s[k] == seq_min(s.drop_last()));
        assert forall|j: int| 0 <= j < s.len() implies seq_min(s) <= s[j] by {
            if j < s.len() - 1 {
                assert(s[j] == s.drop_last()[j]);
            }
        }
        if s.last() < seq_min(s.drop_last()) {
            assert(s[s.len() - 1] == seq_min(s));
        }
    } else {
        assert(s[0] == seq_min(s));
    }
}

/// Index of the first occurrence of `x` in `s` at or after `from`, or -1.
pub open spec fn first_index_from(s: Seq<Handle>, x: Handle, from: int) -> int
    decreases s.len() - from,
{
    if from < 0 || from >= s.len() {
        -1
    } else if s[from] == x {
        from
    } else {
        first_index_from(s, x, from + 1)
    }
}

/// Index of the first occurrence of `x` in `s`, or -1.
pub open spec fn first_index(s: Seq<Handle>, x: Handle) -> int {
    first_index_from(s, x, 0)
}

/// `first_index_from` finds the first occurrence at or after `from`.
pub proof fn lemma_first_index_from(s: Seq<Handle>, x: Handle, from: int)
    requires
        0 <= from,
    ensures
        ({
            let k = first_index_from(s, x, from);
            &&& k == -1 || (from <= k < s.len() && s[k] == x)
            &&& k == -1 ==> forall|j: int| from <= j < s.len() ==> s[j] != x
            &&& k >= 0 ==> forall|j: int| from <= j < k ==> s[j] != x
        }),
    decreases s.len() - from,
{
    if from < s.len() && s[from] != x {
        lemma_first_index_from(s, x, from + 1);
    }
}

/// A list view: items, the containers that wrap them, and the selected indices.
#[derive(Clone, Debug)]
pub struct ListView {
    /// The list view widget itself.
    pub handle: Handle,
    /// Current selection.
    pub selection: Vec<usize>,
    /// The containers that wrap the items, one per item.
    pub item_containers: Vec<Handle>,
    /// The panel that arranges the containers.
    pub panel: Handle,
    /// Current items.
    pub items: Vec<Handle>,
    /// The scroll viewer that scrolls the panel.
    pub scroll_viewer: Handle,
}

impl ListView {
    /// The current items.
    pub fn items(&self) -> (r: &[Handle])
        ensures
            r@ == self.items@,
    {
        self.items.as_slice()
    }

    /// The selection with out-of-range indices moved to the last item (or dropped when there
    /// are none); the message that sets it when it differs from the current selection.
    pub fn fix_selection(&self) -> (r: Option<UiMessage>)
        ensures
            r is None <==> fixed_selection(self.selection@, self.items@.len()) == self.selection@,
            r matches Some(m) ==> is_selection_message(m, self.handle, MessageDirection::ToWidget, fixed_selection(self.selection@, self.items@.len())),
    {
        let len = self.items.len();
        let mut fixed: Vec<usize> = Vec::new();
        let mut i: usize = 0;
        while i < self.selection.len()
            invariant
                len == self.items@.len(),
                i <= self.selection@.len(),
                fixed@ == fixed_selection(self.selection@.take(i as int), len as nat),
            decreases self.selection@.len() - i,
        {
            let idx = self.selection[i];
            if idx >= len {
                if len > 0 {
                    fixed.push(len - 1);
                }
            } else {
                fixed.push(idx);
            }
            proof {
                assert(self.selection@.take(i + 1).drop_last() == self.selection@.take(i as int));
            }
            i = i + 1;
        }
        assert(self.selection@.take(self.selection@.len() as int) == self.selection@);
        let mut same = fixed.len() == self.selection.len();
        let mut j: usize = 0;
        while j < fixed.len() && same
            invariant
                j <= fixed@.len(),
                same ==> fixed@.len() == self.selection@.len(),
                same ==> forall|k: int| 0 <= k < j ==> fixed@[k] == self.selection@[k],
                !same ==> fixed@ != self.selection@,
            decreases fixed@.len() - j + (if same { 1int } else { 0int }),
        {
            if fixed[j] != self.selection[j] {
                same = false;
            } else {
                j = j + 1;
            }
        }
        if same {
            assert(fixed@ =~= self.selection@);
            None
        } else {
            Some(ListViewMessage::selection(self.handle, MessageDirection::ToWidget, fixed))
        }
    }

    /// The largest selected index, if any.
    pub fn largest_selection_index(&self) -> (r: Option<usize>)
        ensures
            r is None <==> self.selection@.len() == 0,
            r matches Some(m) ==> self.selection@.contains(m) && forall|j: int| 0 <= j < self.selection@.len() ==> self.selection@[j] <= m,
            r matches Some(m) ==> m == seq_max(self.selection@),
    {
        if self.selection.len() == 0 {
            return None;
        }
        let mut m = self.selection[0];
        let mut i: usize = 1;
        while i < self.selection.len()
            invariant
                1 <= i <= self.selection@.len(),
                m == seq_max(self.selection@.take(i as int)),
            decreases self.selection@.len() - i,
        {
            assert(self.selection@.take(i + 1).drop_last() == self.selection@.take(i as int));
            if self.selection[i] > m {
                m = self.selection[i];
            }
            i = i + 1;
        }
        assert(self.selection@.take(self.selection@.len() as int) == self.selection@);
        proof {
            lemma_seq_max(self.selection@);
        }
        Some(m)
    }

    /// The smallest selected index, if any.
    pub fn smallest_selection_index(&self) -> (r: Option<usize>)
        ensures
            r is None <==> self.selection@.len() == 0,
            r matches Some(m) ==> self.selection@.contains(m) && forall|j: int| 0 <= j < self.selection@.len() ==> m <= self.selection@[j],
            r matches Some(m) ==> m == seq_min(self.selection@),
    {
        if self.selection.len() == 0 {
            return None;
        }
        let mut m = self.selection[0];
        let mut i: usize = 1;
        while i < self.selection.len()
            invariant
                1 <= i <= self.selection@.len(),
                m == seq_min(self.selection@.take(i as int)),
            decreases self.selection@.len() - i,
        {
            assert(self.selection@.take(i + 1).drop_last() == self.selection@.take(i as int));
            if self.selection[i] < m {
                m = self.selection[i];
            }
            i = i + 1;
        }
        assert(self.selection@.take(self.selection@.len() as int) == self.selection@);
        proof {
            lemma_seq_min(self.selection@);
        }
        Some(m)
    }

    /// For every item container, whether its item is selected: the state each container's
    /// decorator is set to.
    pub fn decorator_states(&self) -> (r: Vec<bool>)
        ensures
            r@.len() == self.item_containers@.len(),
            forall|i: int| 0 <= i < r@.len() ==> r@[i] == self.selection@.contains(i as usize),
    {
        let mut r: Vec<bool> = Vec::new();
        let mut i: usize = 0;
        while i < self.item_containers.len()
            invariant
                i <= self.item_containers@.len(),
                r@.len() == i,
                forall|k: int| 0 <= k < i ==> r@[k] == self.selection@.contains(k as usize),
            decreases self.item_containers@.len() - i,
        {
            let mut found = false;
            let mut j: usize = 0;
            while j < self.selection.len()
                invariant
                    j <= self.selection@.len(),
                    found == exists|k: int| 0 <= k < j && self.selection@[k] == i,
                decreases self.selection@.len() - j,
            {
                if self.selection[j] == i {
                    found = true;
                }
                j = j + 1;
            }
            r.push(found);
            i = i + 1;
        }
        r
    }

    /// The index a press of `key` selects, or none.
    pub fn navigation_target(&self, key: KeyCode) -> (r: Option<usize>)
        requires
            self.selection@.len() > 0 ==> self.items@.len() > 0,
            forall|j: int| 0 <= j < self.selection@.len() ==> self.selection@[j] <= isize::MAX,
        ensures
            r == navigation_target(self.selection@, self.items@.len(), key),
    {
        let count = self.items.len();
        if key == KeyCode::ArrowDown {
            match self.largest_selection_index() {
                Some(i) => {
                    let next = if i == usize::MAX { usize::MAX } else { i + 1 };
                    Some(next % count)
                },
                None => if count == 0 { None } else { Some(0) },
            }
        } else if key == KeyCode::ArrowUp {
            match self.smallest_selection_index() {
                Some(i) => {
                    let prev = if i == 0 { count - 1 } else { i - 1 };
                    Some(prev % count)
                },
                None => if count == 0 { None } else { Some(0) },
            }
        } else {
            None
        }
    }

    /// Handles the messages routed through the list view that need no new widgets: a new
    /// selection addressed to it, a request to show an item, and unhandled arrow keys.
    /// Returns the messages it sends, in order, and marks a key it uses handled. The other
    /// list view messages go through [`ListView::set_items`], [`ListView::add_item`] and
    /// [`ListView::remove_item`]; after a selection change the caller applies
    /// [`ListView::decorator_states`].
    pub fn handle_routed_message(&mut self, message: &mut UiMessage) -> (out: Vec<UiMessage>)
        requires
            old(self).selection@.len() > 0 ==> old(self).items@.len() > 0,
            forall|j: int| 0 <= j < old(self).selection@.len() ==> old(self).selection@[j] <= isize::MAX,
        ensures
            final(message).destination == old(message).destination,
            final(message).direction == old(message).direction,
            final(message).data == old(message).data,
            final(self).handle == old(self).handle,
            final(self).items == old(self).items,
            final(self).item_containers == old(self).item_containers,
            final(self).panel == old(self).panel,
            final(self).scroll_viewer == old(self).scroll_viewer,
            ({
                let s = *old(self);
                let m = *old(message);
                match m.data {
                    MessageData::ListView(ListViewMessage::SelectionChanged(sel)) =>
                        if m.spec_is_for(s.handle) && sel@ != s.selection@ {
                            &&& final(self).selection@ == sel@
                            &&& out@.len() == 1
                            &&& is_selection_message(out@[0], s.handle, MessageDirection::FromWidget, sel@)
                            &&& final(message).handled == m.handled
                        } else {
                            &&& final(self).selection@ == s.selection@
                            &&& out@.len() == 0
                            &&& final(message).handled == m.handled
                        },
                    MessageData::ListView(ListViewMessage::BringItemIntoView(item)) =>
                        if m.spec_is_for(s.handle) && s.items@.contains(item) {
                            &&& out@ == seq![UiMessage {
                                destination: s.scroll_viewer,
                                direction: MessageDirection::ToWidget,
                                handled: false,
                                data: MessageData::ScrollViewer(ScrollViewerMessage::BringIntoView(item)),
                            }]
                            &&& final(self).selection@ == s.selection@
                            &&& final(message).handled == m.handled
                        } else {
                            &&& out@.len() == 0
                            &&& final(self).selection@ == s.selection@
                            &&& final(message).handled == m.handled
                        },
                    MessageData::Widget(WidgetMessage::KeyDown(key)) =>
                        if !m.handled && navigation_target(s.selection@, s.items@.len(), key) is Some {
                            &&& out@.len() == 1
                            &&& is_selection_message(out@[0], s.handle, MessageDirection::ToWidget, seq![navigation_target(s.selection@, s.items@.len(), key)->Some_0])
                            &&& final(message).handled
                            &&& final(self).selection@ == s.selection@
                        } else {
                            &&& out@.len() == 0
                            &&& final(message).handled == m.handled
                            &&& final(self).selection@ == s.selection@
                        },
                    _ => {
                        &&& out@.len() == 0
                        &&& final(message).handled == m.handled
                        &&& final(self).selection@ == s.selection@
                    },
                }
            }),
    {
        let mut out: Vec<UiMessage> = Vec::new();
        let for_self = message.destination == self.handle && message.direction == MessageDirection::ToWidget;
        match &message.data {
            MessageData::ListView(ListViewMessage::SelectionChanged(sel)) => {
                if for_self {
                    let mut differs = sel.len() != self.selection.len();
                    let mut j: usize = 0;
                    while j < sel.len() && !differs
                        invariant
                            j <= sel@.len(),
                            !differs ==> sel@.len() == self.selection@.len(),
                            !differs ==> forall|k: int| 0 <= k < j ==> sel@[k] == self.selection@[k],
                            differs ==> sel@ != self.selection@,
                        decreases sel@.len() - j + (if differs { 0int } else { 1int }),
                    {
                        if sel[j] != self.selection[j] {
                            differs = true;
                        } else {
                            j = j + 1;
                        }
                    }
                    if !differs {
                        assert(sel@ =~= self.selection@);
                    }
                    if differs {
                        let copy = sel.clone();
                        assert(copy@ =~= sel@);
                        self.selection = copy;
                        let back = sel.clone();
                        assert(back@ =~= sel@);
                        out.push(ListViewMessage::selection(self.handle, MessageDirection::FromWidget, back));
                    }
                }
            },
            MessageData::ListView(ListViewMessage::BringItemIntoView(item)) => {
                let item = *item;
                if for_self {
                    let mut found = false;
                    let mut j: usize = 0;
                    while j < self.items.len()
                        invariant
                            j <= self.items@.len(),
                            found == exists|k: int| 0 <= k < j && self.items@[k] == item,
                        decreases self.items@.len() - j,
                    {
                        if self.items[j] == item {
                            found = true;
                        }
                        j = j + 1;
                    }
                    if found {
                        out.push(UiMessage {
                            destination: self.scroll_viewer,
                            direction: MessageDirection::ToWidget,
                            handled: false,
                            data: MessageData::ScrollViewer(ScrollViewerMessage::BringIntoView(item)),
                        });
                    }
                }
            },
            MessageData::Widget(WidgetMessage::KeyDown(key)) => {
                let key = *key;
                if !message.handled {
                    match self.navigation_target(key) {
                        Some(i) => {
                            let mut sel: Vec<usize> = Vec::new();
                            sel.push(i);
                            out.push(ListViewMessage::selection(self.handle, MessageDirection::ToWidget, sel));
                            message.handled = true;
                        },
                        None => {},
                    }
                }
            },
            _ => {},
        }
        out
    }

    /// Replaces the items: `containers[i]` is the new container made for `items[i]`, and
    /// `panel_children` the children the panel had. Returns the messages that remove the old
    /// children and link the new containers to the panel, then the selection fix, if any.
    pub fn set_items(&mut self, items: Vec<Handle>, containers: Vec<Handle>, panel_children: &[Handle]) -> (out: Vec<UiMessage>)
        requires
            items@.len() == containers@.len(),
        ensures
            final(self).items@ == items@,
            final(self).item_containers@ == containers@,
            final(self).selection@ == old(self).selection@,
            final(self).handle == old(self).handle,
            final(self).panel == old(self).panel,
            final(self).scroll_viewer == old(self).scroll_viewer,
            out@.len() >= panel_children@.len() + containers@.len(),
            forall|i: int| 0 <= i < panel_children@.len() ==> out@[i] == (UiMessage {
                destination: panel_children@[i],
                direction: MessageDirection::ToWidget,
                handled: false,
                data: MessageData::Widget(WidgetMessage::Remove),
            }),
            forall|i: int| 0 <= i < containers@.len() ==> out@[panel_children@.len() + i] == (UiMessage {
                destination: containers@[i],
                direction: MessageDirection::ToWidget,
                handled: false,
                data: MessageData::Widget(WidgetMessage::LinkWith(old(self).panel)),
            }),
            out@.len() == panel_children@.len() + containers@.len() + (if fixed_selection(old(self).selection@, items@.len()) == old(self).selection@ { 0int } else { 1 }),
            out@.len() > panel_children@.len() + containers@.len() ==> ({
                let m = out@[out@.len() - 1];
                is_selection_message(m, old(self).handle, MessageDirection::ToWidget, fixed_selection(old(self).selection@, items@.len()))
            }),
    {
        let mut out: Vec<UiMessage> = Vec::new();
        let mut i: usize = 0;
        while i < panel_children.len()
            invariant
                i <= panel_children@.len(),
                out@.len() == i,
                forall|k: int| 0 <= k < i ==> out@[k] == (UiMessage {
                    destination: panel_children@[k],
                    direction: MessageDirection::ToWidget,
                    handled: false,
                    data: MessageData::Widget(WidgetMessage::Remove),
                }),
            decreases panel_children@.len() - i,
        {
            out.push(UiMessage::for_widget(panel_children[i], MessageData::Widget(WidgetMessage::Remove)));
            i = i + 1;
        }
        let mut j: usize = 0;
        while j < containers.len()
            invariant
                j <= containers@.len(),
                out@.len() == panel_children@.len() + j,
                forall|k: int| 0 <= k < panel_children@.len() ==> out@[k] == (UiMessage {
                    destination: panel_children@[k],
                    direction: MessageDirection::ToWidget,
                    handled: false,
                    data: MessageData::Widget(WidgetMessage::Remove),
                }),
                forall|k: int| 0 <= k < j ==> out@[panel_children@.len() + k] == (UiMessage {
                    destination: containers@[k],
                    direction: MessageDirection::ToWidget,
                    handled: false,
                    data: MessageData::Widget(WidgetMessage::LinkWith(self.panel)),
                }),
            decreases containers@.len() - j,
        {
            out.push(UiMessage::for_widget(containers[j], MessageData::Widget(WidgetMessage::LinkWith(self.panel))));
            j = j + 1;
        }
        self.item_containers = containers;
        self.items = items;
        match self.fix_selection() {
            Some(m) => out.push(m),
            None => {},
        }
        out
    }

    /// Adds an item wrapped in the new container `container`; returns the message that links
    /// the container to the panel.
    pub fn add_item(&mut self, item: Handle, container: Handle) -> (out: UiMessage)
        ensures
            final(self).items@ == old(self).items@.push(item),
            final(self).item_containers@ == old(self).item_containers@.push(container),
            final(self).selection@ == old(self).selection@,
            final(self).handle == old(self).handle,
            final(self).panel == old(self).panel,
            final(self).scroll_viewer == old(self).scroll_viewer,
            out == (UiMessage {
                destination: container,
                direction: MessageDirection::ToWidget,
                handled: false,
                data: MessageData::Widget(WidgetMessage::LinkWith(old(self).panel)),
            }),
    {
        self.item_containers.push(container);
        self.items.push(item);
        UiMessage::for_widget(container, MessageData::Widget(WidgetMessage::LinkWith(self.panel)))
    }

    /// Removes the first occurrence of `item` and its container; `item_parent` is the widget
    /// that holds the item. Returns the messages that remove the parent and fix the
    /// selection; nothing changes when the item is absent.
    pub fn remove_item(&mut self, item: Handle, item_parent: Handle) -> (out: Vec<UiMessage>)
        requires
            old(self).items@.len() == old(self).item_containers@.len(),
        ensures
            final(self).handle == old(self).handle,
            final(self).panel == old(self).panel,
            final(self).scroll_viewer == old(self).scroll_viewer,
            final(self).selection@ == old(self).selection@,
            !old(self).items@.contains(item) ==> out@.len() == 0 && final(self).items@ == old(self).items@
                && final(self).item_containers@ == old(self).item_containers@,
            old(self).items@.contains(item) ==> ({
                let p = first_index(old(self).items@, item);
                &&& final(self).items@ == old(self).items@.remove(p)
                &&& final(self).item_containers@ == old(self).item_containers@.remove(p)
                &&& out@.len() >= 1
                &&& out@[0] == (UiMessage {
                    destination: item_parent,
                    direction: MessageDirection::ToWidget,
                    handled: false,
                    data: MessageData::Widget(WidgetMessage::Remove),
                })
                &&& out@.len() == 1 + (if fixed_selection(old(self).selection@, (old(self).items@.len() - 1) as nat) == old(self).selection@ { 0int } else { 1 })
            }),
    {
        let mut out: Vec<UiMessage> = Vec::new();
        let mut p: usize = 0;
        while p < self.items.len()
            invariant
                p <= self.items@.len(),
                forall|k: int| 0 <= k < p ==> self.items@[k] != item,
            ensures
                p <= self.items@.len(),
                p < self.items@.len() ==> self.items@[p as int] == item,
                forall|k: int| 0 <= k < p ==> self.items@[k] != item,
            decreases self.items@.len() - p,
        {
            if self.items[p] == item {
                break;
            }
            p = p + 1;
        }
        if p < self.items.len() {
            proof {
                assert(self.items@[p as int] == item);
                assert(self.items@.contains(item));
                lemma_first_index_from(self.items@, item, 0);
                let q = first_index(self.items@, item);
                if q != p {
                    if q < p {
                        assert(self.items@[q] != item);
                    } else {
                        assert(self.items@[p as int] != item);
                    }
                }
            }
            self.items.remove(p);
            self.item_containers.remove(p);
            out.push(UiMessage::for_widget(item_parent, MessageData::Widget(WidgetMessage::Remove)));
            match self.fix_selection() {
                Some(m) => out.push(m),
                None => {},
            }
        } else {
            assert(!self.items@.contains(item));
        }
        out
    }
}

/// A container that makes its item selectable by a click.
#[derive(Copy, Clone, Debug)]
pub struct ListViewItem {
    /// The container widget itself.
    pub handle: Handle,
}

impl ListViewItem {
    /// The selection a click on this container asks its list view for: the list view's
    /// selection followed by this container's index when Ctrl is held, otherwise just that
    /// index.
    pub fn click_selection(&self, list_view: &ListView, modifiers: KeyboardModifiers) -> (r: Vec<usize>)
        requires
            list_view.item_containers@.contains(self.handle),
        ensures
            ({
                let i = first_index(list_view.item_containers@, self.handle) as usize;
                r@ == if modifiers.control { list_view.selection@.push(i) } else { seq![i] }
            }),
    {
        let mut p: usize = 0;
        while p < list_view.item_containers.len()
            invariant
                p <= list_view.item_containers@.len(),
                list_view.item_containers@.contains(self.handle),
                forall|k: int| 0 <= k < p ==> list_view.item_containers@[k] != self.handle,
            ensures
                p <= list_view.item_containers@.len(),
                p < list_view.item_containers@.len() ==> list_view.item_containers@[p as int] == self.handle,
                forall|k: int| 0 <= k < p ==> list_view.item_containers@[k] != self.handle,
            decreases list_view.item_containers@.len() - p,
        {
            if list_view.item_containers[p] == self.handle {
                break;
            }
            p = p + 1;
        }
        proof {
            lemma_first_index_from(list_view.item_containers@, self.handle, 0);
            let q = first_index(list_view.item_containers@, self.handle);
            let w = choose|k: int| 0 <= k < list_view.item_containers@.len() && list_view.item_containers@[k] == self.handle;
            assert(q >= 0);
            if p == list_view.item_containers@.len() {
                assert(list_view.item_containers@[q] != self.handle);
            }
            if q < p {
                assert(list_view.item_containers@[q] != self.handle);
            }
            if p < q {
                assert(list_view.item_containers@[p as int] != self.handle);
            }
            assert(q == p);
        }
        if modifiers.control {
            let mut s = list_view.selection.clone();
            assert(s@ =~= list_view.selection@);
            s.push(p);
            s
        } else {
            let mut s: Vec<usize> = Vec::new();
            s.push(p);
            s
        }
    }

    /// Handles a mouse button release routed through this container of `list_view`: when not
    /// yet handled, asks the list view to select as [`ListViewItem::click_selection`] says
    /// and marks the message handled.
    pub fn handle_routed_message(&self, list_view: &ListView, modifiers: KeyboardModifiers, message: &mut UiMessage) -> (out: Vec<UiMessage>)
        requires
            list_view.item_containers@.contains(self.handle),
        ensures
            final(message).destination == old(message).destination,
            final(message).direction == old(message).direction,
            final(message).data == old(message).data,
            (old(message).data matches MessageData::Widget(WidgetMessage::MouseUp { .. }) && !old(message).handled) ==> ({
                let i = first_index(list_view.item_containers@, self.handle) as usize;
                &&& out@.len() == 1
                &&& is_selection_message(out@[0], list_view.handle, MessageDirection::ToWidget, if modifiers.control { list_view.selection@.push(i) } else { seq![i] })
                &&& final(message).handled
            }),
            !(old(message).data matches MessageData::Widget(WidgetMessage::MouseUp { .. }) && !old(message).handled)
                ==> out@.len() == 0 && final(message).handled == old(message).handled,
    {
        let mut out: Vec<UiMessage> = Vec::new();
        let is_up = match message.data {
            MessageData::Widget(WidgetMessage::MouseUp { .. }) => true,
            _ => false,
        };
        if is_up && !message.handled {
            let sel = self.click_selection(list_view, modifiers);
            out.push(ListViewMessage::selection(list_view.handle, MessageDirection::ToWidget, sel));
            message.handled = true;
        }
        out
    }
}

/// Builds list views.
#[derive(Clone, Debug)]
pub struct ListViewBuilder {
    items: Vec<Handle>,
    panel: Option<Handle>,
    scroll_viewer: Option<Handle>,
}

impl ListViewBuilder {
    pub closed spec fn spec_items(&self) -> Seq<Handle> {
        self.items@
    }

    pub closed spec fn spec_panel(&self) -> Option<Handle> {
        self.panel
    }

    pub closed spec fn spec_scroll_viewer(&self) -> Option<Handle> {
        self.scroll_viewer
    }

    /// A builder with no items and the default panel and scroll viewer.
    pub fn new() -> (r: Self)
        ensures
            r.spec_items().len() == 0,
            r.spec_panel() is None,
            r.spec_scroll_viewer() is None,
    {
        ListViewBuilder { items: Vec::new(), panel: None, scroll_viewer: None }
    }

    /// Sets the items.
    pub fn with_items(self, items: Vec<Handle>) -> (r: Self)
        ensures
            r.spec_items() == items@,
            r.spec_panel() == self.spec_panel(),
            r.spec_scroll_viewer() == self.spec_scroll_viewer(),
    {
        ListViewBuilder { items, panel: self.panel, scroll_viewer: self.scroll_viewer }
    }

    /// Sets the panel that arranges the items.
    pub fn with_items_panel(self, panel: Handle) -> (r: Self)
        ensures
            r.spec_items() == self.spec_items(),
            r.spec_panel() == Some(panel),
            r.spec_scroll_viewer() == self.spec_scroll_viewer(),
    {
        ListViewBuilder { items: self.items, panel: Some(panel), scroll_viewer: self.scroll_viewer }
    }

    /// Sets the scroll viewer.
    pub fn with_scroll_viewer(self, sv: Handle) -> (r: Self)
        ensures
            r.spec_items() == self.spec_items(),
            r.spec_panel() == self.spec_panel(),
            r.spec_scroll_viewer() == Some(sv),
    {
        ListViewBuilder { items: self.items, panel: self.panel, scroll_viewer: Some(sv) }
    }

    /// The list view for the widget `handle`, with `containers[i]` made for item `i`; the
    /// given `default_panel` and `default_scroll_viewer` are used where none was set. Nothing
    /// is selected. Also returns how the widgets are put together: the list view accepts
    /// input, each container holds its item alone, and the containers are children of the
    /// panel, in the order of the items.
    pub fn build(self, handle: Handle, containers: Vec<Handle>, default_panel: Handle, default_scroll_viewer: Handle) -> (r: (ListView, ListViewLayout))
        requires
            containers@.len() == self.spec_items().len(),
        ensures
            r.1.accepts_input,
            r.1.links@ == item_links(self.spec_items(), containers@, r.0.panel),
            r.0.handle == handle,
            r.0.selection@.len() == 0,
            r.0.items@ == self.spec_items(),
            r.0.item_containers@ == containers@,
            r.0.panel == (match self.spec_panel() { Some(p) => p, None => default_panel }),
            r.0.scroll_viewer == (match self.spec_scroll_viewer() { Some(s) => s, None => default_scroll_viewer }),
    {
        let panel = match self.panel {
            Some(p) => p,
            None => default_panel,
        };
        let scroll_viewer = match self.scroll_viewer {
            Some(s) => s,
            None => default_scroll_viewer,
        };
        let mut links: Vec<WidgetLink> = Vec::new();
        let mut i: usize = 0;
        while i < self.items.len()
            invariant
                i <= self.items@.len(),
                containers@.len() == self.items@.len(),
                links@ == Seq::new(i as nat, |j: int| WidgetLink { child: self.items@[j], parent: containers@[j] }),
            decreases self.items@.len() - i,
        {
            links.push(WidgetLink { child: self.items[i], parent: containers[i] });
            i = i + 1;
        }
        let mut i: usize = 0;
        while i < containers.len()
            invariant
                i <= containers@.len(),
                containers@.len() == self.items@.len(),
                links@ == Seq::new(self.items@.len(), |j: int| WidgetLink { child: self.items@[j], parent: containers@[j] })
                    + Seq::new(i as nat, |j: int| WidgetLink { child: containers@[j], parent: panel }),
            decreases containers@.len() - i,
        {
            links.push(WidgetLink { child: containers[i], parent: panel });
            proof {
                assert(Seq::new((i + 1) as nat, |j: int| WidgetLink { child: containers@[j], parent: panel })
                    =~= Seq::new(i as nat, |j: int| WidgetLink { child: containers@[j], parent: panel }).push(WidgetLink { child: containers@[i as int], parent: panel }));
            }
            i = i + 1;
        }
        let view = ListView {
            handle,
            selection: Vec::new(),
            item_containers: containers,
            panel,
            items: self.items,
            scroll_viewer,
        };
        (view, ListViewLayout { accepts_input: true, links })
    }
}

/// One widget made a child of another.
#[derive(Copy, Clone, Debug, PartialEq, Eq, Structural)]
pub struct WidgetLink {
    pub child: Handle,
    pub parent: Handle,
}

/// How a new list view is put together.
#[derive(Clone, Debug)]
pub struct ListViewLayout {
    /// Whether the list view takes keyboard and mouse input.
    pub accepts_input: bool,
    /// The links made, in order.
    pub links: Vec<WidgetLink>,
}

/// The links of a new list view: each item into its container, in order, then each
/// container into the panel, in order.
pub open spec fn item_links(items: Seq<Handle>, containers: Seq<Handle>, panel: Handle) -> Seq<WidgetLink> {
    Seq::new(items.len(), |j: int| WidgetLink { child: items[j], parent: containers[j] })
        + Seq::new(containers.len(), |j: int| WidgetLink { child: containers[j], parent: panel })
}

} // verus!
