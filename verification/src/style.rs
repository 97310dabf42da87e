//! Binding properties to the properties of a style: the selector window that lists the
//! style properties of the edited type, and the editor that wraps another editor with a bind
//! button.

use vstd::prelude::*;
use vstd::string::StringExecFns;
use crate::message::{Handle, MessageDirection, UiMessage, MessageData, ButtonMessage, WindowMessage, WindowAlignment};
use crate::list_view::ListViewMessage;
use crate::editors::{UNIT_TYPE_ID, PropertyEditorInstance};
use crate::text::same_chars;

verus! {

/// Messages of style property selectors.
#[derive(PartialEq, Eq, Debug)]
pub enum StyledPropertySelectorMessage {
    /// The chosen style property.
    PropertyName(String),
}

impl Clone for StyledPropertySelectorMessage {
    fn clone(&self) -> (r: Self)
        ensures
            r == *self,
    {
        match self {
            StyledPropertySelectorMessage::PropertyName(s) => StyledPropertySelectorMessage::PropertyName(s.clone()),
        }
    }
}

/// Messages of styled property editors.
#[derive(PartialEq, Eq, Debug)]
pub enum StyledPropertyEditorMessage {
    /// Binds the edited property to the named style property.
    BindProperty(String),
}

impl Clone for StyledPropertyEditorMessage {
    fn clone(&self) -> (r: Self)
        ensures
            r == *self,
    {
        match self {
            StyledPropertyEditorMessage::BindProperty(s) => StyledPropertyEditorMessage::BindProperty(s.clone()),
        }
    }
}

/// A property of a style: its name and the id of the type of its value.
#[derive(Debug)]
pub struct StyleProperty {
    pub name: String,
    pub value_type_id: u64,
}

/// The names of the properties whose value has the type `target_type`, in order.
pub open spec fn matching_names(props: Seq<StyleProperty>, target_type: u64) -> Seq<Seq<char>>
    decreases props.len(),
{
    if props.len() == 0 {
        Seq::empty()
    } else {
        let rest = matching_names(props.drop_last(), target_type);
        if props.last().value_type_id == target_type { rest.push(props.last().name@) } else { rest }
    }
}

/// The index of the first name equal to `name`, or -1.
pub open spec fn first_name_index(names: Seq<Seq<char>>, name: Seq<char>) -> int
    decreases names.len(),
{
    if names.len() == 0 {
        -1
    } else if names[0] == name {
        0
    } else {
        let r = first_name_index(names.drop_first(), name);
        if r < 0 { -1 } else { r + 1 }
    }
}

proof fn lemma_first_name_index(names: Seq<Seq<char>>, name: Seq<char>)
    ensures
        -1 <= first_name_index(names, name) < names.len(),
        first_name_index(names, name) >= 0 ==> names[first_name_index(names, name)] == name,
        forall|j: int| 0 <= j < names.len() && (j < first_name_index(names, name) || first_name_index(names, name) < 0)
            ==> #[trigger] names[j] != name,
    decreases names.len(),
{
    if names.len() > 0 {
        lemma_first_name_index(names.drop_first(), name);
        assert forall|j: int| 0 < j < names.len() implies #[trigger] names[j] == names.drop_first()[j - 1] by {}
    }
}

/// The characters of each string.
pub open spec fn names_view(v: Seq<String>) -> Seq<Seq<char>> {
    v.map_values(|s: String| s@)
}

/// The names of the properties whose value has the type `target_type`, in order.
pub fn matching_property_names(properties: &[StyleProperty], target_type: u64) -> (r: Vec<String>)
    ensures
        names_view(r@) == matching_names(properties@, target_type),
{
    let mut out: Vec<String> = Vec::new();
    let mut i: usize = 0;
    while i < properties.len()
        invariant
            i <= properties@.len(),
            names_view(out@) == matching_names(properties@.take(i as int), target_type),
        decreases properties@.len() - i,
    {
        assert(properties@.take(i + 1).drop_last() == properties@.take(i as int));
        if properties[i].value_type_id == target_type {
            let ghost before = out@;
            let name = properties[i].name.clone();
            out.push(name);
            assert(names_view(out@) =~= names_view(before).push(properties@[i as int].name@));
        }
        i = i + 1;
    }
    assert(properties@.take(properties@.len() as int) == properties@);
    out
}

/// A window that lists the style properties of one type and lets the user pick one.
#[derive(Debug)]
pub struct StyledPropertySelector {
    pub handle: Handle,
    pub title: String,
    /// The list view of the properties.
    pub properties: Handle,
    /// The names of the listed properties, in the order of the list.
    pub property_list: Vec<String>,
    pub ok: Handle,
    pub cancel: Handle,
    /// The name picked so far.
    pub style_property_name: String,
}

/// The message that closes the window `window`.
pub open spec fn close_message(window: Handle) -> UiMessage {
    UiMessage { destination: window, direction: MessageDirection::ToWidget, handled: false, data: MessageData::Window(WindowMessage::Close) }
}

/// A clicked button `m` reported by the widget `from`.
pub open spec fn is_click_from(m: UiMessage, from: Handle) -> bool {
    m.data == MessageData::Button(ButtonMessage::Click) && m.spec_is_from(from)
}

/// A non-empty selection addressed to the list view `list`, and its first index.
pub open spec fn first_selected(m: UiMessage, list: Handle) -> Option<usize> {
    match m.data {
        MessageData::ListView(ListViewMessage::SelectionChanged(sel)) =>
            if sel@.len() > 0 && m.destination == list { Some(sel@[0]) } else { None },
        _ => None,
    }
}

impl StyledPropertySelector {
    /// Reacts to a message routed through the window: a selection in the property list picks
    /// the property with the first selected index; a click of OK reports the picked name, as
    /// coming from the window, and closes the window; a click of Cancel closes the window.
    /// Returns the messages to send, in order.
    pub fn handle_routed_message(&mut self, message: &UiMessage) -> (out: Vec<UiMessage>)
        requires
            first_selected(*message, old(self).properties) matches Some(i) ==> i < old(self).property_list@.len(),
        ensures
            final(self).handle == old(self).handle,
            final(self).properties == old(self).properties,
            final(self).property_list@ == old(self).property_list@,
            final(self).ok == old(self).ok,
            final(self).cancel == old(self).cancel,
            final(self).title@ == old(self).title@,
            match message.data {
                MessageData::ListView(ListViewMessage::SelectionChanged(_)) => {
                    &&& out@.len() == 0
                    &&& final(self).style_property_name@ == match first_selected(*message, old(self).properties) {
                        Some(i) => old(self).property_list@[i as int]@,
                        None => old(self).style_property_name@,
                    }
                },
                _ => {
                    &&& final(self).style_property_name@ == old(self).style_property_name@
                    &&& if is_click_from(*message, old(self).ok) {
                        &&& out@.len() == 2
                        &&& out@[0].destination == old(self).handle
                        &&& out@[0].direction == MessageDirection::FromWidget
                        &&& !out@[0].handled
                        &&& (out@[0].data matches MessageData::StyledPropertySelector(StyledPropertySelectorMessage::PropertyName(n))
                            && n@ == old(self).style_property_name@)
                        &&& out@[1] == close_message(old(self).handle)
                    } else if is_click_from(*message, old(self).cancel) {
                        out@ == seq![close_message(old(self).handle)]
                    } else {
                        out@.len() == 0
                    }
                },
            },
    {
        let mut out: Vec<UiMessage> = Vec::new();
        match &message.data {
            MessageData::ListView(ListViewMessage::SelectionChanged(sel)) => {
                if sel.len() > 0 && message.destination == self.properties {
                    let i = sel[0];
                    self.style_property_name = self.property_list[i].clone();
                }
            },
            _ => {
                let is_click = match &message.data {
                    MessageData::Button(ButtonMessage::Click) => true,
                    _ => false,
                };
                if is_click && message.is_from(self.ok) {
                    out.push(UiMessage::from_widget(
                        self.handle,
                        MessageData::StyledPropertySelector(StyledPropertySelectorMessage::PropertyName(self.style_property_name.clone())),
                    ));
                    out.push(UiMessage::for_widget(self.handle, MessageData::Window(WindowMessage::Close)));
                } else if is_click && message.is_from(self.cancel) {
                    out.push(UiMessage::for_widget(self.handle, MessageData::Window(WindowMessage::Close)));
                }
            },
        }
        out
    }
}

/// Builds style property selectors.
#[derive(Debug)]
pub struct StyledPropertySelectorBuilder {
    /// The title of the window.
    pub title: String,
}

/// The message that scrolls the list view `list` to `item`.
pub open spec fn bring_into_view_message(list: Handle, item: Handle) -> UiMessage {
    UiMessage { destination: list, direction: MessageDirection::ToWidget, handled: false, data: MessageData::ListView(ListViewMessage::BringItemIntoView(item)) }
}

impl StyledPropertySelectorBuilder {
    /// A builder of a window with the given title.
    pub fn new(title: String) -> (r: Self)
        ensures
            r.title@ == title@,
    {
        StyledPropertySelectorBuilder { title }
    }

    /// The selector `handle` of the style properties (`all_properties`) of the type
    /// `target_type`, listed in the list view `properties` by the option widgets `items` (one
    /// per matching property, in order), with OK and Cancel buttons. The property named
    /// `style_property_name`, if listed, is selected: the result carries the selection of the
    /// list (its first index with that name, or nothing) and the message that scrolls the list
    /// to it.
    pub fn build(
        self,
        handle: Handle,
        properties: Handle,
        ok: Handle,
        cancel: Handle,
        all_properties: &[StyleProperty],
        target_type: u64,
        style_property_name: String,
        items: &[Handle],
    ) -> (r: (StyledPropertySelector, Vec<usize>, Option<UiMessage>))
        requires
            items@.len() == matching_names(all_properties@, target_type).len(),
        ensures
            r.0.handle == handle,
            r.0.title@ == self.title@,
            r.0.properties == properties,
            r.0.ok == ok,
            r.0.cancel == cancel,
            names_view(r.0.property_list@) == matching_names(all_properties@, target_type),
            r.0.style_property_name@ == style_property_name@,
            ({
                let i = first_name_index(matching_names(all_properties@, target_type), style_property_name@);
                if i >= 0 {
                    &&& r.1@ == seq![i as usize]
                    &&& r.2 == Some(bring_into_view_message(properties, items@[i]))
                } else {
                    &&& r.1@.len() == 0
                    &&& r.2 is None
                }
            }),
    {
        let property_list = matching_property_names(all_properties, target_type);
        let ghost names = matching_names(all_properties@, target_type);
        assert(names.len() == property_list@.len());
        proof {
            lemma_first_name_index(names, style_property_name@);
        }
        let mut found: Option<usize> = None;
        let mut i: usize = 0;
        while i < property_list.len()
            invariant_except_break
                found is None,
            invariant
                i <= property_list@.len(),
                names_view(property_list@) == names,
                names.len() == property_list@.len(),
                forall|j: int| 0 <= j < i ==> #[trigger] names[j] != style_property_name@,
                -1 <= first_name_index(names, style_property_name@) < names.len(),
                first_name_index(names, style_property_name@) >= 0 ==> names[first_name_index(names, style_property_name@)] == style_property_name@,
                forall|j: int| 0 <= j < names.len() && (j < first_name_index(names, style_property_name@) || first_name_index(names, style_property_name@) < 0)
                    ==> #[trigger] names[j] != style_property_name@,
            ensures
                found matches Some(k) ==> k == first_name_index(names, style_property_name@),
                found is None ==> first_name_index(names, style_property_name@) < 0,
            decreases property_list@.len() - i,
        {
            assert(names[i as int] == property_list@[i as int]@);
            if same_chars(property_list[i].as_str(), style_property_name.as_str()) {
                found = Some(i);
                assert(i == first_name_index(names, style_property_name@));
                break;
            }
            i = i + 1;
        }
        let mut selection: Vec<usize> = Vec::new();
        let bring = match found {
            Some(k) => {
                selection.push(k);
                Some(UiMessage::for_widget(properties, MessageData::ListView(ListViewMessage::BringItemIntoView(items[k]))))
            },
            None => None,
        };
        let selector = StyledPropertySelector {
            handle,
            title: self.title,
            properties,
            property_list,
            ok,
            cancel,
            style_property_name,
        };
        (selector, selection, bring)
    }

    /// Builds the selector as `build` does, in a window titled "Select A Style Property"
    /// that starts closed and is removed when it closes, and opens it as a modal window in
    /// the center of the screen. Returns the selector, the selection of its list, the messages
    /// to send (the scroll to the selected property, if any, then the opening of the window),
    /// and how the window is made.
    pub fn build_and_open_window(
        handle: Handle,
        properties: Handle,
        ok: Handle,
        cancel: Handle,
        all_properties: &[StyleProperty],
        target_type: u64,
        style_property_name: String,
        items: &[Handle],
    ) -> (r: (StyledPropertySelector, Vec<usize>, Vec<UiMessage>, WindowSettings))
        requires
            items@.len() == matching_names(all_properties@, target_type).len(),
        ensures
            r.3 == (WindowSettings { remove_on_close: true, open: false }),
            r.0.handle == handle,
            r.0.title@ == "Select A Style Property"@,
            r.0.properties == properties,
            r.0.ok == ok,
            r.0.cancel == cancel,
            names_view(r.0.property_list@) == matching_names(all_properties@, target_type),
            r.0.style_property_name@ == style_property_name@,
            ({
                let i = first_name_index(matching_names(all_properties@, target_type), style_property_name@);
                let open = UiMessage {
                    destination: handle,
                    direction: MessageDirection::ToWidget,
                    handled: false,
                    data: MessageData::Window(WindowMessage::Open { alignment: WindowAlignment::Center, modal: true, focus_content: true }),
                };
                if i >= 0 {
                    &&& r.1@ == seq![i as usize]
                    &&& r.2@ == seq![bring_into_view_message(properties, items@[i]), open]
                } else {
                    &&& r.1@.len() == 0
                    &&& r.2@ == seq![open]
                }
            }),
    {
        let builder = StyledPropertySelectorBuilder::new(String::from_str("Select A Style Property"));
        let (selector, selection, bring) = builder.build(handle, properties, ok, cancel, all_properties, target_type, style_property_name, items);
        let mut out: Vec<UiMessage> = Vec::new();
        match bring {
            Some(m) => out.push(m),
            None => {},
        }
        out.push(UiMessage::for_widget(
            handle,
            MessageData::Window(WindowMessage::Open { alignment: WindowAlignment::Center, modal: true, focus_content: true }),
        ));
        (selector, selection, out, WindowSettings { remove_on_close: true, open: false })
    }
}

/// How a window is made: whether it is removed when it closes, and whether it starts open.
#[derive(Copy, Clone, Debug, PartialEq, Eq, Structural)]
pub struct WindowSettings {
    pub remove_on_close: bool,
    pub open: bool,
}

/// An editor that wraps the editor of a value with a button that binds the value to a
/// property of a style.
#[derive(Debug)]
pub struct StyledPropertyEditor {
    pub handle: Handle,
    /// The bind button.
    pub bind: Handle,
    /// The wrapped editor.
    pub inner_editor: Handle,
    /// The property selector window, once opened.
    pub selector: Handle,
    /// The style to bind to, by its id.
    pub target_style: Option<u64>,
    /// The name of the bound style property; empty when unbound.
    pub style_property_name: String,
    /// The type of the edited value.
    pub target_type_id: u64,
}

impl StyledPropertyEditor {
    /// Reacts to a message routed through the editor. Returns whether to open a property
    /// selector (a click of the bind button while there is a style to bind to), and the
    /// message to pass on: a message that comes from the wrapped editor is passed on as coming
    /// from this editor.
    pub fn handle_routed_message(&self, message: &UiMessage) -> (r: (bool, Option<UiMessage>))
        ensures
            r.0 == (self.target_style is Some && message.data == MessageData::Button(ButtonMessage::Click) && message.destination == self.bind),
            message.spec_is_from(self.inner_editor) ==> (r.1 matches Some(m) && m.same(UiMessage { destination: self.handle, ..*message })),
            !message.spec_is_from(self.inner_editor) ==> r.1 is None,
    {
        let is_click = match &message.data {
            MessageData::Button(ButtonMessage::Click) => true,
            _ => false,
        };
        let open = self.target_style.is_some() && is_click && message.destination == self.bind;
        let forward = if message.is_from(self.inner_editor) {
            let mut copy = message.clone();
            copy.destination = self.handle;
            Some(copy)
        } else {
            None
        };
        (open, forward)
    }

    /// Remembers the property selector window that was opened.
    pub fn set_selector(&mut self, selector: Handle)
        ensures
            final(self).selector == selector,
            final(self).handle == old(self).handle,
            final(self).bind == old(self).bind,
            final(self).inner_editor == old(self).inner_editor,
            final(self).target_style == old(self).target_style,
            final(self).style_property_name@ == old(self).style_property_name@,
            final(self).target_type_id == old(self).target_type_id,
    {
        self.selector = selector;
    }

    /// Reacts to a message before it is routed: a property picked in the selector window is
    /// reported, as coming from this editor, as a request to bind to that property.
    pub fn preview_message(&self, message: &UiMessage) -> (r: Option<StyledPropertyEditorMessage>)
        ensures
            r == (match message.data {
                MessageData::StyledPropertySelector(StyledPropertySelectorMessage::PropertyName(name)) =>
                    if message.spec_is_from(self.selector) { Some(StyledPropertyEditorMessage::BindProperty(name)) } else { None },
                _ => None,
            }),
    {
        match &message.data {
            MessageData::StyledPropertySelector(StyledPropertySelectorMessage::PropertyName(name)) => {
                if message.is_from(self.selector) {
                    Some(StyledPropertyEditorMessage::BindProperty(name.clone()))
                } else {
                    None
                }
            },
            _ => None,
        }
    }
}

/// Builds styled property editors.
#[derive(Debug)]
pub struct StyledPropertyEditorBuilder {
    pub inner_editor: Handle,
    pub container: Handle,
    pub style_property_name: String,
    pub target_style: Option<u64>,
    pub target_type_id: u64,
}

/// The tooltip of the bind button: the bound property, or an invitation to bind.
pub open spec fn bind_tooltip(name: Seq<char>) -> Seq<char> {
    if name.len() > 0 {
        "Bound To `"@ + name + "` Property"@
    } else {
        "Bind To Style Property"@
    }
}

impl StyledPropertyEditorBuilder {
    /// A builder with no wrapped editor, no container, no bound property, no style, and the
    /// unit type as the edited type.
    pub fn new() -> (r: Self)
        ensures
            r.inner_editor == Handle::spec_none(),
            r.container == Handle::spec_none(),
            r.style_property_name@.len() == 0,
            r.target_style is None,
            r.target_type_id == UNIT_TYPE_ID,
    {
        StyledPropertyEditorBuilder {
            inner_editor: Handle::none(),
            container: Handle::none(),
            style_property_name: String::new(),
            target_style: None,
            target_type_id: UNIT_TYPE_ID,
        }
    }

    /// Sets the wrapped editor.
    pub fn with_inner_editor(self, inner_editor: Handle) -> (r: Self)
        ensures
            r.inner_editor == inner_editor,
            r.container == self.container,
            r.style_property_name@ == self.style_property_name@,
            r.target_style == self.target_style,
            r.target_type_id == self.target_type_id,
    {
        StyledPropertyEditorBuilder { inner_editor, ..self }
    }

    /// Sets the widget shown beside the bind button.
    pub fn with_container(self, container: Handle) -> (r: Self)
        ensures
            r.container == container,
            r.inner_editor == self.inner_editor,
            r.style_property_name@ == self.style_property_name@,
            r.target_style == self.target_style,
            r.target_type_id == self.target_type_id,
    {
        StyledPropertyEditorBuilder { container, ..self }
    }

    /// Sets the name of the bound style property.
    pub fn with_style_property_name(self, style_property_name: String) -> (r: Self)
        ensures
            r.style_property_name@ == style_property_name@,
            r.inner_editor == self.inner_editor,
            r.container == self.container,
            r.target_style == self.target_style,
            r.target_type_id == self.target_type_id,
    {
        StyledPropertyEditorBuilder { style_property_name, ..self }
    }

    /// Sets the style to bind to.
    pub fn with_style_resource(self, target_style: Option<u64>) -> (r: Self)
        ensures
            r.target_style == target_style,
            r.inner_editor == self.inner_editor,
            r.container == self.container,
            r.style_property_name@ == self.style_property_name@,
            r.target_type_id == self.target_type_id,
    {
        StyledPropertyEditorBuilder { target_style, ..self }
    }

    /// Sets the type of the edited value.
    pub fn with_target_type_id(self, type_id: u64) -> (r: Self)
        ensures
            r.target_type_id == type_id,
            r.inner_editor == self.inner_editor,
            r.container == self.container,
            r.style_property_name@ == self.style_property_name@,
            r.target_style == self.target_style,
    {
        StyledPropertyEditorBuilder { target_type_id: type_id, ..self }
    }

    /// The editor `handle` with the bind button `bind`, whether it is bound (a property name
    /// is set; the bind button's icon is then highlighted), the tooltip of the bind button,
    /// and whether the editor sees messages before they are routed (it does: that is how it
    /// catches the selector's answer).
    pub fn build(self, handle: Handle, bind: Handle) -> (r: (StyledPropertyEditor, bool, String, bool))
        ensures
            r.3,
            r.0.handle == handle,
            r.0.bind == bind,
            r.0.inner_editor == self.inner_editor,
            r.0.selector == Handle::spec_none(),
            r.0.target_style == self.target_style,
            r.0.style_property_name@ == self.style_property_name@,
            r.0.target_type_id == self.target_type_id,
            r.1 == (self.style_property_name@.len() > 0),
            r.2@ == bind_tooltip(self.style_property_name@),
    {
        let is_bound = self.style_property_name.as_str().unicode_len() > 0;
        proof {
            reveal_strlit("Bound To `");
            reveal_strlit("` Property");
            reveal_strlit("Bind To Style Property");
        }
        let tooltip = if is_bound {
            let mut t = String::from_str("Bound To `");
            t.append(self.style_property_name.as_str());
            t.append("` Property");
            t
        } else {
            String::from_str("Bind To Style Property")
        };
        let editor = StyledPropertyEditor {
            handle,
            bind,
            inner_editor: self.inner_editor,
            selector: Handle::none(),
            target_style: self.target_style,
            style_property_name: self.style_property_name,
            target_type_id: self.target_type_id,
        };
        (editor, is_bound, tooltip, true)
    }
}

/// Editor of styled properties, which edits the value with the definition registered for
/// the value's type and adds a bind button.
#[derive(Copy, Clone, Debug, PartialEq, Eq, Structural)]
pub struct StyledPropertyEditorDefinition {
    /// The styled property type.
    pub value_type_id: u64,
    /// The type of the value inside.
    pub inner_type_id: u64,
}

impl StyledPropertyEditorDefinition {
    /// The definition for the styled property type `value_type_id` of values of the type
    /// `inner_type_id`.
    pub fn new(value_type_id: u64, inner_type_id: u64) -> (r: Self)
        ensures
            r.value_type_id == value_type_id,
            r.inner_type_id == inner_type_id,
    {
        StyledPropertyEditorDefinition { value_type_id, inner_type_id }
    }

    /// The instance of a styled property editor `wrapper` built around the instance of the
    /// value's editor: the wrapper takes the place of the editor, and of the container when the
    /// value's editor has one.
    pub fn wrap_instance(instance: PropertyEditorInstance, wrapper: Handle) -> (r: PropertyEditorInstance)
        ensures
            r == (match instance {
                PropertyEditorInstance::Simple { .. } => PropertyEditorInstance::Simple { editor: wrapper },
                PropertyEditorInstance::Custom { .. } => PropertyEditorInstance::Custom { container: wrapper, editor: wrapper },
            }),
    {
        match instance {
            PropertyEditorInstance::Simple { .. } => PropertyEditorInstance::Simple { editor: wrapper },
            PropertyEditorInstance::Custom { .. } => PropertyEditorInstance::Custom { container: wrapper, editor: wrapper },
        }
    }
}

} // verus!
