//! The editor of inheritable variables: a nested inspector of the value beside a button that
//! reverts the value to the one inherited, shown only while the value is modified.

use vstd::prelude::*;
use vstd::string::StringExecFns;
use crate::message::{Handle, MessageDirection, UiMessage, MessageData, ButtonMessage, WidgetMessage};
use crate::inspector::{PropertyChanged, FieldKind, InheritableAction};
use crate::grid::GridDimension;

verus! {

/// Messages of inheritable property editors.
#[derive(Debug)]
pub enum InheritablePropertyEditorMessage {
    /// Revert the value to the inherited one.
    Revert,
    /// Whether the value differs from the inherited one.
    Modified(bool),
    /// The nested inspector changed the value.
    PropertyChanged(PropertyChanged),
}

/// What reaches an inheritable property editor.
#[derive(Debug)]
pub enum InheritablePropertyEditorInput {
    /// A message of the widget set.
    Ui(UiMessage),
    /// A message of an inheritable property editor, addressed to `destination`.
    Editor { destination: Handle, message: InheritablePropertyEditorMessage },
    /// The inspector `source` reported a change.
    InspectorChanged { source: Handle, change: PropertyChanged },
}

/// What an inheritable property editor does in reply.
#[derive(Debug)]
pub enum InheritablePropertyEditorOutput {
    /// Reports a message of the editor, coming from the editor.
    Post(InheritablePropertyEditorMessage),
    /// Sends a message of the widget set.
    Send(UiMessage),
}

/// An editor of an inheritable variable.
#[derive(Copy, Clone, Debug, PartialEq, Eq, Structural)]
pub struct InheritablePropertyEditor {
    pub handle: Handle,
    /// The button that reverts the value.
    pub revert: Handle,
    /// The nested inspector of the value.
    pub inspector: Handle,
}

impl InheritablePropertyEditor {
    /// Reacts to what reaches the editor: a click reported by the revert button asks to
    /// revert; a `Modified` message addressed to the editor shows the revert button exactly when
    /// the value is modified; a change reported by the nested inspector is reported as a change
    /// of the editor. Anything else gives nothing.
    pub fn handle_routed_message(&self, input: InheritablePropertyEditorInput) -> (r: Option<InheritablePropertyEditorOutput>)
        ensures
            match input {
                InheritablePropertyEditorInput::Ui(m) =>
                    if m.data == MessageData::Button(ButtonMessage::Click) && m.spec_is_from(self.revert) {
                        r == Some(InheritablePropertyEditorOutput::Post(InheritablePropertyEditorMessage::Revert))
                    } else {
                        r is None
                    },
                InheritablePropertyEditorInput::Editor { destination, message } => match message {
                    InheritablePropertyEditorMessage::Modified(modified) =>
                        if destination == self.handle {
                            r == Some(InheritablePropertyEditorOutput::Send(UiMessage {
                                destination: self.revert,
                                direction: MessageDirection::ToWidget,
                                handled: false,
                                data: MessageData::Widget(WidgetMessage::Visibility(modified)),
                            }))
                        } else {
                            r is None
                        },
                    _ => r is None,
                },
                InheritablePropertyEditorInput::InspectorChanged { source, change } =>
                    if source == self.inspector {
                        r == Some(InheritablePropertyEditorOutput::Post(InheritablePropertyEditorMessage::PropertyChanged(change)))
                    } else {
                        r is None
                    },
            },
    {
        match input {
            InheritablePropertyEditorInput::Ui(m) => {
                let is_click = match &m.data {
                    MessageData::Button(ButtonMessage::Click) => true,
                    _ => false,
                };
                if is_click && m.is_from(self.revert) {
                    Some(InheritablePropertyEditorOutput::Post(InheritablePropertyEditorMessage::Revert))
                } else {
                    None
                }
            },
            InheritablePropertyEditorInput::Editor { destination, message } => match message {
                InheritablePropertyEditorMessage::Modified(modified) => {
                    if destination == self.handle {
                        Some(InheritablePropertyEditorOutput::Send(
                            UiMessage::for_widget(self.revert, MessageData::Widget(WidgetMessage::Visibility(modified))),
                        ))
                    } else {
                        None
                    }
                },
                _ => None,
            },
            InheritablePropertyEditorInput::InspectorChanged { source, change } => {
                if source == self.inspector {
                    Some(InheritablePropertyEditorOutput::Post(InheritablePropertyEditorMessage::PropertyChanged(change)))
                } else {
                    None
                }
            },
        }
    }
}

/// Builds inheritable property editors.
#[derive(Copy, Clone, Debug, PartialEq, Eq, Structural)]
pub struct InheritablePropertyEditorBuilder {
    pub inspector: Handle,
    pub container: Handle,
    pub modified: bool,
}

impl InheritablePropertyEditorBuilder {
    /// A builder with no inner editor, no container, and an unmodified value.
    pub fn new() -> (r: Self)
        ensures
            r == (InheritablePropertyEditorBuilder { inspector: Handle { index: 0, generation: 0 }, container: Handle { index: 0, generation: 0 }, modified: false }),
    {
        InheritablePropertyEditorBuilder { inspector: Handle::none(), container: Handle::none(), modified: false }
    }

    /// Sets the nested editor of the value.
    pub fn with_inner_editor(self, inner_editor: Handle) -> (r: Self)
        ensures
            r == (InheritablePropertyEditorBuilder { inspector: inner_editor, ..self }),
    {
        InheritablePropertyEditorBuilder { inspector: inner_editor, ..self }
    }

    /// Sets the widget that contains the nested editor.
    pub fn with_container(self, container: Handle) -> (r: Self)
        ensures
            r == (InheritablePropertyEditorBuilder { container, ..self }),
    {
        InheritablePropertyEditorBuilder { container, ..self }
    }

    /// Sets whether the value differs from the inherited one.
    pub fn with_modified(self, modified: bool) -> (r: Self)
        ensures
            r == (InheritablePropertyEditorBuilder { modified, ..self }),
    {
        InheritablePropertyEditorBuilder { modified, ..self }
    }

    /// The editor `handle` with the revert button `revert`, and the layout of its only child,
    /// the grid `grid`: the grid holds the container of the nested editor and the revert
    /// button, in one row sized to content and two columns, the first stretched and the
    /// second, the revert button's, sized to content. The revert button, with the tooltip
    /// "Revert To Parent", starts visible exactly when the value is modified.
    pub fn build(self, handle: Handle, revert: Handle, grid: Handle) -> (r: (InheritablePropertyEditor, InheritableEditorLayout))
        ensures
            r.0 == (InheritablePropertyEditor { handle, revert, inspector: self.inspector }),
            r.1.grid == grid,
            r.1.grid_children@ == seq![self.container, revert],
            r.1.rows@ == seq![GridDimension::spec_auto()],
            r.1.columns@ == seq![GridDimension::spec_stretch(), GridDimension::spec_auto()],
            r.1.revert_column == 1,
            r.1.revert_visible == self.modified,
            r.1.revert_tooltip@ == "Revert To Parent"@,
    {
        let mut grid_children: Vec<Handle> = Vec::new();
        grid_children.push(self.container);
        grid_children.push(revert);
        let mut rows: Vec<GridDimension> = Vec::new();
        rows.push(GridDimension::auto());
        let mut columns: Vec<GridDimension> = Vec::new();
        columns.push(GridDimension::stretch());
        columns.push(GridDimension::auto());
        let layout = InheritableEditorLayout {
            grid,
            grid_children,
            rows,
            columns,
            revert_column: 1,
            revert_visible: self.modified,
            revert_tooltip: String::from_str("Revert To Parent"),
        };
        (InheritablePropertyEditor { handle, revert, inspector: self.inspector }, layout)
    }
}

/// How an inheritable property editor lays out its content.
#[derive(Debug)]
pub struct InheritableEditorLayout {
    /// The editor's only child.
    pub grid: Handle,
    /// The children of the grid: the container of the nested editor, then the revert button.
    pub grid_children: Vec<Handle>,
    pub rows: Vec<GridDimension>,
    pub columns: Vec<GridDimension>,
    /// The column of the revert button.
    pub revert_column: usize,
    /// Whether the revert button starts visible.
    pub revert_visible: bool,
    /// The tooltip of the revert button.
    pub revert_tooltip: String,
}

/// Editor of inheritable variables.
#[derive(Copy, Clone, Debug, PartialEq, Eq, Structural)]
pub struct InheritablePropertyEditorDefinition {
    pub value_type_id: u64,
}

impl InheritablePropertyEditorDefinition {
    /// The definition for the inheritable variable type `value_type_id`.
    pub fn new(value_type_id: u64) -> (r: Self)
        ensures
            r.value_type_id == value_type_id,
    {
        InheritablePropertyEditorDefinition { value_type_id }
    }

    /// Whether the editor shows the value as modified: only a variable of an object that has a
    /// parent object can differ from an inherited value.
    pub fn is_modified(has_parent_object: bool, value_modified: bool) -> (r: bool)
        ensures
            r == (has_parent_object && value_modified),
    {
        has_parent_object && value_modified
    }

    /// Translates a message of the editor into a change of the variable named `name`: a revert
    /// asks to revert the variable; a change of the nested inspector, coming from the editor,
    /// is a change of the inner value. Anything else gives no change.
    pub fn translate_message(&self, name: &str, direction: MessageDirection, message: InheritablePropertyEditorMessage) -> (r: Option<PropertyChanged>)
        ensures
            match message {
                InheritablePropertyEditorMessage::Revert =>
                    r is Some && r->0.name@ == name@ && r->0.value == FieldKind::Inheritable(InheritableAction::Revert),
                InheritablePropertyEditorMessage::PropertyChanged(p) =>
                    if direction == MessageDirection::FromWidget {
                        r is Some && r->0.name@ == name@ && r->0.value == FieldKind::Inspectable(Box::new(p))
                    } else {
                        r is None
                    },
                InheritablePropertyEditorMessage::Modified(_) => r is None,
            },
    {
        match message {
            InheritablePropertyEditorMessage::Revert => Some(PropertyChanged {
                name: name.to_string(),
                value: FieldKind::Inheritable(InheritableAction::Revert),
            }),
            InheritablePropertyEditorMessage::PropertyChanged(p) => {
                if direction == MessageDirection::FromWidget {
                    Some(PropertyChanged { name: name.to_string(), value: FieldKind::Inspectable(Box::new(p)) })
                } else {
                    None
                }
            },
            InheritablePropertyEditorMessage::Modified(_) => None,
        }
    }
}

} // verus!
