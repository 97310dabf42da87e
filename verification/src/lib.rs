//! Verified core logic of a retained-mode user interface library: text positions and
//! line wrapping, formatting runs, key bindings, list selection, input dialogs, pointer and
//! focus state, grid bookkeeping, and the property inspector: its change descriptions, the
//! container of property editor definitions, and the editors of arrays, collections,
//! enumerations, hash maps, inheritable variables, styled properties and texture slices.
//!
//! Widgets are named by handles; what a widget does in reply to a message is computed as the
//! messages it sends back, which the caller delivers. Messages bubble from the widget they are
//! addressed to up through its ancestors to the root of the widget tree; events of the
//! operating system become messages to the picked or focused widget.

pub mod text;
pub mod wrap;
pub mod run;
pub mod message;
pub mod key;
pub mod list_view;
pub mod input;
pub mod inspector;
pub mod ui;
pub mod grid;
pub mod editors;
pub mod array;
pub mod collection;
pub mod inherit;
pub mod style;
pub mod enumeration;
pub mod hashmap;
pub mod texture_slice;
pub mod tree;
pub mod events;
