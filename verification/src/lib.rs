//! A modal (vi-flavored) text-editing core.
//!
//! The crate provides an event-to-action dispatch system and an editing state
//! machine: a key-sequence register with ambiguous-prefix resolution, a
//! composable action layer, a Normal/Insert/Visual/Search mode state machine,
//! a cursor and selection model over a multi-row buffer, linear undo/redo
//! history, incremental literal search, and viewport scroll tracking.
//!
//! The buffer itself is an external collaborator: an ordered-rows-of-characters
//! container with 2D indexing, used through a small trusted interface in
//! [`buffer`]. Translating a host's raw input primitives into the canonical
//! key and mouse alphabet is a thin adapter outside of the core.

pub mod actions;
pub mod buffer;
pub mod clipboard;
pub mod clipops;
pub mod edits;
pub mod handler;
pub mod history;
pub mod key;
pub mod laws;
pub mod mode;
pub mod motion;
pub mod mouse;
pub mod position;
pub mod register;
pub mod search;
pub mod selection;
pub mod state;
pub mod view;

pub use actions::{Action, BaseAction};
pub use buffer::Lines;
pub use clipboard::Clipboard;
pub use handler::{EditorEvent, EditorHandler};
pub use key::Key;
pub use mode::EditorMode;
pub use mouse::{MouseEvent, MouseEventHandler, MousePosition};
pub use position::Index2;
pub use register::{EditorInput, RegisterKey};
pub use selection::Selection;
pub use state::EditorState;
