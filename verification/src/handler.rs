//! The top-level event handler: routes normalized events to direct character
//! handling, the key-sequence register, or the mouse handler.

use vstd::prelude::*;

use crate::actions::{action_view_rel, execute};
use crate::key::Key;
use crate::mode::EditorMode;
use crate::mouse::{mouse_step_rel, MouseEvent, MouseEventHandler};
use crate::register::{get_step, EditorInput};
use crate::state::EditorState;

verus! {

/// A normalized editor event.
#[derive(Clone, Copy, Debug)]
pub enum EditorEvent {
    Key(Key),
    Mouse(MouseEvent),
    Unrecognized,
}

/// The exact effect of routing one key: in insert mode a printable character
/// is inserted directly, in search mode it is appended to the pattern — both
/// bypassing the register — and every other key resolves through the
/// register, whose fired action (if any) is executed.
pub open spec fn key_dispatch_rel(
    pre_input: EditorInput,
    post_input: EditorInput,
    pre: EditorState,
    post: EditorState,
    event: Key,
) -> bool {
    match event {
        Key::Char(c) => {
            if pre.mode == EditorMode::Insert {
                &&& post_input == pre_input
                &&& crate::actions::insert_char_rel(pre, post, c)
            } else if pre.mode == EditorMode::Search {
                &&& post_input == pre_input
                &&& crate::actions::append_char_to_search_rel(pre, post, c)
            } else {
                resolved_via_register(pre_input, post_input, pre, post, event, pre.mode)
            }
        },
        _ => resolved_via_register(pre_input, post_input, pre, post, event, pre.mode),
    }
}

impl EditorInput {
    /// Routes one key; see [`key_dispatch_rel`].
    pub fn on_event(&mut self, event: Key, state: &mut EditorState)
        requires
            old(state).wf(),
        ensures
            final(state).wf(),
            final(state).view == old(state).view,
            final(self).register == old(self).register,
            key_dispatch_rel(*old(self), *final(self), *old(state), *final(state), event),
    {
        let mode = state.mode;
        match event {
            Key::Char(c) => {
                if matches!(mode, EditorMode::Insert) {
                    crate::edits::insert_char(state, c);
                } else if matches!(mode, EditorMode::Search) {
                    crate::actions::append_char_to_search(state, c);
                } else {
                    match self.get(event, mode) {
                        Option::Some(action) => execute(state, &action),
                        Option::None => {},
                    }
                }
            },
            _ => {
                match self.get(event, mode) {
                    Option::Some(action) => execute(state, &action),
                    Option::None => {},
                }
            },
        }
    }
}

/// What a key resolved through the register leaves behind: the pending
/// sequence follows [`get_step`]; when nothing fires the editor state is
/// untouched, and when an action fires the state steps by exactly that
/// action's relation ([`action_view_rel`]).
pub open spec fn resolved_via_register(
    pre_input: EditorInput,
    post_input: EditorInput,
    pre: EditorState,
    post: EditorState,
    event: Key,
    mode: EditorMode,
) -> bool {
    let (lk, act) = get_step(pre_input.register@, pre_input.lookup@, event, mode);
    &&& post_input.lookup@ == lk
    &&& match act {
        Option::Some(av) => action_view_rel(pre, post, av),
        Option::None => post == pre,
    }
}

/// Handles key and mouse events.
#[derive(Debug)]
pub struct EditorHandler {
    /// The key-sequence register this handler resolves keys through.
    pub input: EditorInput,
}

impl Default for EditorHandler {
    /// A handler over the default binding table.
    fn default() -> (r: EditorHandler)
        ensures
            r.input.lookup@.len() == 0,
    {
        EditorHandler { input: EditorInput::default() }
    }
}

impl EditorHandler {
    /// Creates a new handler over the given register.
    pub fn new(input: EditorInput) -> (r: EditorHandler)
        ensures
            r.input == input,
    {
        EditorHandler { input }
    }

    /// Routes one normalized event: a key steps the state by the key
    /// dispatcher's relation, a mouse event by the mouse handler's, and an
    /// unrecognized event is dropped.
    pub fn on_event(&mut self, event: EditorEvent, state: &mut EditorState)
        requires
            old(state).wf(),
        ensures
            final(state).wf(),
            final(self).input.register == old(self).input.register,
            match event {
                EditorEvent::Unrecognized => *final(state) == *old(state) && *final(self) == *old(
                    self,
                ),
                EditorEvent::Mouse(m) => *final(self) == *old(self) && mouse_step_rel(
                    *old(state),
                    *final(state),
                    m,
                ),
                EditorEvent::Key(k) => final(state).view == old(state).view && key_dispatch_rel(
                    old(self).input,
                    final(self).input,
                    *old(state),
                    *final(state),
                    k,
                ),
            },
    {
        match event {
            EditorEvent::Key(k) => self.input.on_event(k, state),
            EditorEvent::Mouse(m) => MouseEventHandler::on_event(m, state),
            EditorEvent::Unrecognized => {},
        }
    }
}

} // verus!
