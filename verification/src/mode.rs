//! The editor's mode: governs how incoming keys are interpreted.

use vstd::prelude::*;

verus! {

/// The mode of the editor. Exactly one mode is active at a time.
///
/// In `Normal` and `Visual` mode every key resolves through the register; in
/// `Insert` mode printable characters are inserted directly into the buffer;
/// in `Search` mode printable characters are appended to the search pattern.
#[derive(Clone, Copy, Debug, PartialEq, Eq, Structural)]
pub enum EditorMode {
    Normal,
    Insert,
    Visual,
    Search,
}

} // verus!
