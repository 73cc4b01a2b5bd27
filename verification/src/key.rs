//! The canonical key alphabet.
//!
//! Host input primitives are translated into this alphabet by a thin adapter
//! outside of the core; everything past that adapter speaks only [`Key`].

use vstd::prelude::*;

verus! {

/// A normalized key atom.
///
/// `Char(c)` is an unmodified printable character, `Ctrl(c)` a
/// control-modified one. `Unrecognized` stands for any host key that the
/// editor does not recognize; it is dropped by the dispatcher.
#[derive(Clone, Copy, Debug, PartialEq, Eq, Structural)]
pub enum Key {
    Char(char),
    Down,
    Up,
    Right,
    Left,
    Enter,
    Esc,
    Backspace,
    Ctrl(char),
    Unrecognized,
}

} // verus!
