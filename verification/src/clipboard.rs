//! An in-process clipboard for yank and paste operations.

use vstd::prelude::*;

verus! {

/// Copies the characters of a vector into a fresh vector.
pub fn copy_chars(v: &Vec<char>) -> (r: Vec<char>)
    ensures
        r@ == v@,
{
    let mut out: Vec<char> = Vec::new();
    let mut i: usize = 0;
    while i < v.len()
        invariant
            i <= v.len(),
            out@ == v@.subrange(0, i as int),
        decreases v.len() - i,
    {
        out.push(v[i]);
        i += 1;
    }
    proof {
        assert(out@ =~= v@);
    }
    out
}

/// The clipboard: holds the most recently copied text as a flat sequence of
/// characters in which `'\n'` separates rows.
#[derive(Debug)]
pub struct Clipboard {
    pub data: Vec<char>,
}

impl Clipboard {
    /// Creates an empty clipboard.
    pub fn new() -> (r: Clipboard)
        ensures
            r.data@ == Seq::<char>::empty(),
    {
        let data: Vec<char> = Vec::new();
        proof {
            assert(data@ =~= Seq::<char>::empty());
        }
        Clipboard { data }
    }

    /// Replaces the clipboard contents with `text`.
    pub fn write(&mut self, text: Vec<char>)
        ensures
            final(self).data@ == text@,
    {
        self.data = text;
    }

    /// Reads the clipboard contents.
    pub fn read(&self) -> (r: Vec<char>)
        ensures
            r@ == self.data@,
    {
        copy_chars(&self.data)
    }
}

} // verus!
