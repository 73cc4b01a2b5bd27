//! Incremental literal search: a pattern, the ordered list of its match
//! positions, and the index of the current match.

use vstd::prelude::*;

use crate::buffer::{get_row, row_count, rows_of, Lines};
use crate::clipboard::copy_chars;
use crate::position::{pos_lt, Index2};

verus! {

/// Relies on `String`'s `FromIterator` over characters: collecting the
/// characters of a vector yields the string of exactly those characters.
#[verifier::external_body]
pub fn chars_to_string(v: &Vec<char>) -> (r: String)
    ensures
        r@ == v@,
{
    v.iter().collect()
}

/// The state of a literal search.
#[derive(Debug)]
pub struct SearchState {
    /// The pattern, editable only in search mode.
    pub pattern: Vec<char>,
    /// All match positions, in document order.
    pub matches: Vec<Index2>,
    /// The index of the current match within `matches`, if any.
    pub index: Option<usize>,
}

/// Whether the literal pattern `pat` occurs in `rows` at position `p`.
pub open spec fn is_match_at(rows: Seq<Seq<char>>, pat: Seq<char>, p: Index2) -> bool {
    &&& pat.len() > 0
    &&& p.row < rows.len()
    &&& p.col + pat.len() <= rows[p.row as int].len()
    &&& rows[p.row as int].subrange(p.col as int, p.col + pat.len()) == pat
}

/// Whether `m` lists exactly the match positions of `pat` in `rows`, in
/// strictly increasing document order.
pub open spec fn matches_ok(rows: Seq<Seq<char>>, pat: Seq<char>, m: Seq<Index2>) -> bool {
    &&& forall|i: int| 0 <= i < m.len() ==> is_match_at(rows, pat, #[trigger] m[i])
    &&& forall|p: Index2| is_match_at(rows, pat, p) ==> m.contains(p)
    &&& forall|i: int, j: int| 0 <= i < j < m.len() ==> pos_lt(#[trigger] m[i], #[trigger] m[j])
}

/// Whether the window of `row` starting at `col` equals `pat`.
fn window_eq(row: &Vec<char>, col: usize, pat: &Vec<char>) -> (r: bool)
    requires
        col + pat@.len() <= row@.len(),
    ensures
        r == (row@.subrange(col as int, col + pat@.len()) == pat@),
{
    let rl = row.len();
    let mut k: usize = 0;
    while k < pat.len()
        invariant
            k <= pat@.len(),
            col + pat@.len() <= row@.len(),
            rl == row@.len(),
            forall|j: int| 0 <= j < k ==> row@[col + j] == pat@[j],
        decreases pat@.len() - k,
    {
        if row[col + k] != pat[k] {
            proof {
                assert(row@.subrange(col as int, col + pat@.len())[k as int] != pat@[k as int]);
            }
            return false;
        }
        k += 1;
    }
    proof {
        assert(row@.subrange(col as int, col + pat@.len()) =~= pat@);
    }
    true
}

/// Computes all positions at which `pat` occurs in the buffer, in document
/// order. An empty pattern has no matches.
pub fn find_matches(l: &Lines, pat: &Vec<char>) -> (out: Vec<Index2>)
    ensures
        matches_ok(rows_of(*l), pat@, out@),
{
    let ghost rows = rows_of(*l);
    let mut out: Vec<Index2> = Vec::new();
    if pat.len() == 0 {
        return out;
    }
    let n = row_count(l);
    let mut r: usize = 0;
    while r < n
        invariant
            rows == rows_of(*l),
            n == rows.len(),
            r <= n,
            pat@.len() > 0,
            forall|i: int| 0 <= i < out@.len() ==> is_match_at(rows, pat@, #[trigger] out@[i]),
            forall|p: Index2| is_match_at(rows, pat@, p) && p.row < r ==> out@.contains(p),
            forall|i: int, j: int|
                0 <= i < j < out@.len() ==> pos_lt(#[trigger] out@[i], #[trigger] out@[j]),
            forall|i: int| 0 <= i < out@.len() ==> (#[trigger] out@[i]).row < r,
        decreases n - r,
    {
        let row = get_row(l, r);
        let len = row.len();
        if pat.len() <= len {
            let bound = len - pat.len();
            let mut c: usize = 0;
            while c <= bound
                invariant
                    rows == rows_of(*l),
                    n == rows.len(),
                    r < n,
                    pat@.len() > 0,
                    row@ == rows[r as int],
                    len == row@.len(),
                    bound == len - pat@.len(),
                    pat@.len() <= len,
                    c <= bound + 1,
                    forall|i: int|
                        0 <= i < out@.len() ==> is_match_at(rows, pat@, #[trigger] out@[i]),
                    forall|p: Index2|
                        is_match_at(rows, pat@, p) && (p.row < r || (p.row == r && p.col < c))
                            ==> out@.contains(p),
                    forall|i: int, j: int|
                        0 <= i < j < out@.len() ==> pos_lt(#[trigger] out@[i], #[trigger] out@[j]),
                    forall|i: int|
                        0 <= i < out@.len() ==> (#[trigger] out@[i]).row < r || ((
                        #[trigger] out@[i]).row == r && out@[i].col < c),
                decreases bound + 1 - c,
            {
                if window_eq(&row, c, pat) {
                    let ghost old_out = out@;
                    out.push(Index2::new(r, c));
                    proof {
                        let x = Index2 { row: r, col: c };
                        assert(out@[old_out.len() as int] == x);
                        assert(out@.contains(x));
                        assert forall|p: Index2| old_out.contains(p) implies #[trigger] out@.contains(
                            p,
                        ) by {
                            let i = choose|i: int| 0 <= i < old_out.len() && old_out[i] == p;
                            assert(out@[i] == p);
                        };
                    }
                }
                c += 1;
            }
            proof {
                assert(forall|p: Index2|
                    is_match_at(rows, pat@, p) && p.row == r ==> p.col < c);
            }
        } else {
            proof {
                assert(forall|p: Index2| is_match_at(rows, pat@, p) ==> p.row != r);
            }
        }
        r += 1;
    }
    out
}

/// The index of the match after `cur`, cycling past the end back to the
/// first match. `len` is the number of matches and must be positive.
pub open spec fn next_index_spec(len: int, cur: Option<usize>) -> int {
    match cur {
        Option::Some(i) => if i + 1 >= len {
            0
        } else {
            i + 1
        },
        Option::None => 0,
    }
}

/// The index of the match before `cur`, cycling past the start back to the
/// last match. `len` is the number of matches and must be positive.
pub open spec fn prev_index_spec(len: int, cur: Option<usize>) -> int {
    match cur {
        Option::Some(i) => if i == 0 || i >= len {
            len - 1
        } else {
            i - 1
        },
        Option::None => len - 1,
    }
}

impl SearchState {
    /// Creates an empty search state.
    pub fn new() -> (r: SearchState)
        ensures
            r.pattern@ == Seq::<char>::empty(),
            r.matches@ == Seq::<Index2>::empty(),
            r.index is None,
    {
        let pattern: Vec<char> = Vec::new();
        let matches: Vec<Index2> = Vec::new();
        proof {
            assert(pattern@ =~= Seq::<char>::empty());
            assert(matches@ =~= Seq::<Index2>::empty());
        }
        SearchState { pattern, matches, index: Option::None }
    }

    /// Discards the pattern, the matches, and the current match index.
    pub fn clear(&mut self)
        ensures
            final(self).pattern@ == Seq::<char>::empty(),
            final(self).matches@ == Seq::<Index2>::empty(),
            final(self).index is None,
    {
        *self = SearchState::new();
    }

    /// Appends a character to the pattern.
    pub fn push_char(&mut self, c: char)
        ensures
            final(self).pattern@ == old(self).pattern@.push(c),
            final(self).matches@ == old(self).matches@,
            final(self).index == old(self).index,
    {
        self.pattern.push(c);
    }

    /// Removes the last character of the pattern, if any.
    pub fn pop_char(&mut self)
        ensures
            final(self).pattern@ == if old(self).pattern@.len() == 0 {
                old(self).pattern@
            } else {
                old(self).pattern@.drop_last()
            },
            final(self).matches@ == old(self).matches@,
            final(self).index == old(self).index,
    {
        if self.pattern.len() > 0 {
            let _ = self.pattern.pop();
        }
    }

    /// Returns a copy of the pattern.
    pub fn pattern_chars(&self) -> (r: Vec<char>)
        ensures
            r@ == self.pattern@,
    {
        copy_chars(&self.pattern)
    }

    /// Advances cyclically to the next match and returns its position, or
    /// returns `None` when there are no matches.
    pub fn next_match(&mut self) -> (r: Option<Index2>)
        ensures
            old(self).matches@.len() == 0 ==> r is None && *final(self) == *old(self),
            old(self).matches@.len() > 0 ==> {
                let ni = next_index_spec(old(self).matches@.len() as int, old(self).index);
                &&& final(self).index == Option::Some(ni as usize)
                &&& r == Option::Some(old(self).matches@[ni])
            },
            final(self).pattern@ == old(self).pattern@,
            final(self).matches@ == old(self).matches@,
    {
        let len = self.matches.len();
        if len == 0 {
            return Option::None;
        }
        let ni: usize = match self.index {
            Option::Some(i) => if i >= len - 1 {
                0
            } else {
                i + 1
            },
            Option::None => 0,
        };
        self.index = Option::Some(ni);
        Option::Some(self.matches[ni])
    }

    /// Moves cyclically to the previous match and returns its position, or
    /// returns `None` when there are no matches.
    pub fn prev_match(&mut self) -> (r: Option<Index2>)
        ensures
            old(self).matches@.len() == 0 ==> r is None && *final(self) == *old(self),
            old(self).matches@.len() > 0 ==> {
                let pi = prev_index_spec(old(self).matches@.len() as int, old(self).index);
                &&& final(self).index == Option::Some(pi as usize)
                &&& r == Option::Some(old(self).matches@[pi])
            },
            final(self).pattern@ == old(self).pattern@,
            final(self).matches@ == old(self).matches@,
    {
        let len = self.matches.len();
        if len == 0 {
            return Option::None;
        }
        let pi: usize = match self.index {
            Option::Some(i) => if i == 0 || i >= len {
                len - 1
            } else {
                i - 1
            },
            Option::None => len - 1,
        };
        self.index = Option::Some(pi);
        Option::Some(self.matches[pi])
    }
}

/// Search wrap: with matches `[p0 ... pn]`, a forward step from `pn` lands on
/// `p0`, and a backward step from `p0` lands on `pn`.
pub proof fn lemma_search_wraps(len: usize)
    requires
        len >= 1,
    ensures
        next_index_spec(len as int, Option::Some((len - 1) as usize)) == 0,
        prev_index_spec(len as int, Option::Some(0)) == len - 1,
{
}

} // verus!
