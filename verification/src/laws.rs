//! Laws of the editing core, stated and proved over the models that the
//! executable functions' contracts are written in.

use vstd::prelude::*;

use crate::actions::ActionView;
use crate::buffer::{last_row_spec, max_col_spec, rows_of};
use crate::history::{
    entry_restores_exactly, mutate_rel, undo_rel, HistEntry, HistModel,
};
use crate::key::Key;
use crate::mode::EditorMode;
use crate::register::{count_matching, exact_action, get_step, is_candidate, Binding};
use crate::state::EditorState;

verus! {

/// Cursor containment: in a well-formed state the cursor row lies between
/// zero and the last row, and the cursor column between zero and the mode's
/// largest column for that row. Every action's contract ends in a well-formed
/// state, so this holds after every action.
pub proof fn lemma_cursor_in_bounds(s: EditorState)
    requires
        s.wf(),
    ensures
        0 <= s.cursor.row <= last_row_spec(rows_of(s.lines)),
        0 <= s.cursor.col <= max_col_spec(rows_of(s.lines), s.cursor.row as int, s.mode),
{
}

/// A new mutating action clears the redo stack and pushes exactly one
/// snapshot of the state it found.
pub proof fn lemma_mutation_clears_redo(pre: HistModel, post: HistModel)
    requires
        mutate_rel(pre, post),
    ensures
        post.redo.len() == 0,
        post.undo == pre.undo.push(HistEntry { lines: pre.lines, cursor: pre.cursor }),
{
}

/// Undo round trip: `n` mutating actions followed by `n` undo steps (all
/// under one mode, with cursors the mode's clamp leaves alone) restore the
/// buffer, the cursor, and the undo stack to their initial values.
///
/// `ss` is the trace of history models: `ss[0]` the initial state, `ss[i+1]`
/// the state after the `i`-th step.
pub proof fn lemma_undo_round_trip(ss: Seq<HistModel>, n: int, mode: EditorMode)
    requires
        n >= 0,
        ss.len() == 2 * n + 1,
        forall|i: int| 0 <= i < n ==> mutate_rel(#[trigger] ss[i], ss[i + 1]),
        forall|i: int| n <= i < 2 * n ==> undo_rel(#[trigger] ss[i], ss[i + 1], mode),
        forall|i: int|
            0 <= i < n ==> entry_restores_exactly(
                HistEntry { lines: (#[trigger] ss[i]).lines, cursor: ss[i].cursor },
                mode,
            ),
    ensures
        ss[2 * n].lines == ss[0].lines,
        ss[2 * n].cursor == ss[0].cursor,
        ss[2 * n].undo == ss[0].undo,
    decreases n,
{
    if n > 0 {
        let inner = ss.subrange(1, 2 * n);
        assert(inner.len() == 2 * (n - 1) + 1);
        assert(forall|i: int| 0 <= i < inner.len() ==> #[trigger] inner[i] == ss[i + 1]);
        assert forall|i: int| 0 <= i < n - 1 implies mutate_rel(#[trigger] inner[i], inner[i + 1]) by {
            assert(mutate_rel(ss[i + 1], ss[i + 2]));
        };
        assert forall|i: int| n - 1 <= i < 2 * (n - 1) implies undo_rel(
            #[trigger] inner[i],
            inner[i + 1],
            mode,
        ) by {
            assert(undo_rel(ss[i + 1], ss[i + 2], mode));
        };
        assert forall|i: int| 0 <= i < n - 1 implies entry_restores_exactly(
            HistEntry { lines: (#[trigger] inner[i]).lines, cursor: inner[i].cursor },
            mode,
        ) by {
            assert(entry_restores_exactly(
                HistEntry { lines: ss[i + 1].lines, cursor: ss[i + 1].cursor },
                mode,
            ));
        };
        lemma_undo_round_trip(inner, n - 1, mode);
        assert(inner[2 * (n - 1)] == ss[2 * n - 1]);
        assert(inner[0] == ss[1]);
        // the first mutation pushed a snapshot of ss[0]; the last undo pops it
        assert(mutate_rel(ss[0], ss[1]));
        assert(ss[2 * n - 1].undo == ss[1].undo);
        assert(ss[1].undo == ss[0].undo.push(HistEntry { lines: ss[0].lines, cursor: ss[0].cursor }));
        assert(undo_rel(ss[2 * n - 1], ss[2 * n], mode));
        assert(entry_restores_exactly(
            HistEntry { lines: ss[0].lines, cursor: ss[0].cursor },
            mode,
        ));
    }
}

/// Redo round trip: with at least `n` snapshots on the undo stack, `n` undo
/// steps followed by `n` redo steps (all under one mode, every cursor
/// involved left alone by the mode's clamp) restore the buffer, the cursor,
/// and both stacks to their initial values.
pub proof fn lemma_redo_round_trip(ss: Seq<HistModel>, n: int, mode: EditorMode)
    requires
        n >= 0,
        ss.len() == 2 * n + 1,
        ss[0].undo.len() >= n,
        forall|i: int| 0 <= i < n ==> undo_rel(#[trigger] ss[i], ss[i + 1], mode),
        forall|i: int| n <= i < 2 * n ==> crate::history::redo_rel(#[trigger] ss[i], ss[i + 1], mode),
        forall|i: int|
            0 <= i < n ==> entry_restores_exactly(
                HistEntry { lines: (#[trigger] ss[i]).lines, cursor: ss[i].cursor },
                mode,
            ),
        forall|j: int|
            ss[0].undo.len() - n <= j < ss[0].undo.len() ==> entry_restores_exactly(
                #[trigger] ss[0].undo[j],
                mode,
            ),
    ensures
        ss[2 * n].lines == ss[0].lines,
        ss[2 * n].cursor == ss[0].cursor,
        ss[2 * n].undo == ss[0].undo,
        ss[2 * n].redo == ss[0].redo,
    decreases n,
{
    if n > 0 {
        let inner = ss.subrange(1, 2 * n);
        assert(inner.len() == 2 * (n - 1) + 1);
        assert(forall|i: int| 0 <= i < inner.len() ==> #[trigger] inner[i] == ss[i + 1]);
        assert(undo_rel(ss[0], ss[1], mode));
        assert(ss[1].undo == ss[0].undo.drop_last());
        assert forall|i: int| 0 <= i < n - 1 implies undo_rel(
            #[trigger] inner[i],
            inner[i + 1],
            mode,
        ) by {
            assert(undo_rel(ss[i + 1], ss[i + 2], mode));
        };
        assert forall|i: int| n - 1 <= i < 2 * (n - 1) implies crate::history::redo_rel(
            #[trigger] inner[i],
            inner[i + 1],
            mode,
        ) by {
            assert(crate::history::redo_rel(ss[i + 1], ss[i + 2], mode));
        };
        assert forall|i: int| 0 <= i < n - 1 implies entry_restores_exactly(
            HistEntry { lines: (#[trigger] inner[i]).lines, cursor: inner[i].cursor },
            mode,
        ) by {
            assert(entry_restores_exactly(
                HistEntry { lines: ss[i + 1].lines, cursor: ss[i + 1].cursor },
                mode,
            ));
        };
        assert forall|j: int|
            inner[0].undo.len() - (n - 1) <= j < inner[0].undo.len() implies entry_restores_exactly(
            #[trigger] inner[0].undo[j],
            mode,
        ) by {
            assert(inner[0].undo[j] == ss[0].undo[j]);
            assert(entry_restores_exactly(ss[0].undo[j], mode));
        };
        lemma_redo_round_trip(inner, n - 1, mode);
        assert(inner[2 * (n - 1)] == ss[2 * n - 1]);
        assert(inner[0] == ss[1]);
        // the first undo pushed the pre-undo state onto the redo stack; the
        // last redo pops it
        let e = ss[0].undo.last();
        assert(ss[1].redo == ss[0].redo.push(
            HistEntry { lines: ss[0].lines, cursor: ss[0].cursor },
        ));
        assert(ss[2 * n - 1].redo == ss[1].redo);
        assert(crate::history::redo_rel(ss[2 * n - 1], ss[2 * n], mode));
        assert(entry_restores_exactly(HistEntry { lines: ss[0].lines, cursor: ss[0].cursor }, mode));
        assert(ss[2 * n].lines == ss[0].lines);
        assert(ss[2 * n].cursor == ss[0].cursor);
        assert(ss[2 * n].redo == ss[0].redo);
        // the final undo stack regains exactly the snapshot the first undo
        // popped
        assert(entry_restores_exactly(e, mode));
        assert(ss[2 * n - 1].lines == ss[1].lines && ss[2 * n - 1].cursor == ss[1].cursor
            && ss[2 * n - 1].undo == ss[1].undo);
        assert(ss[2 * n].undo == ss[1].undo.push(
            HistEntry { lines: ss[1].lines, cursor: ss[1].cursor },
        ));
        assert(ss[1].lines == e.lines);
        assert(ss[1].cursor == crate::history::restored_cursor(e, mode));
        assert(ss[2 * n].undo =~= ss[0].undo);
    }
}

/// Feeding a key whose pending sequence matches no binding's prefix resets
/// the pending sequence without firing anything.
pub proof fn lemma_no_prefix_resets(reg: Seq<Binding>, lookup: Seq<Key>, k: Key, mode: EditorMode)
    requires
        count_matching(reg, mode, lookup.push(k)) == 0,
    ensures
        get_step(reg, lookup, k, mode) == (Seq::<Key>::empty(), Option::<ActionView>::None),
{
}

/// A candidate at some index makes the candidate count positive.
proof fn lemma_count_at_least_one(reg: Seq<Binding>, mode: EditorMode, pending: Seq<Key>, i: int)
    requires
        0 <= i < reg.len(),
        is_candidate(reg[i], mode, pending),
    ensures
        count_matching(reg, mode, pending) >= 1,
    decreases reg.len(),
{
    if i == reg.len() - 1 {
    } else {
        lemma_count_at_least_one(reg.drop_last(), mode, pending, i);
    }
}

/// Two candidates at distinct indices make the candidate count at least two.
proof fn lemma_count_at_least_two(
    reg: Seq<Binding>,
    mode: EditorMode,
    pending: Seq<Key>,
    i: int,
    j: int,
)
    requires
        0 <= i < j < reg.len(),
        is_candidate(reg[i], mode, pending),
        is_candidate(reg[j], mode, pending),
    ensures
        count_matching(reg, mode, pending) >= 2,
    decreases reg.len(),
{
    if j == reg.len() - 1 {
        lemma_count_at_least_one(reg.drop_last(), mode, pending, i);
    } else {
        lemma_count_at_least_two(reg.drop_last(), mode, pending, i, j);
    }
}

/// An exact match yields some binding index whose key equals the pending
/// sequence.
proof fn lemma_exact_some_index(reg: Seq<Binding>, mode: EditorMode, pending: Seq<Key>) -> (j: int)
    requires
        exact_action(reg, mode, pending) is Some,
    ensures
        0 <= j < reg.len(),
        reg[j].key.mode == mode,
        reg[j].key.keys@ == pending,
        exact_action(reg, mode, pending) == Option::Some(reg[j].action@),
    decreases reg.len(),
{
    if reg.last().key.mode == mode && reg.last().key.keys@ == pending {
        reg.len() - 1
    } else {
        let j = lemma_exact_some_index(reg.drop_last(), mode, pending);
        j
    }
}

/// With exactly one candidate, and an exact binding at index `bi`, the exact
/// action is that binding's action.
proof fn lemma_exact_unique(reg: Seq<Binding>, mode: EditorMode, pending: Seq<Key>, bi: int)
    requires
        0 <= bi < reg.len(),
        reg[bi].key.mode == mode,
        reg[bi].key.keys@ == pending,
        count_matching(reg, mode, pending) == 1,
    ensures
        exact_action(reg, mode, pending) == Option::Some(reg[bi].action@),
    decreases reg.len(),
{
    assert(is_candidate(reg[bi], mode, pending)) by {
        assert(reg[bi].key.keys@.subrange(0, pending.len() as int) =~= pending);
    }
    if bi == reg.len() - 1 {
    } else {
        if reg.last().key.mode == mode && reg.last().key.keys@ == pending {
            assert(is_candidate(reg.last(), mode, pending)) by {
                assert(reg.last().key.keys@.subrange(0, pending.len() as int) =~= pending);
            }
            lemma_count_at_least_two(reg, mode, pending, bi, reg.len() - 1);
            assert(false);
        } else {
            assert(count_matching(reg.drop_last(), mode, pending) == 1 || is_candidate(
                reg.last(),
                mode,
                pending,
            ));
            if is_candidate(reg.last(), mode, pending) {
                lemma_count_at_least_two(reg, mode, pending, bi, reg.len() - 1);
                assert(false);
            }
            lemma_exact_unique(reg.drop_last(), mode, pending, bi);
        }
    }
}

/// The fired actions of feeding `keys` one at a time into the register,
/// starting from the pending sequence `lookup`, together with the final
/// pending sequence.
pub open spec fn run_keys(
    reg: Seq<Binding>,
    lookup: Seq<Key>,
    keys: Seq<Key>,
    mode: EditorMode,
) -> (Seq<Key>, Seq<Option<ActionView>>)
    decreases keys.len(),
{
    if keys.len() == 0 {
        (lookup, Seq::empty())
    } else {
        let (lk, act) = get_step(reg, lookup, keys[0], mode);
        let (fl, rest) = run_keys(reg, lk, keys.drop_first(), mode);
        (fl, seq![act] + rest)
    }
}

/// Inner induction for [`lemma_sequence_fires_once`]: feeding the rest of a
/// registered sequence whose prefix is already pending.
proof fn lemma_feed(reg: Seq<Binding>, ks: Seq<Key>, mode: EditorMode, bi: int, i: int)
    requires
        0 <= bi < reg.len(),
        reg[bi].key.mode == mode,
        reg[bi].key.keys@ == ks,
        count_matching(reg, mode, ks) == 1,
        0 <= i < ks.len(),
    ensures
        ({
            let (fl, fired) = run_keys(reg, ks.take(i), ks.skip(i), mode);
            &&& fl.len() == 0
            &&& fired.len() == ks.len() - i
            &&& forall|j: int| 0 <= j < fired.len() - 1 ==> fired[j] is None
            &&& fired.last() == Option::Some(reg[bi].action@)
        }),
    decreases ks.len() - i,
{
    let pending = ks.take(i).push(ks[i]);
    assert(pending =~= ks.take(i + 1));
    assert(is_candidate(reg[bi], mode, pending)) by {
        assert(ks.take(i + 1).len() <= ks.len());
        assert(reg[bi].key.keys@.subrange(0, ks.take(i + 1).len() as int) =~= ks.take(i + 1));
    }
    lemma_count_at_least_one(reg, mode, pending, bi);
    let n = count_matching(reg, mode, pending);
    assert(ks.skip(i)[0] == ks[i]);
    if i == ks.len() - 1 {
        assert(pending =~= ks);
        lemma_exact_unique(reg, mode, ks, bi);
        assert(get_step(reg, ks.take(i), ks[i], mode) == (
            Seq::<Key>::empty(),
            Option::Some(reg[bi].action@),
        ));
        assert(ks.skip(i).len() == 1);
        let tail = ks.skip(i).drop_first();
        assert(tail.len() == 0);
        assert(run_keys(reg, Seq::<Key>::empty(), tail, mode) == (
            Seq::<Key>::empty(),
            Seq::<Option<ActionView>>::empty(),
        ));
        let (fl, fired) = run_keys(reg, ks.take(i), ks.skip(i), mode);
        assert(fired =~= seq![Option::Some(reg[bi].action@)]);
        assert(fl.len() == 0);
    } else {
        // not the last key: nothing may fire
        if n == 1 && exact_action(reg, mode, pending) is Some {
            let j = lemma_exact_some_index(reg, mode, pending);
            assert(is_candidate(reg[j], mode, pending)) by {
                assert(reg[j].key.keys@.subrange(0, pending.len() as int) =~= pending);
            }
            assert(reg[j].key.keys@.len() == i + 1 < ks.len());
            assert(j != bi);
            if j < bi {
                lemma_count_at_least_two(reg, mode, pending, j, bi);
            } else {
                lemma_count_at_least_two(reg, mode, pending, bi, j);
            }
            assert(false);
        }
        assert(get_step(reg, ks.take(i), ks[i], mode) == (
            ks.take(i + 1),
            Option::<ActionView>::None,
        ));
        lemma_feed(reg, ks, mode, bi, i + 1);
        assert(ks.skip(i).drop_first() =~= ks.skip(i + 1));
        let (fl, fired) = run_keys(reg, ks.take(i), ks.skip(i), mode);
        let (fl2, rest) = run_keys(reg, ks.take(i + 1), ks.skip(i + 1), mode);
        assert(fired =~= seq![Option::<ActionView>::None] + rest);
    }
}

/// Pressing the keys of a registered sequence one at a time — starting from
/// an empty pending sequence, with no other binding extending the sequence —
/// fires its action exactly once, after the final key, and resets the pending
/// sequence. (With a second binding that extends the sequence the register
/// keeps waiting instead, by design.)
pub proof fn lemma_sequence_fires_once(reg: Seq<Binding>, ks: Seq<Key>, mode: EditorMode, bi: int)
    requires
        0 <= bi < reg.len(),
        reg[bi].key.mode == mode,
        reg[bi].key.keys@ == ks,
        ks.len() >= 1,
        count_matching(reg, mode, ks) == 1,
    ensures
        ({
            let (fl, fired) = run_keys(reg, Seq::empty(), ks, mode);
            &&& fl.len() == 0
            &&& fired.len() == ks.len()
            &&& forall|j: int| 0 <= j < fired.len() - 1 ==> fired[j] is None
            &&& fired.last() == Option::Some(reg[bi].action@)
        }),
{
    assert(ks.take(0) =~= Seq::<Key>::empty());
    assert(ks.skip(0) =~= ks);
    lemma_feed(reg, ks, mode, bi, 0);
}

} // verus!
