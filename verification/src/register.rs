//! The key-sequence register: an incremental matcher from (mode, key
//! sequence) to an action, with ambiguous-prefix resolution.

use vstd::prelude::*;

use crate::actions::{Action, ActionView, BaseAction};
use crate::key::Key;
use crate::mode::EditorMode;

verus! {

/// A (mode, key sequence) lookup key.
#[derive(Clone, Debug)]
pub struct RegisterKey {
    pub keys: Vec<Key>,
    pub mode: EditorMode,
}

impl RegisterKey {
    /// Creates a register key from a key sequence and a mode.
    pub fn new(key: Vec<Key>, mode: EditorMode) -> (r: RegisterKey)
        ensures
            r.keys@ == key@,
            r.mode == mode,
    {
        RegisterKey { keys: key, mode }
    }

    /// A register key for normal mode.
    pub fn n(key: Vec<Key>) -> (r: RegisterKey)
        ensures
            r.keys@ == key@,
            r.mode == EditorMode::Normal,
    {
        RegisterKey::new(key, EditorMode::Normal)
    }

    /// A register key for visual mode.
    pub fn v(key: Vec<Key>) -> (r: RegisterKey)
        ensures
            r.keys@ == key@,
            r.mode == EditorMode::Visual,
    {
        RegisterKey::new(key, EditorMode::Visual)
    }

    /// A register key for insert mode.
    pub fn i(key: Vec<Key>) -> (r: RegisterKey)
        ensures
            r.keys@ == key@,
            r.mode == EditorMode::Insert,
    {
        RegisterKey::new(key, EditorMode::Insert)
    }

    /// A register key for search mode.
    pub fn s(key: Vec<Key>) -> (r: RegisterKey)
        ensures
            r.keys@ == key@,
            r.mode == EditorMode::Search,
    {
        RegisterKey::new(key, EditorMode::Search)
    }
}

/// One binding: a register key and the action it fires.
#[derive(Debug)]
pub struct Binding {
    pub key: RegisterKey,
    pub action: Action,
}

/// Whether `p` is a prefix of `k`.
pub open spec fn is_prefix_of(p: Seq<Key>, k: Seq<Key>) -> bool {
    p.len() <= k.len() && k.subrange(0, p.len() as int) == p
}

/// Whether a binding is live for `mode` and the pending sequence `pending`:
/// its mode matches and its sequence starts with `pending`.
pub open spec fn is_candidate(b: Binding, mode: EditorMode, pending: Seq<Key>) -> bool {
    b.key.mode == mode && is_prefix_of(pending, b.key.keys@)
}

/// A pending sequence of one key is a prefix of a binding's sequence exactly
/// when that sequence starts with the key.
pub broadcast proof fn lemma_candidate_one(b: Binding, mode: EditorMode, p: Seq<Key>)
    requires
        p.len() == 1,
    ensures
        #[trigger] is_candidate(b, mode, p) <==> (b.key.mode == mode && b.key.keys@.len() >= 1
            && b.key.keys@[0] == p[0]),
{
    if b.key.keys@.len() >= 1 {
        if b.key.keys@[0] == p[0] {
            assert(b.key.keys@.subrange(0, 1) =~= p);
        } else {
            assert(b.key.keys@.subrange(0, 1)[0] == b.key.keys@[0]);
        }
    }
}

/// A pending sequence of two keys is a prefix of a binding's sequence exactly
/// when that sequence starts with both keys.
pub broadcast proof fn lemma_candidate_two(b: Binding, mode: EditorMode, p: Seq<Key>)
    requires
        p.len() == 2,
    ensures
        #[trigger] is_candidate(b, mode, p) <==> (b.key.mode == mode && b.key.keys@.len() >= 2
            && b.key.keys@[0] == p[0] && b.key.keys@[1] == p[1]),
{
    if b.key.keys@.len() >= 2 {
        if b.key.keys@[0] == p[0] && b.key.keys@[1] == p[1] {
            assert(b.key.keys@.subrange(0, 2) =~= p);
        } else {
            assert(b.key.keys@.subrange(0, 2)[0] == b.key.keys@[0]);
            assert(b.key.keys@.subrange(0, 2)[1] == b.key.keys@[1]);
        }
    }
}

/// How many bindings are live for `mode` and `pending`.
pub open spec fn count_matching(reg: Seq<Binding>, mode: EditorMode, pending: Seq<Key>) -> nat
    decreases reg.len(),
{
    if reg.len() == 0 {
        0
    } else {
        count_matching(reg.drop_last(), mode, pending) + if is_candidate(
            reg.last(),
            mode,
            pending,
        ) {
            1nat
        } else {
            0nat
        }
    }
}

/// Whether two register keys are the same lookup key.
pub open spec fn key_eq(a: RegisterKey, k: RegisterKey) -> bool {
    a.mode == k.mode && a.keys@ == k.keys@
}

/// The action of the binding whose sequence equals `pending` exactly in
/// `mode`, if one exists (the latest such binding wins).
pub open spec fn exact_action(reg: Seq<Binding>, mode: EditorMode, pending: Seq<Key>) -> Option<
    ActionView,
>
    decreases reg.len(),
{
    if reg.len() == 0 {
        Option::None
    } else if reg.last().key.mode == mode && reg.last().key.keys@ == pending {
        Option::Some(reg.last().action@)
    } else {
        exact_action(reg.drop_last(), mode, pending)
    }
}

/// One resolution step: the key is appended to the pending sequence; with no
/// live binding the pending sequence resets and nothing fires; with exactly
/// one live binding that matches the pending sequence exactly, its action
/// fires and the pending sequence resets; otherwise the pending sequence is
/// kept and nothing fires.
pub open spec fn get_step(reg: Seq<Binding>, lookup: Seq<Key>, k: Key, mode: EditorMode) -> (
    Seq<Key>,
    Option<ActionView>,
) {
    let pending = lookup.push(k);
    let n = count_matching(reg, mode, pending);
    if n == 0 {
        (Seq::empty(), Option::None)
    } else if n == 1 && exact_action(reg, mode, pending) is Some {
        (Seq::empty(), exact_action(reg, mode, pending))
    } else {
        (pending, Option::None)
    }
}

/// The index at which an insert with key `k` lands: the first binding with
/// the same lookup key, or the end of the register.
pub open spec fn insert_pos(reg: Seq<Binding>, k: RegisterKey) -> int
    decreases reg.len(),
{
    if reg.len() == 0 {
        0
    } else if key_eq(reg[0].key, k) {
        0
    } else {
        1 + insert_pos(reg.drop_first(), k)
    }
}

/// Relates a first-match scan to [`insert_pos`].
proof fn lemma_insert_pos(reg: Seq<Binding>, k: RegisterKey, i: int)
    requires
        0 <= i <= reg.len(),
        forall|j: int| 0 <= j < i ==> !key_eq(#[trigger] reg[j].key, k),
        i < reg.len() ==> key_eq(reg[i].key, k),
    ensures
        i < reg.len() ==> insert_pos(reg, k) == i,
        i == reg.len() && (forall|j: int| 0 <= j < reg.len() ==> !key_eq(
            #[trigger] reg[j].key,
            k,
        )) ==> insert_pos(reg, k) == reg.len(),
    decreases i, reg.len(),
{
    if reg.len() == 0 {
    } else if i == 0 {
    } else {
        lemma_insert_pos(reg.drop_first(), k, i - 1);
        assert(forall|j: int|
            0 <= j < reg.drop_first().len() ==> reg.drop_first()[j] == reg[j + 1]);
    }
}

/// Decides whether `p` is a prefix of `k`.
fn starts_with(k: &Vec<Key>, p: &Vec<Key>) -> (r: bool)
    ensures
        r == is_prefix_of(p@, k@),
{
    if p.len() > k.len() {
        return false;
    }
    let mut i: usize = 0;
    while i < p.len()
        invariant
            i <= p@.len(),
            p@.len() <= k@.len(),
            forall|j: int| 0 <= j < i ==> k@[j] == p@[j],
        decreases p@.len() - i,
    {
        if k[i] != p[i] {
            proof {
                assert(k@.subrange(0, p@.len() as int)[i as int] != p@[i as int]);
            }
            return false;
        }
        i += 1;
    }
    proof {
        assert(k@.subrange(0, p@.len() as int) =~= p@);
    }
    true
}

/// Decides whether two key sequences are equal.
fn keys_equal(a: &Vec<Key>, b: &Vec<Key>) -> (r: bool)
    ensures
        r == (a@ == b@),
{
    if a.len() != b.len() {
        proof {
            assert(a@.len() != b@.len());
        }
        return false;
    }
    let r = starts_with(a, b);
    proof {
        assert(a@.subrange(0, b@.len() as int) =~= a@);
    }
    r
}

/// The key-sequence register with its pending lookup sequence.
#[derive(Debug)]
pub struct EditorInput {
    /// The pending key sequence: keys received since the last reset.
    pub lookup: Vec<Key>,
    /// The bindings, each key held at most once.
    pub register: Vec<Binding>,
}

/// Whether a binding has the given lookup key and action content.
pub open spec fn binding_is(
    b: Binding,
    mode: EditorMode,
    keys: Seq<Key>,
    av: ActionView,
) -> bool {
    b.key.mode == mode && b.key.keys@ == keys && b.action@ == av
}

/// Appends one binding.
fn push_binding(b: &mut Vec<Binding>, k: RegisterKey, a: Action)
    ensures
        final(b)@ == old(b)@.push(Binding { key: k, action: a }),
{
    b.push(Binding { key: k, action: a });
}

impl Default for EditorInput {
    /// The default vi-flavored binding table: every entry is pinned below,
    /// and the resolution facts of the one multi-key normal-mode prefix are
    /// stated (a first 'd' defers, "dd" fires, 'x' fires at once). The table
    /// is configuration: an embedder may replace it wholesale through
    /// [`EditorInput::new`].
    #[verifier::rlimit(100)]
    fn default() -> (r: EditorInput)
        ensures
            r.lookup@.len() == 0,
            r.register@.len() == 57,
            count_matching(r.register@, EditorMode::Normal, seq![Key::Char('x')]) == 1,
            exact_action(r.register@, EditorMode::Normal, seq![Key::Char('x')]) == Option::Some(
                ActionView::Base(BaseAction::RemoveChar(1)),
            ),
            count_matching(r.register@, EditorMode::Normal, seq![Key::Char('d')]) == 1,
            exact_action(r.register@, EditorMode::Normal, seq![Key::Char('d')]) is None,
            count_matching(
                r.register@,
                EditorMode::Normal,
                seq![Key::Char('d'), Key::Char('d')],
            ) == 1,
            exact_action(r.register@, EditorMode::Normal, seq![Key::Char('d'), Key::Char('d')])
                == Option::Some(ActionView::Base(BaseAction::DeleteLine(1))),
            binding_is(
                r.register@[0],
                EditorMode::Insert,
                seq![Key::Esc],
                ActionView::Base(BaseAction::SwitchMode(EditorMode::Normal)),
            ),
            binding_is(
                r.register@[1],
                EditorMode::Visual,
                seq![Key::Esc],
                ActionView::Base(BaseAction::SwitchMode(EditorMode::Normal)),
            ),
            binding_is(
                r.register@[2],
                EditorMode::Normal,
                seq![Key::Char('i')],
                ActionView::Base(BaseAction::SwitchMode(EditorMode::Insert)),
            ),
            binding_is(
                r.register@[3],
                EditorMode::Normal,
                seq![Key::Char('v')],
                ActionView::Base(BaseAction::SwitchMode(EditorMode::Visual)),
            ),
            binding_is(
                r.register@[4],
                EditorMode::Normal,
                seq![Key::Char('/')],
                ActionView::Base(BaseAction::StartSearch),
            ),
            binding_is(
                r.register@[5],
                EditorMode::Search,
                seq![Key::Enter],
                ActionView::Base(BaseAction::TriggerSearch),
            ),
            binding_is(
                r.register@[6],
                EditorMode::Normal,
                seq![Key::Char('n')],
                ActionView::Base(BaseAction::FindNext),
            ),
            binding_is(
                r.register@[7],
                EditorMode::Normal,
                seq![Key::Char('N')],
                ActionView::Base(BaseAction::FindPrevious),
            ),
            binding_is(
                r.register@[8],
                EditorMode::Search,
                seq![Key::Esc],
                ActionView::Base(BaseAction::StopSearch),
            ),
            binding_is(
                r.register@[9],
                EditorMode::Search,
                seq![Key::Backspace],
                ActionView::Base(BaseAction::RemoveCharFromSearch),
            ),
            binding_is(
                r.register@[10],
                EditorMode::Normal,
                seq![Key::Char('a')],
                ActionView::Base(BaseAction::Append),
            ),
            binding_is(
                r.register@[11],
                EditorMode::Normal,
                seq![Key::Char('l')],
                ActionView::Base(BaseAction::MoveForward(1)),
            ),
            binding_is(
                r.register@[12],
                EditorMode::Visual,
                seq![Key::Char('l')],
                ActionView::Base(BaseAction::MoveForward(1)),
            ),
            binding_is(
                r.register@[13],
                EditorMode::Normal,
                seq![Key::Right],
                ActionView::Base(BaseAction::MoveForward(1)),
            ),
            binding_is(
                r.register@[14],
                EditorMode::Visual,
                seq![Key::Right],
                ActionView::Base(BaseAction::MoveForward(1)),
            ),
            binding_is(
                r.register@[15],
                EditorMode::Insert,
                seq![Key::Right],
                ActionView::Base(BaseAction::MoveForward(1)),
            ),
            binding_is(
                r.register@[16],
                EditorMode::Normal,
                seq![Key::Char('h')],
                ActionView::Base(BaseAction::MoveBackward(1)),
            ),
            binding_is(
                r.register@[17],
                EditorMode::Visual,
                seq![Key::Char('h')],
                ActionView::Base(BaseAction::MoveBackward(1)),
            ),
            binding_is(
                r.register@[18],
                EditorMode::Normal,
                seq![Key::Left],
                ActionView::Base(BaseAction::MoveBackward(1)),
            ),
            binding_is(
                r.register@[19],
                EditorMode::Visual,
                seq![Key::Left],
                ActionView::Base(BaseAction::MoveBackward(1)),
            ),
            binding_is(
                r.register@[20],
                EditorMode::Insert,
                seq![Key::Left],
                ActionView::Base(BaseAction::MoveBackward(1)),
            ),
            binding_is(
                r.register@[21],
                EditorMode::Normal,
                seq![Key::Char('k')],
                ActionView::Base(BaseAction::MoveUp(1)),
            ),
            binding_is(
                r.register@[22],
                EditorMode::Visual,
                seq![Key::Char('k')],
                ActionView::Base(BaseAction::MoveUp(1)),
            ),
            binding_is(
                r.register@[23],
                EditorMode::Normal,
                seq![Key::Up],
                ActionView::Base(BaseAction::MoveUp(1)),
            ),
            binding_is(
                r.register@[24],
                EditorMode::Visual,
                seq![Key::Up],
                ActionView::Base(BaseAction::MoveUp(1)),
            ),
            binding_is(
                r.register@[25],
                EditorMode::Insert,
                seq![Key::Up],
                ActionView::Base(BaseAction::MoveUp(1)),
            ),
            binding_is(
                r.register@[26],
                EditorMode::Normal,
                seq![Key::Char('j')],
                ActionView::Base(BaseAction::MoveDown(1)),
            ),
            binding_is(
                r.register@[27],
                EditorMode::Visual,
                seq![Key::Char('j')],
                ActionView::Base(BaseAction::MoveDown(1)),
            ),
            binding_is(
                r.register@[28],
                EditorMode::Normal,
                seq![Key::Down],
                ActionView::Base(BaseAction::MoveDown(1)),
            ),
            binding_is(
                r.register@[29],
                EditorMode::Visual,
                seq![Key::Down],
                ActionView::Base(BaseAction::MoveDown(1)),
            ),
            binding_is(
                r.register@[30],
                EditorMode::Insert,
                seq![Key::Down],
                ActionView::Base(BaseAction::MoveDown(1)),
            ),
            binding_is(
                r.register@[31],
                EditorMode::Normal,
                seq![Key::Char('w')],
                ActionView::Base(BaseAction::MoveWordForward(1)),
            ),
            binding_is(
                r.register@[32],
                EditorMode::Normal,
                seq![Key::Char('b')],
                ActionView::Base(BaseAction::MoveWordBackward(1)),
            ),
            binding_is(
                r.register@[33],
                EditorMode::Visual,
                seq![Key::Char('w')],
                ActionView::Base(BaseAction::MoveWordForward(1)),
            ),
            binding_is(
                r.register@[34],
                EditorMode::Visual,
                seq![Key::Char('b')],
                ActionView::Base(BaseAction::MoveWordBackward(1)),
            ),
            binding_is(
                r.register@[35],
                EditorMode::Normal,
                seq![Key::Char('0')],
                ActionView::Base(BaseAction::MoveToStart),
            ),
            binding_is(
                r.register@[36],
                EditorMode::Normal,
                seq![Key::Char('_')],
                ActionView::Base(BaseAction::MoveToFirst),
            ),
            binding_is(
                r.register@[37],
                EditorMode::Normal,
                seq![Key::Char('$')],
                ActionView::Base(BaseAction::MoveToEnd),
            ),
            binding_is(
                r.register@[38],
                EditorMode::Visual,
                seq![Key::Char('0')],
                ActionView::Base(BaseAction::MoveToStart),
            ),
            binding_is(
                r.register@[39],
                EditorMode::Visual,
                seq![Key::Char('_')],
                ActionView::Base(BaseAction::MoveToFirst),
            ),
            binding_is(
                r.register@[40],
                EditorMode::Visual,
                seq![Key::Char('$')],
                ActionView::Base(BaseAction::MoveToEnd),
            ),
            binding_is(
                r.register@[41],
                EditorMode::Normal,
                seq![Key::Char('I')],
                ActionView::Composed(seq![BaseAction::MoveToFirst, BaseAction::SwitchMode(EditorMode::Insert)]),
            ),
            binding_is(
                r.register@[42],
                EditorMode::Normal,
                seq![Key::Char('A')],
                ActionView::Composed(seq![BaseAction::MoveToEnd, BaseAction::Append]),
            ),
            binding_is(
                r.register@[43],
                EditorMode::Normal,
                seq![Key::Char('o')],
                ActionView::Composed(seq![BaseAction::AppendNewline(1), BaseAction::SwitchMode(EditorMode::Insert)]),
            ),
            binding_is(
                r.register@[44],
                EditorMode::Normal,
                seq![Key::Char('O')],
                ActionView::Composed(seq![BaseAction::InsertNewline(1), BaseAction::SwitchMode(EditorMode::Insert)]),
            ),
            binding_is(
                r.register@[45],
                EditorMode::Insert,
                seq![Key::Enter],
                ActionView::Base(BaseAction::LineBreak(1)),
            ),
            binding_is(
                r.register@[46],
                EditorMode::Normal,
                seq![Key::Char('x')],
                ActionView::Base(BaseAction::RemoveChar(1)),
            ),
            binding_is(
                r.register@[47],
                EditorMode::Insert,
                seq![Key::Backspace],
                ActionView::Base(BaseAction::DeleteChar(1)),
            ),
            binding_is(
                r.register@[48],
                EditorMode::Normal,
                seq![Key::Char('d'), Key::Char('d')],
                ActionView::Base(BaseAction::DeleteLine(1)),
            ),
            binding_is(
                r.register@[49],
                EditorMode::Visual,
                seq![Key::Char('d')],
                ActionView::Base(BaseAction::DeleteSelection),
            ),
            binding_is(
                r.register@[50],
                EditorMode::Normal,
                seq![Key::Char('c'), Key::Char('i'), Key::Char('w')],
                ActionView::Base(BaseAction::SelectBetween('"')),
            ),
            binding_is(
                r.register@[51],
                EditorMode::Normal,
                seq![Key::Char('V')],
                ActionView::Base(BaseAction::SelectLine),
            ),
            binding_is(
                r.register@[52],
                EditorMode::Normal,
                seq![Key::Char('u')],
                ActionView::Base(BaseAction::Undo),
            ),
            binding_is(
                r.register@[53],
                EditorMode::Normal,
                seq![Key::Ctrl('r')],
                ActionView::Base(BaseAction::Redo),
            ),
            binding_is(
                r.register@[54],
                EditorMode::Visual,
                seq![Key::Char('y')],
                ActionView::Base(BaseAction::CopySelection),
            ),
            binding_is(
                r.register@[55],
                EditorMode::Normal,
                seq![Key::Char('p')],
                ActionView::Base(BaseAction::Paste),
            ),
            binding_is(
                r.register@[56],
                EditorMode::Visual,
                seq![Key::Char('p')],
                ActionView::Base(BaseAction::Paste),
            ),
    {
        proof {
            broadcast use lemma_candidate_one;
            broadcast use lemma_candidate_two;
        }
        let mut b: Vec<Binding> = Vec::new();
        proof {
            assert(count_matching(b@, EditorMode::Normal, seq![Key::Char('x')]) == 0);
            assert(exact_action(b@, EditorMode::Normal, seq![Key::Char('x')]) is None);
            assert(count_matching(b@, EditorMode::Normal, seq![Key::Char('d')]) == 0);
            assert(exact_action(b@, EditorMode::Normal, seq![Key::Char('d')]) is None);
            assert(count_matching(b@, EditorMode::Normal, seq![Key::Char('d'), Key::Char('d')]) == 0);
            assert(exact_action(b@, EditorMode::Normal, seq![Key::Char('d'), Key::Char('d')]) is None);
        }
        // leave insert or visual mode
        let k0: Vec<Key> = vec![Key::Esc];
        proof {
            assert(k0@ =~= seq![Key::Esc]);
        }
        let ghost prev0 = b@;
        push_binding(&mut b, RegisterKey::new(k0, EditorMode::Insert), Action::Base(BaseAction::SwitchMode(EditorMode::Normal)));
        proof {
            assert(b@.drop_last() =~= prev0);
        }
        proof {
            assert(count_matching(b@, EditorMode::Normal, seq![Key::Char('x')]) == 0);
            assert(exact_action(b@, EditorMode::Normal, seq![Key::Char('x')]) is None);
            assert(count_matching(b@, EditorMode::Normal, seq![Key::Char('d')]) == 0);
            assert(exact_action(b@, EditorMode::Normal, seq![Key::Char('d')]) is None);
            assert(count_matching(b@, EditorMode::Normal, seq![Key::Char('d'), Key::Char('d')]) == 0);
            assert(exact_action(b@, EditorMode::Normal, seq![Key::Char('d'), Key::Char('d')]) is None);
        }
        let k1: Vec<Key> = vec![Key::Esc];
        proof {
            assert(k1@ =~= seq![Key::Esc]);
        }
        let ghost prev1 = b@;
        push_binding(&mut b, RegisterKey::new(k1, EditorMode::Visual), Action::Base(BaseAction::SwitchMode(EditorMode::Normal)));
        proof {
            assert(b@.drop_last() =~= prev1);
        }
        proof {
            assert(count_matching(b@, EditorMode::Normal, seq![Key::Char('x')]) == 0);
            assert(exact_action(b@, EditorMode::Normal, seq![Key::Char('x')]) is None);
            assert(count_matching(b@, EditorMode::Normal, seq![Key::Char('d')]) == 0);
            assert(exact_action(b@, EditorMode::Normal, seq![Key::Char('d')]) is None);
            assert(count_matching(b@, EditorMode::Normal, seq![Key::Char('d'), Key::Char('d')]) == 0);
            assert(exact_action(b@, EditorMode::Normal, seq![Key::Char('d'), Key::Char('d')]) is None);
        }
        // enter insert mode
        let k2: Vec<Key> = vec![Key::Char('i')];
        proof {
            assert(k2@ =~= seq![Key::Char('i')]);
        }
        let ghost prev2 = b@;
        push_binding(&mut b, RegisterKey::new(k2, EditorMode::Normal), Action::Base(BaseAction::SwitchMode(EditorMode::Insert)));
        proof {
            assert(b@.drop_last() =~= prev2);
        }
        proof {
            assert(count_matching(b@, EditorMode::Normal, seq![Key::Char('x')]) == 0);
            assert(exact_action(b@, EditorMode::Normal, seq![Key::Char('x')]) is None);
            assert(count_matching(b@, EditorMode::Normal, seq![Key::Char('d')]) == 0);
            assert(exact_action(b@, EditorMode::Normal, seq![Key::Char('d')]) is None);
            assert(count_matching(b@, EditorMode::Normal, seq![Key::Char('d'), Key::Char('d')]) == 0);
            assert(exact_action(b@, EditorMode::Normal, seq![Key::Char('d'), Key::Char('d')]) is None);
        }
        // enter visual mode
        let k3: Vec<Key> = vec![Key::Char('v')];
        proof {
            assert(k3@ =~= seq![Key::Char('v')]);
        }
        let ghost prev3 = b@;
        push_binding(&mut b, RegisterKey::new(k3, EditorMode::Normal), Action::Base(BaseAction::SwitchMode(EditorMode::Visual)));
        proof {
            assert(b@.drop_last() =~= prev3);
        }
        proof {
            assert(count_matching(b@, EditorMode::Normal, seq![Key::Char('x')]) == 0);
            assert(exact_action(b@, EditorMode::Normal, seq![Key::Char('x')]) is None);
            assert(count_matching(b@, EditorMode::Normal, seq![Key::Char('d')]) == 0);
            assert(exact_action(b@, EditorMode::Normal, seq![Key::Char('d')]) is None);
            assert(count_matching(b@, EditorMode::Normal, seq![Key::Char('d'), Key::Char('d')]) == 0);
            assert(exact_action(b@, EditorMode::Normal, seq![Key::Char('d'), Key::Char('d')]) is None);
        }
        // search
        let k4: Vec<Key> = vec![Key::Char('/')];
        proof {
            assert(k4@ =~= seq![Key::Char('/')]);
        }
        let ghost prev4 = b@;
        push_binding(&mut b, RegisterKey::new(k4, EditorMode::Normal), Action::Base(BaseAction::StartSearch));
        proof {
            assert(b@.drop_last() =~= prev4);
        }
        proof {
            assert(count_matching(b@, EditorMode::Normal, seq![Key::Char('x')]) == 0);
            assert(exact_action(b@, EditorMode::Normal, seq![Key::Char('x')]) is None);
            assert(count_matching(b@, EditorMode::Normal, seq![Key::Char('d')]) == 0);
            assert(exact_action(b@, EditorMode::Normal, seq![Key::Char('d')]) is None);
            assert(count_matching(b@, EditorMode::Normal, seq![Key::Char('d'), Key::Char('d')]) == 0);
            assert(exact_action(b@, EditorMode::Normal, seq![Key::Char('d'), Key::Char('d')]) is None);
        }
        let k5: Vec<Key> = vec![Key::Enter];
        proof {
            assert(k5@ =~= seq![Key::Enter]);
        }
        let ghost prev5 = b@;
        push_binding(&mut b, RegisterKey::new(k5, EditorMode::Search), Action::Base(BaseAction::TriggerSearch));
        proof {
            assert(b@.drop_last() =~= prev5);
        }
        proof {
            assert(count_matching(b@, EditorMode::Normal, seq![Key::Char('x')]) == 0);
            assert(exact_action(b@, EditorMode::Normal, seq![Key::Char('x')]) is None);
            assert(count_matching(b@, EditorMode::Normal, seq![Key::Char('d')]) == 0);
            assert(exact_action(b@, EditorMode::Normal, seq![Key::Char('d')]) is None);
            assert(count_matching(b@, EditorMode::Normal, seq![Key::Char('d'), Key::Char('d')]) == 0);
            assert(exact_action(b@, EditorMode::Normal, seq![Key::Char('d'), Key::Char('d')]) is None);
        }
        let k6: Vec<Key> = vec![Key::Char('n')];
        proof {
            assert(k6@ =~= seq![Key::Char('n')]);
        }
        let ghost prev6 = b@;
        push_binding(&mut b, RegisterKey::new(k6, EditorMode::Normal), Action::Base(BaseAction::FindNext));
        proof {
            assert(b@.drop_last() =~= prev6);
        }
        proof {
            assert(count_matching(b@, EditorMode::Normal, seq![Key::Char('x')]) == 0);
            assert(exact_action(b@, EditorMode::Normal, seq![Key::Char('x')]) is None);
            assert(count_matching(b@, EditorMode::Normal, seq![Key::Char('d')]) == 0);
            assert(exact_action(b@, EditorMode::Normal, seq![Key::Char('d')]) is None);
            assert(count_matching(b@, EditorMode::Normal, seq![Key::Char('d'), Key::Char('d')]) == 0);
            assert(exact_action(b@, EditorMode::Normal, seq![Key::Char('d'), Key::Char('d')]) is None);
        }
        let k7: Vec<Key> = vec![Key::Char('N')];
        proof {
            assert(k7@ =~= seq![Key::Char('N')]);
        }
        let ghost prev7 = b@;
        push_binding(&mut b, RegisterKey::new(k7, EditorMode::Normal), Action::Base(BaseAction::FindPrevious));
        proof {
            assert(b@.drop_last() =~= prev7);
        }
        proof {
            assert(count_matching(b@, EditorMode::Normal, seq![Key::Char('x')]) == 0);
            assert(exact_action(b@, EditorMode::Normal, seq![Key::Char('x')]) is None);
            assert(count_matching(b@, EditorMode::Normal, seq![Key::Char('d')]) == 0);
            assert(exact_action(b@, EditorMode::Normal, seq![Key::Char('d')]) is None);
            assert(count_matching(b@, EditorMode::Normal, seq![Key::Char('d'), Key::Char('d')]) == 0);
            assert(exact_action(b@, EditorMode::Normal, seq![Key::Char('d'), Key::Char('d')]) is None);
        }
        let k8: Vec<Key> = vec![Key::Esc];
        proof {
            assert(k8@ =~= seq![Key::Esc]);
        }
        let ghost prev8 = b@;
        push_binding(&mut b, RegisterKey::new(k8, EditorMode::Search), Action::Base(BaseAction::StopSearch));
        proof {
            assert(b@.drop_last() =~= prev8);
        }
        proof {
            assert(count_matching(b@, EditorMode::Normal, seq![Key::Char('x')]) == 0);
            assert(exact_action(b@, EditorMode::Normal, seq![Key::Char('x')]) is None);
            assert(count_matching(b@, EditorMode::Normal, seq![Key::Char('d')]) == 0);
            assert(exact_action(b@, EditorMode::Normal, seq![Key::Char('d')]) is None);
            assert(count_matching(b@, EditorMode::Normal, seq![Key::Char('d'), Key::Char('d')]) == 0);
            assert(exact_action(b@, EditorMode::Normal, seq![Key::Char('d'), Key::Char('d')]) is None);
        }
        let k9: Vec<Key> = vec![Key::Backspace];
        proof {
            assert(k9@ =~= seq![Key::Backspace]);
        }
        let ghost prev9 = b@;
        push_binding(&mut b, RegisterKey::new(k9, EditorMode::Search), Action::Base(BaseAction::RemoveCharFromSearch));
        proof {
            assert(b@.drop_last() =~= prev9);
        }
        proof {
            assert(count_matching(b@, EditorMode::Normal, seq![Key::Char('x')]) == 0);
            assert(exact_action(b@, EditorMode::Normal, seq![Key::Char('x')]) is None);
            assert(count_matching(b@, EditorMode::Normal, seq![Key::Char('d')]) == 0);
            assert(exact_action(b@, EditorMode::Normal, seq![Key::Char('d')]) is None);
            assert(count_matching(b@, EditorMode::Normal, seq![Key::Char('d'), Key::Char('d')]) == 0);
            assert(exact_action(b@, EditorMode::Normal, seq![Key::Char('d'), Key::Char('d')]) is None);
        }
        // enter insert mode one character forward
        let k10: Vec<Key> = vec![Key::Char('a')];
        proof {
            assert(k10@ =~= seq![Key::Char('a')]);
        }
        let ghost prev10 = b@;
        push_binding(&mut b, RegisterKey::new(k10, EditorMode::Normal), Action::Base(BaseAction::Append));
        proof {
            assert(b@.drop_last() =~= prev10);
        }
        proof {
            assert(count_matching(b@, EditorMode::Normal, seq![Key::Char('x')]) == 0);
            assert(exact_action(b@, EditorMode::Normal, seq![Key::Char('x')]) is None);
            assert(count_matching(b@, EditorMode::Normal, seq![Key::Char('d')]) == 0);
            assert(exact_action(b@, EditorMode::Normal, seq![Key::Char('d')]) is None);
            assert(count_matching(b@, EditorMode::Normal, seq![Key::Char('d'), Key::Char('d')]) == 0);
            assert(exact_action(b@, EditorMode::Normal, seq![Key::Char('d'), Key::Char('d')]) is None);
        }
        // move right
        let k11: Vec<Key> = vec![Key::Char('l')];
        proof {
            assert(k11@ =~= seq![Key::Char('l')]);
        }
        let ghost prev11 = b@;
        push_binding(&mut b, RegisterKey::new(k11, EditorMode::Normal), Action::Base(BaseAction::MoveForward(1)));
        proof {
            assert(b@.drop_last() =~= prev11);
        }
        proof {
            assert(count_matching(b@, EditorMode::Normal, seq![Key::Char('x')]) == 0);
            assert(exact_action(b@, EditorMode::Normal, seq![Key::Char('x')]) is None);
            assert(count_matching(b@, EditorMode::Normal, seq![Key::Char('d')]) == 0);
            assert(exact_action(b@, EditorMode::Normal, seq![Key::Char('d')]) is None);
            assert(count_matching(b@, EditorMode::Normal, seq![Key::Char('d'), Key::Char('d')]) == 0);
            assert(exact_action(b@, EditorMode::Normal, seq![Key::Char('d'), Key::Char('d')]) is None);
        }
        let k12: Vec<Key> = vec![Key::Char('l')];
        proof {
            assert(k12@ =~= seq![Key::Char('l')]);
        }
        let ghost prev12 = b@;
        push_binding(&mut b, RegisterKey::new(k12, EditorMode::Visual), Action::Base(BaseAction::MoveForward(1)));
        proof {
            assert(b@.drop_last() =~= prev12);
        }
        proof {
            assert(count_matching(b@, EditorMode::Normal, seq![Key::Char('x')]) == 0);
            assert(exact_action(b@, EditorMode::Normal, seq![Key::Char('x')]) is None);
            assert(count_matching(b@, EditorMode::Normal, seq![Key::Char('d')]) == 0);
            assert(exact_action(b@, EditorMode::Normal, seq![Key::Char('d')]) is None);
            assert(count_matching(b@, EditorMode::Normal, seq![Key::Char('d'), Key::Char('d')]) == 0);
            assert(exact_action(b@, EditorMode::Normal, seq![Key::Char('d'), Key::Char('d')]) is None);
        }
        let k13: Vec<Key> = vec![Key::Right];
        proof {
            assert(k13@ =~= seq![Key::Right]);
        }
        let ghost prev13 = b@;
        push_binding(&mut b, RegisterKey::new(k13, EditorMode::Normal), Action::Base(BaseAction::MoveForward(1)));
        proof {
            assert(b@.drop_last() =~= prev13);
        }
        proof {
            assert(count_matching(b@, EditorMode::Normal, seq![Key::Char('x')]) == 0);
            assert(exact_action(b@, EditorMode::Normal, seq![Key::Char('x')]) is None);
            assert(count_matching(b@, EditorMode::Normal, seq![Key::Char('d')]) == 0);
            assert(exact_action(b@, EditorMode::Normal, seq![Key::Char('d')]) is None);
            assert(count_matching(b@, EditorMode::Normal, seq![Key::Char('d'), Key::Char('d')]) == 0);
            assert(exact_action(b@, EditorMode::Normal, seq![Key::Char('d'), Key::Char('d')]) is None);
        }
        let k14: Vec<Key> = vec![Key::Right];
        proof {
            assert(k14@ =~= seq![Key::Right]);
        }
        let ghost prev14 = b@;
        push_binding(&mut b, RegisterKey::new(k14, EditorMode::Visual), Action::Base(BaseAction::MoveForward(1)));
        proof {
            assert(b@.drop_last() =~= prev14);
        }
        proof {
            assert(count_matching(b@, EditorMode::Normal, seq![Key::Char('x')]) == 0);
            assert(exact_action(b@, EditorMode::Normal, seq![Key::Char('x')]) is None);
            assert(count_matching(b@, EditorMode::Normal, seq![Key::Char('d')]) == 0);
            assert(exact_action(b@, EditorMode::Normal, seq![Key::Char('d')]) is None);
            assert(count_matching(b@, EditorMode::Normal, seq![Key::Char('d'), Key::Char('d')]) == 0);
            assert(exact_action(b@, EditorMode::Normal, seq![Key::Char('d'), Key::Char('d')]) is None);
        }
        let k15: Vec<Key> = vec![Key::Right];
        proof {
            assert(k15@ =~= seq![Key::Right]);
        }
        let ghost prev15 = b@;
        push_binding(&mut b, RegisterKey::new(k15, EditorMode::Insert), Action::Base(BaseAction::MoveForward(1)));
        proof {
            assert(b@.drop_last() =~= prev15);
        }
        proof {
            assert(count_matching(b@, EditorMode::Normal, seq![Key::Char('x')]) == 0);
            assert(exact_action(b@, EditorMode::Normal, seq![Key::Char('x')]) is None);
            assert(count_matching(b@, EditorMode::Normal, seq![Key::Char('d')]) == 0);
            assert(exact_action(b@, EditorMode::Normal, seq![Key::Char('d')]) is None);
            assert(count_matching(b@, EditorMode::Normal, seq![Key::Char('d'), Key::Char('d')]) == 0);
            assert(exact_action(b@, EditorMode::Normal, seq![Key::Char('d'), Key::Char('d')]) is None);
        }
        // move left
        let k16: Vec<Key> = vec![Key::Char('h')];
        proof {
            assert(k16@ =~= seq![Key::Char('h')]);
        }
        let ghost prev16 = b@;
        push_binding(&mut b, RegisterKey::new(k16, EditorMode::Normal), Action::Base(BaseAction::MoveBackward(1)));
        proof {
            assert(b@.drop_last() =~= prev16);
        }
        proof {
            assert(count_matching(b@, EditorMode::Normal, seq![Key::Char('x')]) == 0);
            assert(exact_action(b@, EditorMode::Normal, seq![Key::Char('x')]) is None);
            assert(count_matching(b@, EditorMode::Normal, seq![Key::Char('d')]) == 0);
            assert(exact_action(b@, EditorMode::Normal, seq![Key::Char('d')]) is None);
            assert(count_matching(b@, EditorMode::Normal, seq![Key::Char('d'), Key::Char('d')]) == 0);
            assert(exact_action(b@, EditorMode::Normal, seq![Key::Char('d'), Key::Char('d')]) is None);
        }
        let k17: Vec<Key> = vec![Key::Char('h')];
        proof {
            assert(k17@ =~= seq![Key::Char('h')]);
        }
        let ghost prev17 = b@;
        push_binding(&mut b, RegisterKey::new(k17, EditorMode::Visual), Action::Base(BaseAction::MoveBackward(1)));
        proof {
            assert(b@.drop_last() =~= prev17);
        }
        proof {
            assert(count_matching(b@, EditorMode::Normal, seq![Key::Char('x')]) == 0);
            assert(exact_action(b@, EditorMode::Normal, seq![Key::Char('x')]) is None);
            assert(count_matching(b@, EditorMode::Normal, seq![Key::Char('d')]) == 0);
            assert(exact_action(b@, EditorMode::Normal, seq![Key::Char('d')]) is None);
            assert(count_matching(b@, EditorMode::Normal, seq![Key::Char('d'), Key::Char('d')]) == 0);
            assert(exact_action(b@, EditorMode::Normal, seq![Key::Char('d'), Key::Char('d')]) is None);
        }
        let k18: Vec<Key> = vec![Key::Left];
        proof {
            assert(k18@ =~= seq![Key::Left]);
        }
        let ghost prev18 = b@;
        push_binding(&mut b, RegisterKey::new(k18, EditorMode::Normal), Action::Base(BaseAction::MoveBackward(1)));
        proof {
            assert(b@.drop_last() =~= prev18);
        }
        proof {
            assert(count_matching(b@, EditorMode::Normal, seq![Key::Char('x')]) == 0);
            assert(exact_action(b@, EditorMode::Normal, seq![Key::Char('x')]) is None);
            assert(count_matching(b@, EditorMode::Normal, seq![Key::Char('d')]) == 0);
            assert(exact_action(b@, EditorMode::Normal, seq![Key::Char('d')]) is None);
            assert(count_matching(b@, EditorMode::Normal, seq![Key::Char('d'), Key::Char('d')]) == 0);
            assert(exact_action(b@, EditorMode::Normal, seq![Key::Char('d'), Key::Char('d')]) is None);
        }
        let k19: Vec<Key> = vec![Key::Left];
        proof {
            assert(k19@ =~= seq![Key::Left]);
        }
        let ghost prev19 = b@;
        push_binding(&mut b, RegisterKey::new(k19, EditorMode::Visual), Action::Base(BaseAction::MoveBackward(1)));
        proof {
            assert(b@.drop_last() =~= prev19);
        }
        proof {
            assert(count_matching(b@, EditorMode::Normal, seq![Key::Char('x')]) == 0);
            assert(exact_action(b@, EditorMode::Normal, seq![Key::Char('x')]) is None);
            assert(count_matching(b@, EditorMode::Normal, seq![Key::Char('d')]) == 0);
            assert(exact_action(b@, EditorMode::Normal, seq![Key::Char('d')]) is None);
            assert(count_matching(b@, EditorMode::Normal, seq![Key::Char('d'), Key::Char('d')]) == 0);
            assert(exact_action(b@, EditorMode::Normal, seq![Key::Char('d'), Key::Char('d')]) is None);
        }
        let k20: Vec<Key> = vec![Key::Left];
        proof {
            assert(k20@ =~= seq![Key::Left]);
        }
        let ghost prev20 = b@;
        push_binding(&mut b, RegisterKey::new(k20, EditorMode::Insert), Action::Base(BaseAction::MoveBackward(1)));
        proof {
            assert(b@.drop_last() =~= prev20);
        }
        proof {
            assert(count_matching(b@, EditorMode::Normal, seq![Key::Char('x')]) == 0);
            assert(exact_action(b@, EditorMode::Normal, seq![Key::Char('x')]) is None);
            assert(count_matching(b@, EditorMode::Normal, seq![Key::Char('d')]) == 0);
            assert(exact_action(b@, EditorMode::Normal, seq![Key::Char('d')]) is None);
            assert(count_matching(b@, EditorMode::Normal, seq![Key::Char('d'), Key::Char('d')]) == 0);
            assert(exact_action(b@, EditorMode::Normal, seq![Key::Char('d'), Key::Char('d')]) is None);
        }
        // move up
        let k21: Vec<Key> = vec![Key::Char('k')];
        proof {
            assert(k21@ =~= seq![Key::Char('k')]);
        }
        let ghost prev21 = b@;
        push_binding(&mut b, RegisterKey::new(k21, EditorMode::Normal), Action::Base(BaseAction::MoveUp(1)));
        proof {
            assert(b@.drop_last() =~= prev21);
        }
        proof {
            assert(count_matching(b@, EditorMode::Normal, seq![Key::Char('x')]) == 0);
            assert(exact_action(b@, EditorMode::Normal, seq![Key::Char('x')]) is None);
            assert(count_matching(b@, EditorMode::Normal, seq![Key::Char('d')]) == 0);
            assert(exact_action(b@, EditorMode::Normal, seq![Key::Char('d')]) is None);
            assert(count_matching(b@, EditorMode::Normal, seq![Key::Char('d'), Key::Char('d')]) == 0);
            assert(exact_action(b@, EditorMode::Normal, seq![Key::Char('d'), Key::Char('d')]) is None);
        }
        let k22: Vec<Key> = vec![Key::Char('k')];
        proof {
            assert(k22@ =~= seq![Key::Char('k')]);
        }
        let ghost prev22 = b@;
        push_binding(&mut b, RegisterKey::new(k22, EditorMode::Visual), Action::Base(BaseAction::MoveUp(1)));
        proof {
            assert(b@.drop_last() =~= prev22);
        }
        proof {
            assert(count_matching(b@, EditorMode::Normal, seq![Key::Char('x')]) == 0);
            assert(exact_action(b@, EditorMode::Normal, seq![Key::Char('x')]) is None);
            assert(count_matching(b@, EditorMode::Normal, seq![Key::Char('d')]) == 0);
            assert(exact_action(b@, EditorMode::Normal, seq![Key::Char('d')]) is None);
            assert(count_matching(b@, EditorMode::Normal, seq![Key::Char('d'), Key::Char('d')]) == 0);
            assert(exact_action(b@, EditorMode::Normal, seq![Key::Char('d'), Key::Char('d')]) is None);
        }
        let k23: Vec<Key> = vec![Key::Up];
        proof {
            assert(k23@ =~= seq![Key::Up]);
        }
        let ghost prev23 = b@;
        push_binding(&mut b, RegisterKey::new(k23, EditorMode::Normal), Action::Base(BaseAction::MoveUp(1)));
        proof {
            assert(b@.drop_last() =~= prev23);
        }
        proof {
            assert(count_matching(b@, EditorMode::Normal, seq![Key::Char('x')]) == 0);
            assert(exact_action(b@, EditorMode::Normal, seq![Key::Char('x')]) is None);
            assert(count_matching(b@, EditorMode::Normal, seq![Key::Char('d')]) == 0);
            assert(exact_action(b@, EditorMode::Normal, seq![Key::Char('d')]) is None);
            assert(count_matching(b@, EditorMode::Normal, seq![Key::Char('d'), Key::Char('d')]) == 0);
            assert(exact_action(b@, EditorMode::Normal, seq![Key::Char('d'), Key::Char('d')]) is None);
        }
        let k24: Vec<Key> = vec![Key::Up];
        proof {
            assert(k24@ =~= seq![Key::Up]);
        }
        let ghost prev24 = b@;
        push_binding(&mut b, RegisterKey::new(k24, EditorMode::Visual), Action::Base(BaseAction::MoveUp(1)));
        proof {
            assert(b@.drop_last() =~= prev24);
        }
        proof {
            assert(count_matching(b@, EditorMode::Normal, seq![Key::Char('x')]) == 0);
            assert(exact_action(b@, EditorMode::Normal, seq![Key::Char('x')]) is None);
            assert(count_matching(b@, EditorMode::Normal, seq![Key::Char('d')]) == 0);
            assert(exact_action(b@, EditorMode::Normal, seq![Key::Char('d')]) is None);
            assert(count_matching(b@, EditorMode::Normal, seq![Key::Char('d'), Key::Char('d')]) == 0);
            assert(exact_action(b@, EditorMode::Normal, seq![Key::Char('d'), Key::Char('d')]) is None);
        }
        let k25: Vec<Key> = vec![Key::Up];
        proof {
            assert(k25@ =~= seq![Key::Up]);
        }
        let ghost prev25 = b@;
        push_binding(&mut b, RegisterKey::new(k25, EditorMode::Insert), Action::Base(BaseAction::MoveUp(1)));
        proof {
            assert(b@.drop_last() =~= prev25);
        }
        proof {
            assert(count_matching(b@, EditorMode::Normal, seq![Key::Char('x')]) == 0);
            assert(exact_action(b@, EditorMode::Normal, seq![Key::Char('x')]) is None);
            assert(count_matching(b@, EditorMode::Normal, seq![Key::Char('d')]) == 0);
            assert(exact_action(b@, EditorMode::Normal, seq![Key::Char('d')]) is None);
            assert(count_matching(b@, EditorMode::Normal, seq![Key::Char('d'), Key::Char('d')]) == 0);
            assert(exact_action(b@, EditorMode::Normal, seq![Key::Char('d'), Key::Char('d')]) is None);
        }
        // move down
        let k26: Vec<Key> = vec![Key::Char('j')];
        proof {
            assert(k26@ =~= seq![Key::Char('j')]);
        }
        let ghost prev26 = b@;
        push_binding(&mut b, RegisterKey::new(k26, EditorMode::Normal), Action::Base(BaseAction::MoveDown(1)));
        proof {
            assert(b@.drop_last() =~= prev26);
        }
        proof {
            assert(count_matching(b@, EditorMode::Normal, seq![Key::Char('x')]) == 0);
            assert(exact_action(b@, EditorMode::Normal, seq![Key::Char('x')]) is None);
            assert(count_matching(b@, EditorMode::Normal, seq![Key::Char('d')]) == 0);
            assert(exact_action(b@, EditorMode::Normal, seq![Key::Char('d')]) is None);
            assert(count_matching(b@, EditorMode::Normal, seq![Key::Char('d'), Key::Char('d')]) == 0);
            assert(exact_action(b@, EditorMode::Normal, seq![Key::Char('d'), Key::Char('d')]) is None);
        }
        let k27: Vec<Key> = vec![Key::Char('j')];
        proof {
            assert(k27@ =~= seq![Key::Char('j')]);
        }
        let ghost prev27 = b@;
        push_binding(&mut b, RegisterKey::new(k27, EditorMode::Visual), Action::Base(BaseAction::MoveDown(1)));
        proof {
            assert(b@.drop_last() =~= prev27);
        }
        proof {
            assert(count_matching(b@, EditorMode::Normal, seq![Key::Char('x')]) == 0);
            assert(exact_action(b@, EditorMode::Normal, seq![Key::Char('x')]) is None);
            assert(count_matching(b@, EditorMode::Normal, seq![Key::Char('d')]) == 0);
            assert(exact_action(b@, EditorMode::Normal, seq![Key::Char('d')]) is None);
            assert(count_matching(b@, EditorMode::Normal, seq![Key::Char('d'), Key::Char('d')]) == 0);
            assert(exact_action(b@, EditorMode::Normal, seq![Key::Char('d'), Key::Char('d')]) is None);
        }
        let k28: Vec<Key> = vec![Key::Down];
        proof {
            assert(k28@ =~= seq![Key::Down]);
        }
        let ghost prev28 = b@;
        push_binding(&mut b, RegisterKey::new(k28, EditorMode::Normal), Action::Base(BaseAction::MoveDown(1)));
        proof {
            assert(b@.drop_last() =~= prev28);
        }
        proof {
            assert(count_matching(b@, EditorMode::Normal, seq![Key::Char('x')]) == 0);
            assert(exact_action(b@, EditorMode::Normal, seq![Key::Char('x')]) is None);
            assert(count_matching(b@, EditorMode::Normal, seq![Key::Char('d')]) == 0);
            assert(exact_action(b@, EditorMode::Normal, seq![Key::Char('d')]) is None);
            assert(count_matching(b@, EditorMode::Normal, seq![Key::Char('d'), Key::Char('d')]) == 0);
            assert(exact_action(b@, EditorMode::Normal, seq![Key::Char('d'), Key::Char('d')]) is None);
        }
        let k29: Vec<Key> = vec![Key::Down];
        proof {
            assert(k29@ =~= seq![Key::Down]);
        }
        let ghost prev29 = b@;
        push_binding(&mut b, RegisterKey::new(k29, EditorMode::Visual), Action::Base(BaseAction::MoveDown(1)));
        proof {
            assert(b@.drop_last() =~= prev29);
        }
        proof {
            assert(count_matching(b@, EditorMode::Normal, seq![Key::Char('x')]) == 0);
            assert(exact_action(b@, EditorMode::Normal, seq![Key::Char('x')]) is None);
            assert(count_matching(b@, EditorMode::Normal, seq![Key::Char('d')]) == 0);
            assert(exact_action(b@, EditorMode::Normal, seq![Key::Char('d')]) is None);
            assert(count_matching(b@, EditorMode::Normal, seq![Key::Char('d'), Key::Char('d')]) == 0);
            assert(exact_action(b@, EditorMode::Normal, seq![Key::Char('d'), Key::Char('d')]) is None);
        }
        let k30: Vec<Key> = vec![Key::Down];
        proof {
            assert(k30@ =~= seq![Key::Down]);
        }
        let ghost prev30 = b@;
        push_binding(&mut b, RegisterKey::new(k30, EditorMode::Insert), Action::Base(BaseAction::MoveDown(1)));
        proof {
            assert(b@.drop_last() =~= prev30);
        }
        proof {
            assert(count_matching(b@, EditorMode::Normal, seq![Key::Char('x')]) == 0);
            assert(exact_action(b@, EditorMode::Normal, seq![Key::Char('x')]) is None);
            assert(count_matching(b@, EditorMode::Normal, seq![Key::Char('d')]) == 0);
            assert(exact_action(b@, EditorMode::Normal, seq![Key::Char('d')]) is None);
            assert(count_matching(b@, EditorMode::Normal, seq![Key::Char('d'), Key::Char('d')]) == 0);
            assert(exact_action(b@, EditorMode::Normal, seq![Key::Char('d'), Key::Char('d')]) is None);
        }
        // word motions
        let k31: Vec<Key> = vec![Key::Char('w')];
        proof {
            assert(k31@ =~= seq![Key::Char('w')]);
        }
        let ghost prev31 = b@;
        push_binding(&mut b, RegisterKey::new(k31, EditorMode::Normal), Action::Base(BaseAction::MoveWordForward(1)));
        proof {
            assert(b@.drop_last() =~= prev31);
        }
        proof {
            assert(count_matching(b@, EditorMode::Normal, seq![Key::Char('x')]) == 0);
            assert(exact_action(b@, EditorMode::Normal, seq![Key::Char('x')]) is None);
            assert(count_matching(b@, EditorMode::Normal, seq![Key::Char('d')]) == 0);
            assert(exact_action(b@, EditorMode::Normal, seq![Key::Char('d')]) is None);
            assert(count_matching(b@, EditorMode::Normal, seq![Key::Char('d'), Key::Char('d')]) == 0);
            assert(exact_action(b@, EditorMode::Normal, seq![Key::Char('d'), Key::Char('d')]) is None);
        }
        let k32: Vec<Key> = vec![Key::Char('b')];
        proof {
            assert(k32@ =~= seq![Key::Char('b')]);
        }
        let ghost prev32 = b@;
        push_binding(&mut b, RegisterKey::new(k32, EditorMode::Normal), Action::Base(BaseAction::MoveWordBackward(1)));
        proof {
            assert(b@.drop_last() =~= prev32);
        }
        proof {
            assert(count_matching(b@, EditorMode::Normal, seq![Key::Char('x')]) == 0);
            assert(exact_action(b@, EditorMode::Normal, seq![Key::Char('x')]) is None);
            assert(count_matching(b@, EditorMode::Normal, seq![Key::Char('d')]) == 0);
            assert(exact_action(b@, EditorMode::Normal, seq![Key::Char('d')]) is None);
            assert(count_matching(b@, EditorMode::Normal, seq![Key::Char('d'), Key::Char('d')]) == 0);
            assert(exact_action(b@, EditorMode::Normal, seq![Key::Char('d'), Key::Char('d')]) is None);
        }
        let k33: Vec<Key> = vec![Key::Char('w')];
        proof {
            assert(k33@ =~= seq![Key::Char('w')]);
        }
        let ghost prev33 = b@;
        push_binding(&mut b, RegisterKey::new(k33, EditorMode::Visual), Action::Base(BaseAction::MoveWordForward(1)));
        proof {
            assert(b@.drop_last() =~= prev33);
        }
        proof {
            assert(count_matching(b@, EditorMode::Normal, seq![Key::Char('x')]) == 0);
            assert(exact_action(b@, EditorMode::Normal, seq![Key::Char('x')]) is None);
            assert(count_matching(b@, EditorMode::Normal, seq![Key::Char('d')]) == 0);
            assert(exact_action(b@, EditorMode::Normal, seq![Key::Char('d')]) is None);
            assert(count_matching(b@, EditorMode::Normal, seq![Key::Char('d'), Key::Char('d')]) == 0);
            assert(exact_action(b@, EditorMode::Normal, seq![Key::Char('d'), Key::Char('d')]) is None);
        }
        let k34: Vec<Key> = vec![Key::Char('b')];
        proof {
            assert(k34@ =~= seq![Key::Char('b')]);
        }
        let ghost prev34 = b@;
        push_binding(&mut b, RegisterKey::new(k34, EditorMode::Visual), Action::Base(BaseAction::MoveWordBackward(1)));
        proof {
            assert(b@.drop_last() =~= prev34);
        }
        proof {
            assert(count_matching(b@, EditorMode::Normal, seq![Key::Char('x')]) == 0);
            assert(exact_action(b@, EditorMode::Normal, seq![Key::Char('x')]) is None);
            assert(count_matching(b@, EditorMode::Normal, seq![Key::Char('d')]) == 0);
            assert(exact_action(b@, EditorMode::Normal, seq![Key::Char('d')]) is None);
            assert(count_matching(b@, EditorMode::Normal, seq![Key::Char('d'), Key::Char('d')]) == 0);
            assert(exact_action(b@, EditorMode::Normal, seq![Key::Char('d'), Key::Char('d')]) is None);
        }
        // line-boundary motions
        let k35: Vec<Key> = vec![Key::Char('0')];
        proof {
            assert(k35@ =~= seq![Key::Char('0')]);
        }
        let ghost prev35 = b@;
        push_binding(&mut b, RegisterKey::new(k35, EditorMode::Normal), Action::Base(BaseAction::MoveToStart));
        proof {
            assert(b@.drop_last() =~= prev35);
        }
        proof {
            assert(count_matching(b@, EditorMode::Normal, seq![Key::Char('x')]) == 0);
            assert(exact_action(b@, EditorMode::Normal, seq![Key::Char('x')]) is None);
            assert(count_matching(b@, EditorMode::Normal, seq![Key::Char('d')]) == 0);
            assert(exact_action(b@, EditorMode::Normal, seq![Key::Char('d')]) is None);
            assert(count_matching(b@, EditorMode::Normal, seq![Key::Char('d'), Key::Char('d')]) == 0);
            assert(exact_action(b@, EditorMode::Normal, seq![Key::Char('d'), Key::Char('d')]) is None);
        }
        let k36: Vec<Key> = vec![Key::Char('_')];
        proof {
            assert(k36@ =~= seq![Key::Char('_')]);
        }
        let ghost prev36 = b@;
        push_binding(&mut b, RegisterKey::new(k36, EditorMode::Normal), Action::Base(BaseAction::MoveToFirst));
        proof {
            assert(b@.drop_last() =~= prev36);
        }
        proof {
            assert(count_matching(b@, EditorMode::Normal, seq![Key::Char('x')]) == 0);
            assert(exact_action(b@, EditorMode::Normal, seq![Key::Char('x')]) is None);
            assert(count_matching(b@, EditorMode::Normal, seq![Key::Char('d')]) == 0);
            assert(exact_action(b@, EditorMode::Normal, seq![Key::Char('d')]) is None);
            assert(count_matching(b@, EditorMode::Normal, seq![Key::Char('d'), Key::Char('d')]) == 0);
            assert(exact_action(b@, EditorMode::Normal, seq![Key::Char('d'), Key::Char('d')]) is None);
        }
        let k37: Vec<Key> = vec![Key::Char('$')];
        proof {
            assert(k37@ =~= seq![Key::Char('$')]);
        }
        let ghost prev37 = b@;
        push_binding(&mut b, RegisterKey::new(k37, EditorMode::Normal), Action::Base(BaseAction::MoveToEnd));
        proof {
            assert(b@.drop_last() =~= prev37);
        }
        proof {
            assert(count_matching(b@, EditorMode::Normal, seq![Key::Char('x')]) == 0);
            assert(exact_action(b@, EditorMode::Normal, seq![Key::Char('x')]) is None);
            assert(count_matching(b@, EditorMode::Normal, seq![Key::Char('d')]) == 0);
            assert(exact_action(b@, EditorMode::Normal, seq![Key::Char('d')]) is None);
            assert(count_matching(b@, EditorMode::Normal, seq![Key::Char('d'), Key::Char('d')]) == 0);
            assert(exact_action(b@, EditorMode::Normal, seq![Key::Char('d'), Key::Char('d')]) is None);
        }
        let k38: Vec<Key> = vec![Key::Char('0')];
        proof {
            assert(k38@ =~= seq![Key::Char('0')]);
        }
        let ghost prev38 = b@;
        push_binding(&mut b, RegisterKey::new(k38, EditorMode::Visual), Action::Base(BaseAction::MoveToStart));
        proof {
            assert(b@.drop_last() =~= prev38);
        }
        proof {
            assert(count_matching(b@, EditorMode::Normal, seq![Key::Char('x')]) == 0);
            assert(exact_action(b@, EditorMode::Normal, seq![Key::Char('x')]) is None);
            assert(count_matching(b@, EditorMode::Normal, seq![Key::Char('d')]) == 0);
            assert(exact_action(b@, EditorMode::Normal, seq![Key::Char('d')]) is None);
            assert(count_matching(b@, EditorMode::Normal, seq![Key::Char('d'), Key::Char('d')]) == 0);
            assert(exact_action(b@, EditorMode::Normal, seq![Key::Char('d'), Key::Char('d')]) is None);
        }
        let k39: Vec<Key> = vec![Key::Char('_')];
        proof {
            assert(k39@ =~= seq![Key::Char('_')]);
        }
        let ghost prev39 = b@;
        push_binding(&mut b, RegisterKey::new(k39, EditorMode::Visual), Action::Base(BaseAction::MoveToFirst));
        proof {
            assert(b@.drop_last() =~= prev39);
        }
        proof {
            assert(count_matching(b@, EditorMode::Normal, seq![Key::Char('x')]) == 0);
            assert(exact_action(b@, EditorMode::Normal, seq![Key::Char('x')]) is None);
            assert(count_matching(b@, EditorMode::Normal, seq![Key::Char('d')]) == 0);
            assert(exact_action(b@, EditorMode::Normal, seq![Key::Char('d')]) is None);
            assert(count_matching(b@, EditorMode::Normal, seq![Key::Char('d'), Key::Char('d')]) == 0);
            assert(exact_action(b@, EditorMode::Normal, seq![Key::Char('d'), Key::Char('d')]) is None);
        }
        let k40: Vec<Key> = vec![Key::Char('$')];
        proof {
            assert(k40@ =~= seq![Key::Char('$')]);
        }
        let ghost prev40 = b@;
        push_binding(&mut b, RegisterKey::new(k40, EditorMode::Visual), Action::Base(BaseAction::MoveToEnd));
        proof {
            assert(b@.drop_last() =~= prev40);
        }
        proof {
            assert(count_matching(b@, EditorMode::Normal, seq![Key::Char('x')]) == 0);
            assert(exact_action(b@, EditorMode::Normal, seq![Key::Char('x')]) is None);
            assert(count_matching(b@, EditorMode::Normal, seq![Key::Char('d')]) == 0);
            assert(exact_action(b@, EditorMode::Normal, seq![Key::Char('d')]) is None);
            assert(count_matching(b@, EditorMode::Normal, seq![Key::Char('d'), Key::Char('d')]) == 0);
            assert(exact_action(b@, EditorMode::Normal, seq![Key::Char('d'), Key::Char('d')]) is None);
        }
        // line-boundary motions entering insert mode
        let k41: Vec<Key> = vec![Key::Char('I')];
        proof {
            assert(k41@ =~= seq![Key::Char('I')]);
        }
        let c41: Vec<BaseAction> = vec![BaseAction::MoveToFirst, BaseAction::SwitchMode(EditorMode::Insert)];
        proof {
            assert(c41@ =~= seq![BaseAction::MoveToFirst, BaseAction::SwitchMode(EditorMode::Insert)]);
        }
        let ghost prev41 = b@;
        push_binding(&mut b, RegisterKey::new(k41, EditorMode::Normal), Action::Composed(c41));
        proof {
            assert(b@.drop_last() =~= prev41);
        }
        proof {
            assert(count_matching(b@, EditorMode::Normal, seq![Key::Char('x')]) == 0);
            assert(exact_action(b@, EditorMode::Normal, seq![Key::Char('x')]) is None);
            assert(count_matching(b@, EditorMode::Normal, seq![Key::Char('d')]) == 0);
            assert(exact_action(b@, EditorMode::Normal, seq![Key::Char('d')]) is None);
            assert(count_matching(b@, EditorMode::Normal, seq![Key::Char('d'), Key::Char('d')]) == 0);
            assert(exact_action(b@, EditorMode::Normal, seq![Key::Char('d'), Key::Char('d')]) is None);
        }
        let k42: Vec<Key> = vec![Key::Char('A')];
        proof {
            assert(k42@ =~= seq![Key::Char('A')]);
        }
        let c42: Vec<BaseAction> = vec![BaseAction::MoveToEnd, BaseAction::Append];
        proof {
            assert(c42@ =~= seq![BaseAction::MoveToEnd, BaseAction::Append]);
        }
        let ghost prev42 = b@;
        push_binding(&mut b, RegisterKey::new(k42, EditorMode::Normal), Action::Composed(c42));
        proof {
            assert(b@.drop_last() =~= prev42);
        }
        proof {
            assert(count_matching(b@, EditorMode::Normal, seq![Key::Char('x')]) == 0);
            assert(exact_action(b@, EditorMode::Normal, seq![Key::Char('x')]) is None);
            assert(count_matching(b@, EditorMode::Normal, seq![Key::Char('d')]) == 0);
            assert(exact_action(b@, EditorMode::Normal, seq![Key::Char('d')]) is None);
            assert(count_matching(b@, EditorMode::Normal, seq![Key::Char('d'), Key::Char('d')]) == 0);
            assert(exact_action(b@, EditorMode::Normal, seq![Key::Char('d'), Key::Char('d')]) is None);
        }
        // open a line below or above and enter insert mode
        let k43: Vec<Key> = vec![Key::Char('o')];
        proof {
            assert(k43@ =~= seq![Key::Char('o')]);
        }
        let c43: Vec<BaseAction> = vec![BaseAction::AppendNewline(1), BaseAction::SwitchMode(EditorMode::Insert)];
        proof {
            assert(c43@ =~= seq![BaseAction::AppendNewline(1), BaseAction::SwitchMode(EditorMode::Insert)]);
        }
        let ghost prev43 = b@;
        push_binding(&mut b, RegisterKey::new(k43, EditorMode::Normal), Action::Composed(c43));
        proof {
            assert(b@.drop_last() =~= prev43);
        }
        proof {
            assert(count_matching(b@, EditorMode::Normal, seq![Key::Char('x')]) == 0);
            assert(exact_action(b@, EditorMode::Normal, seq![Key::Char('x')]) is None);
            assert(count_matching(b@, EditorMode::Normal, seq![Key::Char('d')]) == 0);
            assert(exact_action(b@, EditorMode::Normal, seq![Key::Char('d')]) is None);
            assert(count_matching(b@, EditorMode::Normal, seq![Key::Char('d'), Key::Char('d')]) == 0);
            assert(exact_action(b@, EditorMode::Normal, seq![Key::Char('d'), Key::Char('d')]) is None);
        }
        let k44: Vec<Key> = vec![Key::Char('O')];
        proof {
            assert(k44@ =~= seq![Key::Char('O')]);
        }
        let c44: Vec<BaseAction> = vec![BaseAction::InsertNewline(1), BaseAction::SwitchMode(EditorMode::Insert)];
        proof {
            assert(c44@ =~= seq![BaseAction::InsertNewline(1), BaseAction::SwitchMode(EditorMode::Insert)]);
        }
        let ghost prev44 = b@;
        push_binding(&mut b, RegisterKey::new(k44, EditorMode::Normal), Action::Composed(c44));
        proof {
            assert(b@.drop_last() =~= prev44);
        }
        proof {
            assert(count_matching(b@, EditorMode::Normal, seq![Key::Char('x')]) == 0);
            assert(exact_action(b@, EditorMode::Normal, seq![Key::Char('x')]) is None);
            assert(count_matching(b@, EditorMode::Normal, seq![Key::Char('d')]) == 0);
            assert(exact_action(b@, EditorMode::Normal, seq![Key::Char('d')]) is None);
            assert(count_matching(b@, EditorMode::Normal, seq![Key::Char('d'), Key::Char('d')]) == 0);
            assert(exact_action(b@, EditorMode::Normal, seq![Key::Char('d'), Key::Char('d')]) is None);
        }
        // break the line
        let k45: Vec<Key> = vec![Key::Enter];
        proof {
            assert(k45@ =~= seq![Key::Enter]);
        }
        let ghost prev45 = b@;
        push_binding(&mut b, RegisterKey::new(k45, EditorMode::Insert), Action::Base(BaseAction::LineBreak(1)));
        proof {
            assert(b@.drop_last() =~= prev45);
        }
        proof {
            assert(count_matching(b@, EditorMode::Normal, seq![Key::Char('x')]) == 0);
            assert(exact_action(b@, EditorMode::Normal, seq![Key::Char('x')]) is None);
            assert(count_matching(b@, EditorMode::Normal, seq![Key::Char('d')]) == 0);
            assert(exact_action(b@, EditorMode::Normal, seq![Key::Char('d')]) is None);
            assert(count_matching(b@, EditorMode::Normal, seq![Key::Char('d'), Key::Char('d')]) == 0);
            assert(exact_action(b@, EditorMode::Normal, seq![Key::Char('d'), Key::Char('d')]) is None);
        }
        // remove the current character
        let k46: Vec<Key> = vec![Key::Char('x')];
        proof {
            assert(k46@ =~= seq![Key::Char('x')]);
        }
        let ghost prev46 = b@;
        push_binding(&mut b, RegisterKey::new(k46, EditorMode::Normal), Action::Base(BaseAction::RemoveChar(1)));
        proof {
            assert(b@.drop_last() =~= prev46);
        }
        proof {
            assert(count_matching(b@, EditorMode::Normal, seq![Key::Char('x')]) == 1);
            assert(exact_action(b@, EditorMode::Normal, seq![Key::Char('x')]) == Option::Some(ActionView::Base(BaseAction::RemoveChar(1))));
            assert(count_matching(b@, EditorMode::Normal, seq![Key::Char('d')]) == 0);
            assert(exact_action(b@, EditorMode::Normal, seq![Key::Char('d')]) is None);
            assert(count_matching(b@, EditorMode::Normal, seq![Key::Char('d'), Key::Char('d')]) == 0);
            assert(exact_action(b@, EditorMode::Normal, seq![Key::Char('d'), Key::Char('d')]) is None);
        }
        // delete the previous character
        let k47: Vec<Key> = vec![Key::Backspace];
        proof {
            assert(k47@ =~= seq![Key::Backspace]);
        }
        let ghost prev47 = b@;
        push_binding(&mut b, RegisterKey::new(k47, EditorMode::Insert), Action::Base(BaseAction::DeleteChar(1)));
        proof {
            assert(b@.drop_last() =~= prev47);
        }
        proof {
            assert(count_matching(b@, EditorMode::Normal, seq![Key::Char('x')]) == 1);
            assert(exact_action(b@, EditorMode::Normal, seq![Key::Char('x')]) == Option::Some(ActionView::Base(BaseAction::RemoveChar(1))));
            assert(count_matching(b@, EditorMode::Normal, seq![Key::Char('d')]) == 0);
            assert(exact_action(b@, EditorMode::Normal, seq![Key::Char('d')]) is None);
            assert(count_matching(b@, EditorMode::Normal, seq![Key::Char('d'), Key::Char('d')]) == 0);
            assert(exact_action(b@, EditorMode::Normal, seq![Key::Char('d'), Key::Char('d')]) is None);
        }
        // delete the current line
        let k48: Vec<Key> = vec![Key::Char('d'), Key::Char('d')];
        proof {
            assert(k48@ =~= seq![Key::Char('d'), Key::Char('d')]);
        }
        let ghost prev48 = b@;
        push_binding(&mut b, RegisterKey::new(k48, EditorMode::Normal), Action::Base(BaseAction::DeleteLine(1)));
        proof {
            assert(b@.drop_last() =~= prev48);
        }
        proof {
            assert(count_matching(b@, EditorMode::Normal, seq![Key::Char('x')]) == 1);
            assert(exact_action(b@, EditorMode::Normal, seq![Key::Char('x')]) == Option::Some(ActionView::Base(BaseAction::RemoveChar(1))));
            assert(count_matching(b@, EditorMode::Normal, seq![Key::Char('d')]) == 1);
            assert(exact_action(b@, EditorMode::Normal, seq![Key::Char('d')]) is None);
            assert(count_matching(b@, EditorMode::Normal, seq![Key::Char('d'), Key::Char('d')]) == 1);
            assert(exact_action(b@, EditorMode::Normal, seq![Key::Char('d'), Key::Char('d')]) == Option::Some(ActionView::Base(BaseAction::DeleteLine(1))));
        }
        // delete the selection
        let k49: Vec<Key> = vec![Key::Char('d')];
        proof {
            assert(k49@ =~= seq![Key::Char('d')]);
        }
        let ghost prev49 = b@;
        push_binding(&mut b, RegisterKey::new(k49, EditorMode::Visual), Action::Base(BaseAction::DeleteSelection));
        proof {
            assert(b@.drop_last() =~= prev49);
        }
        proof {
            assert(count_matching(b@, EditorMode::Normal, seq![Key::Char('x')]) == 1);
            assert(exact_action(b@, EditorMode::Normal, seq![Key::Char('x')]) == Option::Some(ActionView::Base(BaseAction::RemoveChar(1))));
            assert(count_matching(b@, EditorMode::Normal, seq![Key::Char('d')]) == 1);
            assert(exact_action(b@, EditorMode::Normal, seq![Key::Char('d')]) is None);
            assert(count_matching(b@, EditorMode::Normal, seq![Key::Char('d'), Key::Char('d')]) == 1);
            assert(exact_action(b@, EditorMode::Normal, seq![Key::Char('d'), Key::Char('d')]) == Option::Some(ActionView::Base(BaseAction::DeleteLine(1))));
        }
        // select between the nearest quotes
        let k50: Vec<Key> = vec![Key::Char('c'), Key::Char('i'), Key::Char('w')];
        proof {
            assert(k50@ =~= seq![Key::Char('c'), Key::Char('i'), Key::Char('w')]);
        }
        let ghost prev50 = b@;
        push_binding(&mut b, RegisterKey::new(k50, EditorMode::Normal), Action::Base(BaseAction::SelectBetween('"')));
        proof {
            assert(b@.drop_last() =~= prev50);
        }
        proof {
            assert(count_matching(b@, EditorMode::Normal, seq![Key::Char('x')]) == 1);
            assert(exact_action(b@, EditorMode::Normal, seq![Key::Char('x')]) == Option::Some(ActionView::Base(BaseAction::RemoveChar(1))));
            assert(count_matching(b@, EditorMode::Normal, seq![Key::Char('d')]) == 1);
            assert(exact_action(b@, EditorMode::Normal, seq![Key::Char('d')]) is None);
            assert(count_matching(b@, EditorMode::Normal, seq![Key::Char('d'), Key::Char('d')]) == 1);
            assert(exact_action(b@, EditorMode::Normal, seq![Key::Char('d'), Key::Char('d')]) == Option::Some(ActionView::Base(BaseAction::DeleteLine(1))));
        }
        // select the line
        let k51: Vec<Key> = vec![Key::Char('V')];
        proof {
            assert(k51@ =~= seq![Key::Char('V')]);
        }
        let ghost prev51 = b@;
        push_binding(&mut b, RegisterKey::new(k51, EditorMode::Normal), Action::Base(BaseAction::SelectLine));
        proof {
            assert(b@.drop_last() =~= prev51);
        }
        proof {
            assert(count_matching(b@, EditorMode::Normal, seq![Key::Char('x')]) == 1);
            assert(exact_action(b@, EditorMode::Normal, seq![Key::Char('x')]) == Option::Some(ActionView::Base(BaseAction::RemoveChar(1))));
            assert(count_matching(b@, EditorMode::Normal, seq![Key::Char('d')]) == 1);
            assert(exact_action(b@, EditorMode::Normal, seq![Key::Char('d')]) is None);
            assert(count_matching(b@, EditorMode::Normal, seq![Key::Char('d'), Key::Char('d')]) == 1);
            assert(exact_action(b@, EditorMode::Normal, seq![Key::Char('d'), Key::Char('d')]) == Option::Some(ActionView::Base(BaseAction::DeleteLine(1))));
        }
        // undo and redo
        let k52: Vec<Key> = vec![Key::Char('u')];
        proof {
            assert(k52@ =~= seq![Key::Char('u')]);
        }
        let ghost prev52 = b@;
        push_binding(&mut b, RegisterKey::new(k52, EditorMode::Normal), Action::Base(BaseAction::Undo));
        proof {
            assert(b@.drop_last() =~= prev52);
        }
        proof {
            assert(count_matching(b@, EditorMode::Normal, seq![Key::Char('x')]) == 1);
            assert(exact_action(b@, EditorMode::Normal, seq![Key::Char('x')]) == Option::Some(ActionView::Base(BaseAction::RemoveChar(1))));
            assert(count_matching(b@, EditorMode::Normal, seq![Key::Char('d')]) == 1);
            assert(exact_action(b@, EditorMode::Normal, seq![Key::Char('d')]) is None);
            assert(count_matching(b@, EditorMode::Normal, seq![Key::Char('d'), Key::Char('d')]) == 1);
            assert(exact_action(b@, EditorMode::Normal, seq![Key::Char('d'), Key::Char('d')]) == Option::Some(ActionView::Base(BaseAction::DeleteLine(1))));
        }
        let k53: Vec<Key> = vec![Key::Ctrl('r')];
        proof {
            assert(k53@ =~= seq![Key::Ctrl('r')]);
        }
        let ghost prev53 = b@;
        push_binding(&mut b, RegisterKey::new(k53, EditorMode::Normal), Action::Base(BaseAction::Redo));
        proof {
            assert(b@.drop_last() =~= prev53);
        }
        proof {
            assert(count_matching(b@, EditorMode::Normal, seq![Key::Char('x')]) == 1);
            assert(exact_action(b@, EditorMode::Normal, seq![Key::Char('x')]) == Option::Some(ActionView::Base(BaseAction::RemoveChar(1))));
            assert(count_matching(b@, EditorMode::Normal, seq![Key::Char('d')]) == 1);
            assert(exact_action(b@, EditorMode::Normal, seq![Key::Char('d')]) is None);
            assert(count_matching(b@, EditorMode::Normal, seq![Key::Char('d'), Key::Char('d')]) == 1);
            assert(exact_action(b@, EditorMode::Normal, seq![Key::Char('d'), Key::Char('d')]) == Option::Some(ActionView::Base(BaseAction::DeleteLine(1))));
        }
        // copy and paste
        let k54: Vec<Key> = vec![Key::Char('y')];
        proof {
            assert(k54@ =~= seq![Key::Char('y')]);
        }
        let ghost prev54 = b@;
        push_binding(&mut b, RegisterKey::new(k54, EditorMode::Visual), Action::Base(BaseAction::CopySelection));
        proof {
            assert(b@.drop_last() =~= prev54);
        }
        proof {
            assert(count_matching(b@, EditorMode::Normal, seq![Key::Char('x')]) == 1);
            assert(exact_action(b@, EditorMode::Normal, seq![Key::Char('x')]) == Option::Some(ActionView::Base(BaseAction::RemoveChar(1))));
            assert(count_matching(b@, EditorMode::Normal, seq![Key::Char('d')]) == 1);
            assert(exact_action(b@, EditorMode::Normal, seq![Key::Char('d')]) is None);
            assert(count_matching(b@, EditorMode::Normal, seq![Key::Char('d'), Key::Char('d')]) == 1);
            assert(exact_action(b@, EditorMode::Normal, seq![Key::Char('d'), Key::Char('d')]) == Option::Some(ActionView::Base(BaseAction::DeleteLine(1))));
        }
        let k55: Vec<Key> = vec![Key::Char('p')];
        proof {
            assert(k55@ =~= seq![Key::Char('p')]);
        }
        let ghost prev55 = b@;
        push_binding(&mut b, RegisterKey::new(k55, EditorMode::Normal), Action::Base(BaseAction::Paste));
        proof {
            assert(b@.drop_last() =~= prev55);
        }
        proof {
            assert(count_matching(b@, EditorMode::Normal, seq![Key::Char('x')]) == 1);
            assert(exact_action(b@, EditorMode::Normal, seq![Key::Char('x')]) == Option::Some(ActionView::Base(BaseAction::RemoveChar(1))));
            assert(count_matching(b@, EditorMode::Normal, seq![Key::Char('d')]) == 1);
            assert(exact_action(b@, EditorMode::Normal, seq![Key::Char('d')]) is None);
            assert(count_matching(b@, EditorMode::Normal, seq![Key::Char('d'), Key::Char('d')]) == 1);
            assert(exact_action(b@, EditorMode::Normal, seq![Key::Char('d'), Key::Char('d')]) == Option::Some(ActionView::Base(BaseAction::DeleteLine(1))));
        }
        let k56: Vec<Key> = vec![Key::Char('p')];
        proof {
            assert(k56@ =~= seq![Key::Char('p')]);
        }
        let ghost prev56 = b@;
        push_binding(&mut b, RegisterKey::new(k56, EditorMode::Visual), Action::Base(BaseAction::Paste));
        proof {
            assert(b@.drop_last() =~= prev56);
        }
        proof {
            assert(count_matching(b@, EditorMode::Normal, seq![Key::Char('x')]) == 1);
            assert(exact_action(b@, EditorMode::Normal, seq![Key::Char('x')]) == Option::Some(ActionView::Base(BaseAction::RemoveChar(1))));
            assert(count_matching(b@, EditorMode::Normal, seq![Key::Char('d')]) == 1);
            assert(exact_action(b@, EditorMode::Normal, seq![Key::Char('d')]) is None);
            assert(count_matching(b@, EditorMode::Normal, seq![Key::Char('d'), Key::Char('d')]) == 1);
            assert(exact_action(b@, EditorMode::Normal, seq![Key::Char('d'), Key::Char('d')]) == Option::Some(ActionView::Base(BaseAction::DeleteLine(1))));
        }
        EditorInput::new(b)
    }
}

impl EditorInput {
    /// Creates a register over the given bindings, with an empty pending
    /// sequence.
    pub fn new(register: Vec<Binding>) -> (r: EditorInput)
        ensures
            r.lookup@.len() == 0,
            r.register == register,
    {
        EditorInput { lookup: Vec::new(), register }
    }

    /// Inserts a binding: an existing binding with the same lookup key is
    /// replaced (the first one), otherwise the binding is appended.
    pub fn insert(&mut self, k: RegisterKey, v: Action)
        ensures
            final(self).lookup == old(self).lookup,
            ({
                let p = insert_pos(old(self).register@, k);
                if p < old(self).register@.len() {
                    final(self).register@ == old(self).register@.update(
                        p,
                        Binding { key: k, action: v },
                    )
                } else {
                    final(self).register@ == old(self).register@.push(
                        Binding { key: k, action: v },
                    )
                }
            }),
    {
        let ghost reg0 = self.register@;
        let mut i: usize = 0;
        let n = self.register.len();
        while i < n
            invariant
                i <= n,
                n == self.register@.len(),
                self.register@ == reg0,
                self.lookup == old(self).lookup,
                reg0 == old(self).register@,
                forall|j: int| 0 <= j < i ==> !key_eq(#[trigger] reg0[j].key, k),
            decreases n - i,
        {
            let same_mode = self.register[i].key.mode == k.mode;
            let same_keys = keys_equal(&self.register[i].key.keys, &k.keys);
            if same_mode && same_keys {
                proof {
                    lemma_insert_pos(reg0, k, i as int);
                }
                self.register[i] = Binding { key: k, action: v };
                return ;
            }
            i += 1;
        }
        proof {
            lemma_insert_pos(reg0, k, n as int);
        }
        self.register.push(Binding { key: k, action: v });
    }

    /// Resolves one key: appends it to the pending sequence and fires the
    /// bound action exactly when the pending sequence is the one live
    /// binding's full sequence; see [`get_step`].
    pub fn get(&mut self, c: Key, mode: EditorMode) -> (r: Option<Action>)
        ensures
            final(self).register == old(self).register,
            ({
                let (lk, act) = get_step(old(self).register@, old(self).lookup@, c, mode);
                &&& final(self).lookup@ == lk
                &&& match (r, act) {
                    (Option::Some(a), Option::Some(av)) => a@ == av,
                    (Option::None, Option::None) => true,
                    _ => false,
                }
            }),
    {
        self.lookup.push(c);
        let ghost pending = self.lookup@;
        let ghost reg = self.register@;
        let n = self.register.len();
        let mut count: usize = 0;
        let mut exact: Option<usize> = None;
        let mut i: usize = 0;
        while i < n
            invariant
                i <= n,
                n == self.register@.len(),
                self.register@ == reg,
                self.lookup@ == pending,
                count <= i,
                count == count_matching(reg.subrange(0, i as int), mode, pending),
                match exact {
                    Option::Some(j) => j < i && reg[j as int].key.mode == mode
                        && reg[j as int].key.keys@ == pending && exact_action(
                        reg.subrange(0, i as int),
                        mode,
                        pending,
                    ) == Option::Some(reg[j as int].action@),
                    Option::None => exact_action(reg.subrange(0, i as int), mode, pending)
                        is None,
                },
            decreases n - i,
        {
            let ghost pre = reg.subrange(0, i as int);
            let b = &self.register[i];
            let same_mode = b.key.mode == mode;
            let pref = starts_with(&b.key.keys, &self.lookup);
            let is_exact = same_mode && b.key.keys.len() == self.lookup.len() && pref;
            if same_mode && pref {
                count += 1;
                if is_exact {
                    exact = Some(i);
                }
            }
            proof {
                let cur = reg.subrange(0, i + 1);
                assert(cur.drop_last() =~= pre);
                assert(cur.last() == reg[i as int]);
                if is_exact {
                    assert(reg[i as int].key.keys@.subrange(0, pending.len() as int) =~= reg[
                        i as int
                    ].key.keys@);
                }
                if reg[i as int].key.mode == mode && reg[i as int].key.keys@ == pending {
                    assert(is_prefix_of(pending, reg[i as int].key.keys@)) by {
                        assert(reg[i as int].key.keys@.subrange(0, pending.len() as int)
                            =~= pending);
                    }
                }
            }
            i += 1;
        }
        proof {
            assert(reg.subrange(0, n as int) =~= reg);
        }
        if count == 0 {
            self.lookup = Vec::new();
            proof {
                assert(self.lookup@ =~= Seq::<Key>::empty());
            }
            return None;
        }
        if count == 1 {
            match exact {
                Option::Some(j) => {
                    let act = self.register[j].action.clone();
                    self.lookup = Vec::new();
                    proof {
                        assert(self.lookup@ =~= Seq::<Key>::empty());
                    }
                    return Some(act);
                },
                Option::None => {
                    return None;
                },
            }
        }
        None
    }
}


} // verus!
