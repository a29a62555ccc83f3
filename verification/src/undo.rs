//! The undo history of an editor.
//!
//! Each undoable action stores two states: the one to restore when it is undone,
//! and the one to restore when it is redone. The newest action is at the front of
//! the history.

use std::collections::VecDeque;
use vstd::prelude::*;

verus! {

/// The longest undo history that is kept; older actions are forgotten.
pub const MAX_UNDO_STACK: usize = 128;

/// One undoable action.
#[derive(Debug)]
pub struct UndoData<S> {
    /// The state to restore when redoing this action.
    pub redo_state: S,
    /// The state to restore when undoing this action. This is not necessarily the
    /// redo state of the previous action: when undoing a drawing, for example, the
    /// time goes back to the start of the drawing.
    pub undo_state: S,
    /// A description of the action, for the menus.
    pub description: String,
    /// Transient actions are forgotten as soon as a non-transient action is
    /// recorded. They are used while a drawing is in progress: every segment gets
    /// a transient undo state, which is replaced by a single one for the whole
    /// drawing once it is finished.
    pub transient: bool,
}

/// In `s`, every transient action comes before every non-transient one.
pub open spec fn transient_prefix<S>(s: Seq<UndoData<S>>) -> bool {
    forall|i: int, j: int| 0 <= i < j < s.len() && s[j].transient ==> s[i].transient
}

/// The position of the first non-transient action in `s` at or after `i`, or
/// the length of `s` if there is none.
pub open spec fn first_permanent_from<S>(s: Seq<UndoData<S>>, i: int) -> int
    decreases s.len() - i,
{
    if i < 0 || i >= s.len() {
        s.len() as int
    } else if !s[i].transient {
        i
    } else {
        first_permanent_from(s, i + 1)
    }
}

/// The position of the first non-transient action in `s`, or its length.
pub open spec fn first_permanent<S>(s: Seq<UndoData<S>>) -> int {
    first_permanent_from(s, 0)
}

/// The history after recording `entry` on top of `kept`, the actions that had
/// not been undone: a non-transient entry first forgets the transient actions on
/// top, and the oldest action is forgotten if the history grows too long.
pub open spec fn pushed_history<S>(kept: Seq<UndoData<S>>, entry: UndoData<S>) -> Seq<UndoData<S>> {
    let base = if entry.transient {
        kept
    } else {
        kept.skip(first_permanent(kept))
    };
    let s = seq![entry] + base;
    if s.len() > MAX_UNDO_STACK {
        s.drop_last()
    } else {
        s
    }
}

pub(crate) proof fn lemma_first_permanent_from<S>(s: Seq<UndoData<S>>, i: int)
    requires
        0 <= i <= s.len(),
        forall|k: int| 0 <= k < i ==> s[k].transient,
    ensures
        0 <= first_permanent_from(s, i) <= s.len(),
        forall|k: int| 0 <= k < first_permanent_from(s, i) ==> s[k].transient,
        first_permanent_from(s, i) < s.len() ==> !s[first_permanent_from(s, i)].transient,
    decreases s.len() - i,
{
    if i < s.len() && s[i].transient {
        lemma_first_permanent_from(s, i + 1);
    }
}

/// The undo history.
#[derive(Debug)]
pub struct UndoStack<S> {
    // The newest action is at position 0.
    stack: VecDeque<UndoData<S>>,
    // The number of actions that have been undone. When this is zero nothing was
    // undone; when it is `stack.len()` there is nothing left to undo.
    current_state: usize,
}

impl<S> UndoStack<S> {
    /// The recorded actions, newest first.
    pub closed spec fn entries(&self) -> Seq<UndoData<S>> {
        self.stack@
    }

    /// The number of actions that are currently undone.
    pub closed spec fn undone(&self) -> int {
        self.current_state as int
    }

    /// The history is bounded, its position is within it, and its transient
    /// actions are all on top.
    pub open spec fn wf(&self) -> bool {
        &&& 0 <= self.undone() <= self.entries().len() <= MAX_UNDO_STACK
        &&& transient_prefix(self.entries())
    }
}

impl<S: Clone> UndoStack<S> {
    /// Creates a new, empty undo stack.
    pub fn new() -> (r: UndoStack<S>)
        ensures
            r.wf(),
            r.entries().len() == 0,
            r.undone() == 0,
    {
        UndoStack { stack: VecDeque::new(), current_state: 0 }
    }

    fn do_push(&mut self, undo_state: S, redo_state: S, description: String, transient: bool)
        requires
            old(self).wf(),
        ensures
            final(self).wf(),
            final(self).undone() == 0,
            final(self).entries() == pushed_history(
                old(self).entries().skip(old(self).undone()),
                UndoData { redo_state, undo_state, description, transient },
            ),
    {
        let ghost entry = UndoData { redo_state, undo_state, description, transient };
        // In case the current state is not the newest one, forget all the newer ones.
        let kept = self.stack.split_off(self.current_state);
        self.stack = kept;
        let ghost kept_seq = self.stack@;
        assert(kept_seq =~= old(self).entries().skip(old(self).undone()));
        assert(transient_prefix(kept_seq));
        // In case the top of the stack is transient and this one isn't, forget the transient ones.
        if !transient {
            let mut last_permanent: usize = 0;
            while last_permanent < self.stack.len() && self.stack[last_permanent].transient
                invariant
                    self.stack@ == kept_seq,
                    0 <= last_permanent <= kept_seq.len(),
                    forall|k: int| 0 <= k < last_permanent ==> kept_seq[k].transient,
                decreases kept_seq.len() - last_permanent,
            {
                last_permanent = last_permanent + 1;
            }
            proof {
                lemma_first_permanent_from(kept_seq, 0);
                let f = first_permanent(kept_seq);
                assert(last_permanent == f) by {
                    if last_permanent < f {
                        assert(kept_seq[last_permanent as int].transient);
                    } else if f < last_permanent {
                        assert(kept_seq[f].transient);
                    }
                }
            }
            let rest = self.stack.split_off(last_permanent);
            self.stack = rest;
        }
        let ghost base = self.stack@;
        assert(transient_prefix(base));
        assert(!transient ==> forall|k: int| 0 <= k < base.len() ==> !base[k].transient) by {
            if !transient {
                lemma_first_permanent_from(kept_seq, 0);
                let f = first_permanent(kept_seq);
                assert forall|k: int| 0 <= k < base.len() implies !base[k].transient by {
                    assert(base[k] == kept_seq[f + k]);
                    assert(!kept_seq[f].transient);
                    if k > 0 && kept_seq[f + k].transient {
                        assert(kept_seq[f].transient);
                    }
                }
            }
        }
        let new_state = UndoData { undo_state, redo_state, description, transient };
        self.stack.push_front(new_state);
        if self.stack.len() > MAX_UNDO_STACK {
            self.stack.pop_back();
        }
        self.current_state = 0;
        assert(self.stack@ =~= pushed_history(kept_seq, entry));
        assert(transient_prefix(self.stack@)) by {
            let s = self.stack@;
            assert forall|i: int, j: int|
                0 <= i < j < s.len() && s[j].transient implies s[i].transient by {
                assert(s[j] == base[j - 1]);
                if i > 0 {
                    assert(s[i] == base[i - 1]);
                }
            }
        }
    }

    /// Registers a new action that can be undone. Any actions that were previously
    /// undone are forgotten, and so are the transient actions on top of the history.
    ///
    /// `undo_state` is the state that will be restored when the action is undone, and
    /// `redo_state` is the state that will be restored when the action is redone.
    pub fn push(&mut self, undo_state: S, redo_state: S, description: String)
        requires
            old(self).wf(),
        ensures
            final(self).wf(),
            final(self).undone() == 0,
            final(self).entries() == pushed_history(
                old(self).entries().skip(old(self).undone()),
                UndoData { redo_state, undo_state, description, transient: false },
            ),
    {
        self.do_push(undo_state, redo_state, description, false);
    }

    /// Registers a new transient action that can be undone. Any actions that were
    /// previously undone are forgotten.
    ///
    /// Transient actions are all forgotten whenever a non-transient action is pushed.
    pub fn push_transient(&mut self, undo_state: S, redo_state: S, description: String)
        requires
            old(self).wf(),
        ensures
            final(self).wf(),
            final(self).undone() == 0,
            final(self).entries() == pushed_history(
                old(self).entries().skip(old(self).undone()),
                UndoData { redo_state, undo_state, description, transient: true },
            ),
    {
        self.do_push(undo_state, redo_state, description, true);
    }

    /// If there is a most recent action to undo, rewinds the undo stack past that
    /// action and returns the state that should be restored.
    pub fn undo(&mut self) -> (r: Option<S>)
        requires
            old(self).wf(),
        ensures
            final(self).wf(),
            final(self).entries() == old(self).entries(),
            old(self).undone() < old(self).entries().len() ==> {
                &&& final(self).undone() == old(self).undone() + 1
                &&& r matches Some(s) && cloned(
                    old(self).entries()[old(self).undone()].undo_state,
                    s,
                )
            },
            old(self).undone() == old(self).entries().len() ==> {
                &&& final(self).undone() == old(self).undone()
                &&& r is None
            },
    {
        if self.current_state < self.stack.len() {
            let state = self.stack[self.current_state].undo_state.clone();
            self.current_state = self.current_state + 1;
            Some(state)
        } else {
            None
        }
    }

    /// If there is an undone action that can be redone, advances the undo stack to
    /// that action and returns the state that should be restored.
    pub fn redo(&mut self) -> (r: Option<S>)
        requires
            old(self).wf(),
        ensures
            final(self).wf(),
            final(self).entries() == old(self).entries(),
            old(self).undone() > 0 ==> {
                &&& final(self).undone() == old(self).undone() - 1
                &&& r matches Some(s) && cloned(
                    old(self).entries()[old(self).undone() - 1].redo_state,
                    s,
                )
            },
            old(self).undone() == 0 ==> {
                &&& final(self).undone() == 0
                &&& r is None
            },
    {
        if self.current_state > 0 {
            self.current_state = self.current_state - 1;
            Some(self.stack[self.current_state].redo_state.clone())
        } else {
            None
        }
    }
}

impl<S> UndoStack<S> {
    /// Returns a description of the action that can be undone.
    pub fn undo_description(&self) -> (r: Option<&str>)
        requires
            self.wf(),
        ensures
            self.undone() < self.entries().len() ==> (r matches Some(d) && d@
                == self.entries()[self.undone()].description@),
            self.undone() == self.entries().len() ==> r is None,
    {
        if self.current_state < self.stack.len() {
            Some(self.stack[self.current_state].description.as_str())
        } else {
            None
        }
    }

    /// Returns a description of the action that can be redone.
    pub fn redo_description(&self) -> (r: Option<&str>)
        requires
            self.wf(),
        ensures
            self.undone() > 0 ==> (r matches Some(d) && d@ == self.entries()[self.undone()
                - 1].description@),
            self.undone() == 0 ==> r is None,
    {
        if self.current_state > 0 {
            Some(self.stack[self.current_state - 1].description.as_str())
        } else {
            None
        }
    }

    /// Returns `true` if there is an action to undo.
    pub fn can_undo(&self) -> (r: bool)
        ensures
            r == (self.undone() < self.entries().len()),
    {
        self.current_state < self.stack.len()
    }

    /// Returns `true` if there is an action to redo.
    pub fn can_redo(&self) -> (r: bool)
        ensures
            r == (self.undone() > 0),
    {
        self.current_state > 0
    }
}

} // verus!

verus! {

/// Recording a non-transient action forgets every transient action.
pub proof fn law_push_forgets_transient<S>(before: UndoStack<S>, after: UndoStack<S>, entry: UndoData<S>)
    requires
        before.wf(),
        !entry.transient,
        after.entries() == pushed_history(before.entries().skip(before.undone()), entry),
    ensures
        forall|i: int| 0 <= i < after.entries().len() ==> !(#[trigger] after.entries()[i]).transient,
{
    let kept = before.entries().skip(before.undone());
    assert(transient_prefix(kept));
    lemma_first_permanent_from(kept, 0);
    let f = first_permanent(kept);
    let base = kept.skip(f);
    assert forall|i: int| 0 <= i < after.entries().len() implies !(
    #[trigger] after.entries()[i]).transient by {
        if i > 0 {
            let k = i - 1;
            assert(after.entries()[i] == base[k]);
            assert(base[k] == kept[f + k]);
            assert(!kept[f].transient);
            if k > 0 && kept[f + k].transient {
                assert(kept[f].transient);
            }
        }
    }
}

/// Recording a transient action forgets only what had been undone: every action
/// that could still be undone stays, in the same order, behind the new one, as far
/// as the size cap allows.
pub proof fn law_transient_push_keeps_history<S>(
    before: UndoStack<S>,
    after: UndoStack<S>,
    entry: UndoData<S>,
)
    requires
        before.wf(),
        entry.transient,
        after.entries() == pushed_history(before.entries().skip(before.undone()), entry),
    ensures
        after.entries().len() == if before.entries().len() - before.undone() < MAX_UNDO_STACK {
            before.entries().len() - before.undone() + 1
        } else {
            MAX_UNDO_STACK as int
        },
        after.entries()[0] == entry,
        forall|i: int|
            1 <= i < after.entries().len() ==> #[trigger] after.entries()[i] == before.entries()[before.undone()
                + i - 1],
{
    let kept = before.entries().skip(before.undone());
    assert forall|i: int| 1 <= i < after.entries().len() implies #[trigger] after.entries()[i]
        == before.entries()[before.undone() + i - 1] by {
        assert(after.entries()[i] == kept[i - 1]);
    }
}

/// Recording a non-transient action forgets what had been undone and the
/// transient actions on top of the history, and nothing else: behind the new
/// action come, in the same order, all the other actions that could be undone,
/// as far as the size cap allows. The result `k` is the number of transient
/// actions that were forgotten.
pub proof fn law_push_keeps_permanent_history<S>(
    before: UndoStack<S>,
    after: UndoStack<S>,
    entry: UndoData<S>,
) -> (k: int)
    requires
        before.wf(),
        !entry.transient,
        after.entries() == pushed_history(before.entries().skip(before.undone()), entry),
    ensures
        after.entries()[0] == entry,
        0 <= k <= before.entries().len() - before.undone(),
        forall|j: int| 0 <= j < k ==> (#[trigger] before.entries()[before.undone() + j]).transient,
        before.undone() + k < before.entries().len() ==> !before.entries()[before.undone() + k].transient,
        after.entries().len() == if before.entries().len() - before.undone() - k < MAX_UNDO_STACK {
            before.entries().len() - before.undone() - k + 1
        } else {
            MAX_UNDO_STACK as int
        },
        forall|i: int|
            1 <= i < after.entries().len() ==> #[trigger] after.entries()[i] == before.entries()[before.undone()
                + k + i - 1],
{
    let kept = before.entries().skip(before.undone());
    lemma_first_permanent_from(kept, 0);
    let f = first_permanent(kept);
    assert forall|j: int| 0 <= j < f implies (#[trigger] before.entries()[before.undone() + j]).transient by {
        assert(kept[j].transient);
    }
    assert forall|i: int| 1 <= i < after.entries().len() implies #[trigger] after.entries()[i]
        == before.entries()[before.undone() + f + i - 1] by {
        assert(after.entries()[i] == kept.skip(f)[i - 1]);
    }
    f
}

/// The action just recorded is the one that is undone next, and nothing can be
/// redone after recording.
pub proof fn law_push_then_undo<S>(before: UndoStack<S>, after: UndoStack<S>, entry: UndoData<S>)
    requires
        before.wf(),
        after.undone() == 0,
        after.entries() == pushed_history(before.entries().skip(before.undone()), entry),
    ensures
        after.entries().len() > 0,
        after.entries()[after.undone()] == entry,
        !(after.undone() > 0),
{
}

/// Undoing and then redoing returns to the same position in the history, and the
/// redo restores the redo state of the action that was undone.
pub proof fn law_undo_then_redo<S>(start: UndoStack<S>, undone: UndoStack<S>, redone: UndoStack<S>)
    requires
        start.wf(),
        start.undone() < start.entries().len(),
        undone.entries() == start.entries(),
        undone.undone() == start.undone() + 1,
        redone.entries() == undone.entries(),
        redone.undone() == undone.undone() - 1,
    ensures
        redone.entries() == start.entries(),
        redone.undone() == start.undone(),
        undone.entries()[undone.undone() - 1] == start.entries()[start.undone()],
{
}

} // verus!

verus! {

/// The smaller of `n` and the history limit.
pub open spec fn capped(n: int) -> int {
    if n < MAX_UNDO_STACK {
        n
    } else {
        MAX_UNDO_STACK as int
    }
}

/// The pushes of `actions` made `stacks`, starting from an empty history.
pub open spec fn pushes_from_empty<S>(stacks: Seq<UndoStack<S>>, actions: Seq<UndoData<S>>) -> bool {
    &&& stacks.len() == actions.len() + 1
    &&& stacks[0].entries().len() == 0
    &&& stacks[0].undone() == 0
    &&& forall|k: int| 0 <= k < actions.len() ==> !(#[trigger] actions[k]).transient
    &&& forall|k: int|
        0 <= k < actions.len() ==> (#[trigger] stacks[k + 1]).entries() == pushed_history(
            stacks[k].entries().skip(stacks[k].undone()),
            actions[k],
        ) && stacks[k + 1].undone() == 0
}

proof fn lemma_pushes_from_empty<S>(stacks: Seq<UndoStack<S>>, actions: Seq<UndoData<S>>, k: int)
    requires
        pushes_from_empty(stacks, actions),
        0 <= k <= actions.len(),
    ensures
        stacks[k].entries().len() == capped(k),
        k >= 1 ==> stacks[k].undone() == 0,
        forall|i: int| 0 <= i < stacks[k].entries().len() ==> !(#[trigger] stacks[k].entries()[i]).transient,
    decreases k,
{
    if k > 0 {
        lemma_pushes_from_empty(stacks, actions, k - 1);
        let j = k - 1;
        let prev = stacks[j];
        let next = stacks[k];
        assert(stacks[j + 1].entries() == pushed_history(prev.entries().skip(prev.undone()), actions[j]));
        let kept = prev.entries().skip(prev.undone());
        if j == 0 {
            assert(kept.len() == 0);
        } else {
            assert(kept =~= prev.entries());
        }
        assert(first_permanent(kept) == 0) by {
            if kept.len() > 0 {
                assert(!kept[0].transient);
            }
        }
        assert(kept.skip(0) =~= kept);
        let s = seq![actions[j]] + kept;
        assert forall|i: int| 0 <= i < next.entries().len() implies !(#[trigger] next.entries()[i]).transient by {
            assert(next.entries()[i] == s[i]);
            if i > 0 {
                assert(s[i] == kept[i - 1]);
            }
        }
    }
}

/// After `n` actions are recorded, one after the other, on an empty history,
/// the history holds the newest `min(n, 128)` of them and nothing is undone: so
/// exactly that many undos succeed (see [`UndoStack::undo`]) and the next one
/// does not. `stacks[k]` is the history after `k` actions.
pub proof fn law_history_keeps_at_most_max<S>(stacks: Seq<UndoStack<S>>, actions: Seq<UndoData<S>>)
    requires
        pushes_from_empty(stacks, actions),
    ensures
        forall|k: int|
            1 <= k < stacks.len() ==> (#[trigger] stacks[k]).entries().len() - stacks[k].undone()
                == capped(k),
{
    assert forall|k: int| 1 <= k < stacks.len() implies (#[trigger] stacks[k]).entries().len()
        - stacks[k].undone() == capped(k) by {
        lemma_pushes_from_empty(stacks, actions, k);
    }
}

} // verus!
