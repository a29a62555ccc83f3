//! An undo history of whole editor states, as kept by the single-window editor:
//! every change pushes a snapshot, and undo/redo move between snapshots.

use vstd::prelude::*;

verus! {

/// The longest history that is kept; older snapshots are forgotten.
pub const MAX_UNDO_STACK: usize = 128;

/// A history of snapshots, newest first.
#[derive(Debug)]
pub struct UndoStack<S> {
    stack: Vec<S>,
    current_state: usize,
}

impl<S> UndoStack<S> {
    /// The snapshots, newest first.
    pub closed spec fn states(&self) -> Seq<S> {
        self.stack@
    }

    /// The position of the current snapshot.
    pub closed spec fn position(&self) -> int {
        self.current_state as int
    }

    /// There is always a current snapshot, and the history is bounded.
    pub open spec fn wf(&self) -> bool {
        &&& 0 <= self.position() < self.states().len() <= MAX_UNDO_STACK
    }
}

impl<S: Clone> UndoStack<S> {
    /// Creates a history holding just the initial state.
    pub fn new(initial_state: S) -> (r: UndoStack<S>)
        ensures
            r.wf(),
            r.states() == seq![initial_state],
            r.position() == 0,
    {
        let mut stack = Vec::new();
        stack.push(initial_state);
        UndoStack { stack, current_state: 0 }
    }

    /// Records a new snapshot as the current state. Snapshots that had been
    /// undone are forgotten, and so is the oldest one if the history grows too long.
    pub fn push(&mut self, state: &S)
        requires
            old(self).wf(),
        ensures
            final(self).wf(),
            final(self).position() == 0,
            ({
                let kept = old(self).states().skip(old(self).position());
                &&& final(self).states().len() == if kept.len() + 1 > MAX_UNDO_STACK {
                    MAX_UNDO_STACK as int
                } else {
                    (kept.len() + 1) as int
                }
                &&& cloned(*state, final(self).states()[0])
                &&& forall|i: int|
                    1 <= i < final(self).states().len() ==> final(self).states()[i] == kept[i
                        - 1]
            }),
    {
        let kept = self.stack.split_off(self.current_state);
        self.stack = kept;
        let ghost kept_seq = self.stack@;
        assert(kept_seq =~= old(self).states().skip(old(self).position()));
        let snapshot = state.clone();
        self.stack.insert(0, snapshot);
        if self.stack.len() > MAX_UNDO_STACK {
            self.stack.pop();
        }
        self.current_state = 0;
    }

    /// Moves to the previous snapshot, if there is one, and returns it.
    pub fn undo(&mut self) -> (r: Option<S>)
        requires
            old(self).wf(),
        ensures
            final(self).wf(),
            final(self).states() == old(self).states(),
            old(self).position() + 1 < old(self).states().len() ==> {
                &&& final(self).position() == old(self).position() + 1
                &&& r matches Some(s) && cloned(final(self).states()[final(self).position()], s)
            },
            old(self).position() + 1 == old(self).states().len() ==> {
                &&& final(self).position() == old(self).position()
                &&& r is None
            },
    {
        if self.current_state + 1 < self.stack.len() {
            self.current_state = self.current_state + 1;
            Some(self.stack[self.current_state].clone())
        } else {
            None
        }
    }

    /// Moves to the next snapshot, if one was undone, and returns it.
    pub fn redo(&mut self) -> (r: Option<S>)
        requires
            old(self).wf(),
        ensures
            final(self).wf(),
            final(self).states() == old(self).states(),
            old(self).position() > 0 ==> {
                &&& final(self).position() == old(self).position() - 1
                &&& r matches Some(s) && cloned(final(self).states()[final(self).position()], s)
            },
            old(self).position() == 0 ==> {
                &&& final(self).position() == 0
                &&& r is None
            },
    {
        if self.current_state > 0 {
            self.current_state = self.current_state - 1;
            Some(self.stack[self.current_state].clone())
        } else {
            None
        }
    }
}

/// Undo right after a push goes back to the snapshot that was current before the push.
pub proof fn law_undo_after_push_restores<S>(before: UndoStack<S>, after: UndoStack<S>)
    requires
        before.wf(),
        after.wf(),
        after.position() == 0,
        ({
            let kept = before.states().skip(before.position());
            &&& after.states().len() == if kept.len() + 1 > MAX_UNDO_STACK {
                MAX_UNDO_STACK as int
            } else {
                (kept.len() + 1) as int
            }
            &&& forall|i: int|
                1 <= i < after.states().len() ==> after.states()[i] == kept[i - 1]
        }),
    ensures
        after.position() + 1 < after.states().len(),
        after.states()[after.position() + 1] == before.states()[before.position()],
{
    let kept = before.states().skip(before.position());
    assert(kept.len() >= 1);
    assert(after.states()[1] == kept[0]);
}

} // verus!
