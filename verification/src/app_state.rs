//! The registry of open editors: each editor window is linked to the state of
//! the editor that it shows.

use std::collections::HashMap;
use vstd::prelude::*;

verus! {

broadcast use vstd::std_specs::hash::group_hash_axioms;

/// The editors that are open, and the windows that show them.
///
/// Editors are numbered in the order in which they were opened; a window is
/// known by the number that the windowing system gave it.
pub struct AppState<E> {
    next_editor_id: u32,
    editors: HashMap<u32, E>,
    windows: HashMap<u64, u32>,
}

/// The registry's invariant, over its three parts: every editor number was
/// handed out already, every window shows an editor that is open, and no two
/// windows show the same editor.
pub open spec fn registry_wf<E>(editors: Map<u32, E>, windows: Map<u64, u32>, next: nat) -> bool {
    &&& forall|id: u32| #[trigger] editors.contains_key(id) ==> id < next
    &&& forall|w: u64| #[trigger]
        windows.contains_key(w) ==> windows[w] < next && editors.contains_key(windows[w])
    &&& forall|w1: u64, w2: u64|
        #![trigger windows[w1], windows[w2]]
        windows.contains_key(w1) && windows.contains_key(w2) && w1 != w2 ==> windows[w1]
            != windows[w2]
}

impl<E> AppState<E> {
    /// The number that the next editor will get.
    pub closed spec fn next_id(&self) -> nat {
        self.next_editor_id as nat
    }

    /// The open editors, by number.
    pub closed spec fn editors(&self) -> Map<u32, E> {
        self.editors@
    }

    /// The windows, each with the number of the editor that it shows.
    pub closed spec fn windows(&self) -> Map<u64, u32> {
        self.windows@
    }

    pub open spec fn wf(&self) -> bool {
        registry_wf(self.editors(), self.windows(), self.next_id())
    }

    /// A registry with no editor open.
    pub fn new() -> (r: Self)
        ensures
            r.wf(),
            r.next_id() == 0,
            r.editors() == Map::<u32, E>::empty(),
            r.windows() == Map::<u64, u32>::empty(),
    {
        AppState { next_editor_id: 0, editors: HashMap::new(), windows: HashMap::new() }
    }

    /// The number that the next editor will get.
    pub fn next_editor_id(&self) -> (r: u32)
        ensures
            r == self.next_id(),
    {
        self.next_editor_id
    }

    /// Opens an editor with the given state in the given window, and returns the
    /// editor's number.
    pub fn add_editor(&mut self, state: E, window: u64) -> (id: u32)
        requires
            old(self).wf(),
            old(self).next_id() < u32::MAX,
        ensures
            final(self).wf(),
            id == old(self).next_id(),
            final(self).next_id() == old(self).next_id() + 1,
            final(self).editors() == old(self).editors().insert(id, state),
            final(self).windows() == old(self).windows().insert(window, id),
    {
        let id = self.next_editor_id;
        self.next_editor_id = self.next_editor_id + 1;
        self.editors.insert(id, state);
        self.windows.insert(window, id);
        id
    }

    /// Closes the editor that the given window shows, and forgets the window.
    /// Returns whether the window was known.
    pub fn remove_editor(&mut self, window: u64) -> (found: bool)
        requires
            old(self).wf(),
        ensures
            final(self).wf(),
            found == old(self).windows().contains_key(window),
            found ==> final(self).editors() == old(self).editors().remove(
                old(self).windows()[window],
            ),
            !found ==> final(self).editors() == old(self).editors(),
            final(self).windows() == old(self).windows().remove(window),
            final(self).next_id() == old(self).next_id(),
    {
        let found = match self.windows.get(&window) {
            Some(editor_id) => {
                let editor_id: u32 = *editor_id;
                self.editors.remove(&editor_id);
                true
            },
            None => false,
        };
        self.windows.remove(&window);
        found
    }

    /// The state of the editor with the given number, if it is open.
    pub fn editor(&self, id: u32) -> (r: Option<&E>)
        ensures
            r == (if self.editors().contains_key(id) {
                Some(&self.editors()[id])
            } else {
                None
            }),
    {
        self.editors.get(&id)
    }
}

impl<E> Default for AppState<E> {
    fn default() -> (r: Self)
        ensures
            r.wf(),
            r.next_id() == 0,
            r.editors() == Map::<u32, E>::empty(),
            r.windows() == Map::<u64, u32>::empty(),
    {
        AppState::new()
    }
}

/// Closing the window that was just opened, in a window that was not open
/// before, gives back the registry's editors and windows as they were.
pub proof fn law_remove_undoes_add<E>(
    editors: Map<u32, E>,
    windows: Map<u64, u32>,
    next: u32,
    state: E,
    window: u64,
)
    requires
        registry_wf(editors, windows, next as nat),
        !windows.contains_key(window),
    ensures
        editors.insert(next, state).remove(windows.insert(window, next)[window]) == editors,
        windows.insert(window, next).remove(window) == windows,
{
    assert(!editors.contains_key(next));
    assert(editors.insert(next, state).remove(next) =~= editors);
    assert(windows.insert(window, next).remove(window) =~= windows);
}

} // verus!
