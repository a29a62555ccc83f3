//! A read-only view of data through a function, as the editor's widgets use to
//! show a value computed from their data.

use vstd::prelude::*;

verus! {

/// Views a `T` as the `U` that a function computes from it. Changes made to the
/// view are not written back.
pub struct ReadMap<F> {
    map: F,
}

/// The view through `f`.
pub fn read_map<T, U, F: Fn(&T) -> U>(f: F) -> (r: ReadMap<F>)
    ensures
        r.map() == f,
{
    ReadMap { map: f }
}

impl<F> ReadMap<F> {
    /// The function that this view reads through.
    pub closed spec fn map(&self) -> F {
        self.map
    }

    /// Computes the view of `data`, and hands it to `f`; returns what `f` returns.
    pub fn with<T, U, V, G: FnOnce(&U) -> V>(&self, data: &T, f: G) -> (r: V) where
        F: Fn(&T) -> U,

        requires
            self.map().requires((data,)),
            forall|u: U| #[trigger] self.map().ensures((data,), u) ==> f.requires((&u,)),
        ensures
            exists|u: U| #[trigger] self.map().ensures((data,), u) && f.ensures((&u,), r),
    {
        let u = (self.map)(data);
        f(&u)
    }
}

} // verus!
