//! Drawn snippets of the single-window editor: each one is a curve whose
//! points were recorded at increasing times, shown through a time warp.

use std::sync::Arc;
use vstd::prelude::*;

use crate::lerp::{
    clamped_map, is_lower_bound, lemma_clamped_map_moved_source, lemma_lower_bound_is, lower_bound,
    sorted, warped_lerped, warped_originals, Lerp,
};

verus! {

/// Snippets are identified by unique ids.
#[derive(Clone, Copy, Debug, Eq, Hash, Ord, PartialEq, PartialOrd, Structural)]
pub struct SnippetId(pub u64);

/// The number of elements of the sorted `s` that are at most `x`.
pub open spec fn count_at_most(s: Seq<i64>, x: int) -> int {
    lower_bound(s, x + 1)
}

/// The contents of a [`SnippetData`].
pub struct SnippetDataView<C> {
    /// The drawing itself.
    pub curve: C,
    /// The times at which the points of the curve were drawn.
    pub times: Seq<i64>,
    /// The original knots of the time warp.
    pub lerp_originals: Seq<i64>,
    /// The lerped knots of the time warp.
    pub lerp_lerped: Seq<i64>,
    /// The time at which the snippet disappears, if ever.
    pub end: Option<i64>,
}

impl<C> SnippetDataView<C> {
    /// This snippet moved in time by `shift`: its warp shows everything `shift`
    /// later, and it ends `shift` later.
    pub open spec fn shifted(self, shift: int) -> SnippetDataView<C> {
        SnippetDataView {
            lerp_lerped: Seq::new(self.lerp_lerped.len(), |k: int| (self.lerp_lerped[k] + shift) as i64),
            end: match self.end {
                Some(e) => Some((e + shift) as i64),
                None => None,
            },
            ..self
        }
    }

    /// Moving the snippet by `shift` keeps its times within `i64`.
    pub open spec fn can_shift(self, shift: int) -> bool {
        &&& forall|k: int|
            0 <= k < self.lerp_lerped.len() ==> i64::MIN <= #[trigger] self.lerp_lerped[k] + shift
                <= i64::MAX
        &&& self.end matches Some(e) ==> i64::MIN <= e + shift <= i64::MAX
    }

    /// The number of points of the curve that are shown at time `t`: none after
    /// the snippet's end, otherwise those drawn up to the original time that the
    /// warp maps `t` back to.
    pub open spec fn shown_points(self, t: int) -> int {
        match self.end {
            Some(e) if t > e => 0,
            _ => count_at_most(self.times, clamped_map(self.lerp_lerped, self.lerp_originals, t)),
        }
    }

    /// This snippet, made to disappear after `time`.
    pub open spec fn truncated(self, time: i64) -> SnippetDataView<C> {
        SnippetDataView { end: Some(time), ..self }
    }

    /// The point times are sorted and the time warp can be evaluated.
    pub open spec fn wf(self) -> bool {
        &&& self.times.len() > 0
        &&& sorted(self.times)
        &&& self.lerp_originals.len() == self.lerp_lerped.len()
        &&& self.lerp_originals.len() > 0
        &&& sorted(self.lerp_originals)
        &&& sorted(self.lerp_lerped)
    }
}

/// A drawn curve, together with the time warp that says when it is shown.
#[derive(Debug)]
pub struct SnippetData<C> {
    curve: Arc<C>,
    times: Arc<Vec<i64>>,
    lerp: Arc<Lerp>,
    end: Option<i64>,
}

impl<C> View for SnippetData<C> {
    type V = SnippetDataView<C>;

    closed spec fn view(&self) -> SnippetDataView<C> {
        SnippetDataView {
            curve: *self.curve,
            times: self.times@,
            lerp_originals: self.lerp.originals(),
            lerp_lerped: self.lerp.lerped(),
            end: self.end,
        }
    }
}

impl<C> SnippetData<C> {
    /// A snippet showing `curve`, whose points were drawn at the sorted `times`,
    /// at the time it was drawn.
    pub fn new(curve: C, times: Vec<i64>) -> (r: SnippetData<C>)
        requires
            times@.len() > 0,
            sorted(times@),
        ensures
            r@.wf(),
            r@.curve == curve,
            r@.times == times@,
            r@.lerp_originals == seq![times@[0], times@.last()],
            r@.lerp_lerped == seq![times@[0], times@.last()],
            r@.end is None,
    {
        let first = times[0];
        let last = times[times.len() - 1];
        let mut start_end: Vec<i64> = Vec::new();
        start_end.push(first);
        start_end.push(last);
        let mut start_end2: Vec<i64> = Vec::new();
        start_end2.push(first);
        start_end2.push(last);
        assert(start_end@ =~= seq![first, last]);
        assert(start_end2@ =~= seq![first, last]);
        let lerp = Lerp::new(start_end, start_end2);
        SnippetData { curve: Arc::new(curve), times: Arc::new(times), lerp: Arc::new(lerp), end: None }
    }

    /// The drawing.
    pub fn curve(&self) -> (r: &C)
        ensures
            *r == self@.curve,
    {
        &self.curve
    }

    /// The times at which the points were drawn.
    pub fn times(&self) -> (r: &[i64])
        ensures
            r@ == self@.times,
    {
        self.times.as_slice()
    }

    /// The time warp.
    pub fn lerp(&self) -> (r: &Lerp)
        ensures
            r.originals() == self@.lerp_originals,
            r.lerped() == self@.lerp_lerped,
    {
        &self.lerp
    }

    /// The number of points of the curve that are shown at time `time_us`: none
    /// after the snippet's end, otherwise those drawn up to the original time that
    /// the warp maps `time_us` back to.
    pub fn visible_points(&self, time_us: i64) -> (r: usize)
        requires
            self@.wf(),
        ensures
            r == self@.shown_points(time_us as int),
    {
        if let Some(end) = self.end {
            if time_us > end {
                return 0;
            }
        }
        let local_time = self.lerp.unlerp_clamped(time_us);
        let ghost t = self@.times;
        let mut lo: usize = 0;
        let mut hi: usize = self.times.len();
        while lo < hi
            invariant
                0 <= lo <= hi <= t.len(),
                t == self@.times,
                sorted(t),
                forall|k: int| 0 <= k < lo ==> t[k] <= local_time,
                forall|k: int| hi <= k < t.len() ==> t[k] > local_time,
            decreases hi - lo,
        {
            let mid = lo + (hi - lo) / 2;
            if self.times[mid] <= local_time {
                lo = mid + 1;
            } else {
                hi = mid;
            }
        }
        proof {
            assert(is_lower_bound(t, local_time + 1, lo as int));
            lemma_lower_bound_is(t, local_time + 1, lo as int);
        }
        lo
    }

    /// The time at which the snippet starts being shown.
    pub fn start_time(&self) -> (r: i64)
        requires
            self@.wf(),
        ensures
            r == self@.lerp_lerped[0],
    {
        self.lerp.first()
    }

    /// The last time at which the snippet changes.
    pub fn last_draw_time(&self) -> (r: i64)
        requires
            self@.wf(),
        ensures
            r == self@.lerp_lerped.last(),
    {
        self.lerp.last()
    }

    /// The time at which this snippet disappears, if ever.
    pub fn end_time(&self) -> (r: Option<i64>)
        ensures
            r == self@.end,
    {
        self.end
    }
}

impl<C> Clone for SnippetData<C> {
    fn clone(&self) -> (r: SnippetData<C>)
        ensures
            r@ == self@,
    {
        SnippetData {
            curve: Arc::clone(&self.curve),
            times: Arc::clone(&self.times),
            lerp: Arc::clone(&self.lerp),
            end: self.end,
        }
    }
}

/// `p` is where an entry with id number `id` goes among the entries `s`, ordered by id.
pub open spec fn id_slot<C>(s: Seq<(u64, SnippetDataView<C>)>, id: u64, p: int) -> bool {
    &&& 0 <= p <= s.len()
    &&& forall|k: int| 0 <= k < p ==> s[k].0 < id
    &&& forall|k: int| p <= k < s.len() ==> s[k].0 > id
}

/// The contents of a [`SnippetsData`] collection.
pub struct SnippetsDataView<C> {
    /// The largest id handed out so far.
    pub last_id: u64,
    /// The snippets with their id numbers, in increasing order of id.
    pub snippets: Seq<(u64, SnippetDataView<C>)>,
}

impl<C> SnippetsDataView<C> {
    /// Ids are increasing and none is larger than the last id handed out.
    pub open spec fn wf(self) -> bool {
        &&& forall|i: int, j: int|
            0 <= i < j < self.snippets.len() ==> self.snippets[i].0 < self.snippets[j].0
        &&& forall|i: int| 0 <= i < self.snippets.len() ==> self.snippets[i].0 <= self.last_id
    }

    /// There is a snippet with id number `id`.
    pub open spec fn contains(self, id: u64) -> bool {
        exists|i: int| 0 <= i < self.snippets.len() && self.snippets[i].0 == id
    }

    /// The position of the snippet with id number `id`.
    pub open spec fn position_of(self, id: u64) -> int {
        choose|i: int| 0 <= i < self.snippets.len() && self.snippets[i].0 == id
    }

    /// The snippet with id number `id`.
    pub open spec fn snippet(self, id: u64) -> SnippetDataView<C> {
        self.snippets[self.position_of(id)].1
    }

    /// This collection with `snip` added under the next id.
    pub open spec fn with_new(self, snip: SnippetDataView<C>) -> SnippetsDataView<C> {
        let id = (self.last_id + 1) as u64;
        SnippetsDataView { last_id: id, snippets: self.snippets.push((id, snip)) }
    }

    /// This collection without the snippet `id` (unchanged if there is none).
    pub open spec fn removed(self, id: u64) -> SnippetsDataView<C> {
        if self.contains(id) {
            SnippetsDataView { snippets: self.snippets.remove(self.position_of(id)), ..self }
        } else {
            self
        }
    }

    /// The snippets after setting snippet `id` to `snip`: replaced if it is there,
    /// otherwise inserted in order of id.
    pub open spec fn with_entry(self, id: u64, snip: SnippetDataView<C>) -> Seq<(u64, SnippetDataView<C>)> {
        if self.contains(id) {
            self.snippets.update(self.position_of(id), (id, snip))
        } else {
            self.snippets.insert(choose|p: int| id_slot(self.snippets, id, p), (id, snip))
        }
    }
}

/// A collection of drawn snippets, each identified by a [`SnippetId`].
#[derive(Debug)]
pub struct SnippetsData<C> {
    last_id: u64,
    // In increasing order of id.
    snippets: Vec<(SnippetId, SnippetData<C>)>,
}

impl<C> View for SnippetsData<C> {
    type V = SnippetsDataView<C>;

    closed spec fn view(&self) -> SnippetsDataView<C> {
        SnippetsDataView {
            last_id: self.last_id,
            snippets: self.snippets@.map_values(|p: (SnippetId, SnippetData<C>)| (p.0.0, p.1@)),
        }
    }
}

impl<C> SnippetsData<C> {
    /// An empty collection.
    pub fn new() -> (r: SnippetsData<C>)
        ensures
            r@.wf(),
            r@.last_id == 0,
            r@.snippets.len() == 0,
    {
        let r = SnippetsData { last_id: 0, snippets: Vec::new() };
        assert(r@.snippets =~= Seq::<(u64, SnippetDataView<C>)>::empty());
        r
    }

    fn copy(&self) -> (r: SnippetsData<C>)
        ensures
            r@ == self@,
    {
        let mut v: Vec<(SnippetId, SnippetData<C>)> = Vec::new();
        let mut i: usize = 0;
        while i < self.snippets.len()
            invariant
                i <= self.snippets@.len(),
                v@.len() == i,
                forall|k: int|
                    0 <= k < i ==> v@[k].0 == self.snippets@[k].0 && v@[k].1@
                        == self.snippets@[k].1@,
            decreases self.snippets@.len() - i,
        {
            let id = self.snippets[i].0;
            let snip = self.snippets[i].1.clone();
            v.push((id, snip));
            i = i + 1;
        }
        let r = SnippetsData { last_id: self.last_id, snippets: v };
        assert(r@.snippets =~= self@.snippets);
        r
    }

    /// The first position whose id is not smaller than `id`.
    fn search(&self, id: SnippetId) -> (r: usize)
        requires
            self@.wf(),
        ensures
            r <= self@.snippets.len(),
            forall|k: int| 0 <= k < r ==> self@.snippets[k].0 < id.0,
            forall|k: int| r <= k < self@.snippets.len() ==> self@.snippets[k].0 >= id.0,
    {
        let mut i: usize = 0;
        while i < self.snippets.len() && self.snippets[i].0.0 < id.0
            invariant
                i <= self.snippets@.len(),
                self@.wf(),
                forall|k: int| 0 <= k < i ==> self@.snippets[k].0 < id.0,
            decreases self.snippets@.len() - i,
        {
            i = i + 1;
        }
        proof {
            if i < self.snippets@.len() {
                assert forall|k: int| i <= k < self@.snippets.len() implies self@.snippets[k].0
                    >= id.0 by {
                    if k > i {
                        assert(self@.snippets[i as int].0 < self@.snippets[k].0);
                    }
                }
            }
        }
        i
    }

    /// The position of the snippet `id`, if there is one.
    fn position(&self, id: SnippetId) -> (r: Option<usize>)
        requires
            self@.wf(),
        ensures
            r matches Some(i) ==> i < self@.snippets.len() && i == self@.position_of(id.0)
                && self@.snippets[i as int].0 == id.0,
            r is None <==> !self@.contains(id.0),
    {
        let i = self.search(id);
        if i < self.snippets.len() && self.snippets[i].0.0 == id.0 {
            proof {
                let p = self@.position_of(id.0);
                assert(self@.snippets[i as int].0 == id.0);
                assert(self@.snippets[p].0 == id.0);
                if p < i {
                    assert(self@.snippets[p].0 < id.0);
                } else if p > i {
                    assert(self@.snippets[i as int].0 < self@.snippets[p].0);
                }
            }
            Some(i)
        } else {
            proof {
                if self@.contains(id.0) {
                    let p = self@.position_of(id.0);
                    if p < i {
                        assert(self@.snippets[p].0 < id.0);
                    } else if p > i {
                        assert(self@.snippets[i as int].0 < self@.snippets[p].0);
                    }
                }
            }
            None
        }
    }

    /// The id of the snippet added last (zero if none was).
    pub fn last_id(&self) -> (r: SnippetId)
        ensures
            r.0 == self@.last_id,
    {
        SnippetId(self.last_id)
    }

    /// Adds a snippet under a new id.
    pub fn with_new_snippet(&self, snip: SnippetData<C>) -> (r: SnippetsData<C>)
        requires
            self@.wf(),
            self@.last_id < u64::MAX,
        ensures
            r@.wf(),
            r@.last_id == self@.last_id + 1,
            r@.snippets == self@.snippets.push(((self@.last_id + 1) as u64, snip@)),
            r@ == self@.with_new(snip@),
    {
        let mut ret = self.copy();
        ret.last_id = ret.last_id + 1;
        let id = SnippetId(ret.last_id);
        ret.snippets.push((id, snip));
        assert(ret@.snippets =~= self@.snippets.push((id.0, snip@)));
        ret
    }

    /// Sets snippet `id` (which must have been handed out already) to `new`.
    pub fn with_replacement_snippet(&self, id: SnippetId, new: SnippetData<C>) -> (r: SnippetsData<C>)
        requires
            self@.wf(),
            id.0 <= self@.last_id,
        ensures
            r@.wf(),
            r@.last_id == self@.last_id,
            r@.snippets == self@.with_entry(id.0, new@),
    {
        let mut ret = self.copy();
        let i = self.search(id);
        let ghost s = self@.snippets;
        if i < ret.snippets.len() && ret.snippets[i].0.0 == id.0 {
            ret.snippets.set(i, (id, new));
            proof {
                assert(s[i as int].0 == id.0);
                assert(self@.contains(id.0));
                let p = self@.position_of(id.0);
                assert(s[p].0 == id.0);
                if p < i {
                    assert(s[p].0 < id.0);
                } else if p > i {
                    assert(s[i as int].0 < s[p].0);
                }
            }
            assert(ret@.snippets =~= s.update(i as int, (id.0, new@)));
        } else {
            ret.snippets.insert(i, (id, new));
            proof {
                assert(!self@.contains(id.0)) by {
                    if self@.contains(id.0) {
                        let p = self@.position_of(id.0);
                        assert(s[p].0 == id.0);
                        if p < i {
                            assert(s[p].0 < id.0);
                        } else if p > i {
                            assert(s[i as int].0 < s[p].0);
                        }
                    }
                }
                assert(id_slot(s, id.0, i as int));
                let q = choose|p: int| id_slot(s, id.0, p);
                assert(q == i) by {
                    if q < i {
                        assert(s[q].0 < id.0);
                        assert(s[q].0 > id.0);
                    } else if i < q {
                        assert(s[i as int].0 < id.0);
                        assert(s[i as int].0 > id.0);
                    }
                }
            }
            assert(ret@.snippets =~= s.insert(i as int, (id.0, new@)));
        }
        ret
    }

    /// Is there a snippet with this id?
    pub fn has_snippet(&self, id: SnippetId) -> (r: bool)
        requires
            self@.wf(),
        ensures
            r == self@.contains(id.0),
    {
        self.position(id).is_some()
    }

    /// The snippet with this id.
    pub fn snippet(&self, id: SnippetId) -> (r: &SnippetData<C>)
        requires
            self@.wf(),
            self@.contains(id.0),
        ensures
            r@ == self@.snippet(id.0),
    {
        let i = self.position(id).unwrap();
        &self.snippets[i].1
    }

    /// The snippets with their ids, in increasing order of id.
    pub fn snippets(&self) -> (r: &[(SnippetId, SnippetData<C>)])
        ensures
            r@.map_values(|p: (SnippetId, SnippetData<C>)| (p.0.0, p.1@)) == self@.snippets,
    {
        self.snippets.as_slice()
    }

    /// Warps snippet `id` so that what was shown at `lerp_from` is shown at `lerp_to`.
    pub fn with_new_lerp(&self, id: SnippetId, lerp_from: i64, lerp_to: i64) -> (r: SnippetsData<C>)
        requires
            self@.wf(),
            self@.contains(id.0),
            self@.snippet(id.0).wf(),
        ensures
            r@.wf(),
            r@.last_id == self@.last_id,
            ({
                let old_snip = self@.snippet(id.0);
                let new_snip = r@.snippet(id.0);
                &&& r@.snippets == self@.snippets.update(self@.position_of(id.0), (id.0, new_snip))
                &&& new_snip.curve == old_snip.curve
                &&& new_snip.times == old_snip.times
                &&& new_snip.end == old_snip.end
                &&& new_snip.wf()
                &&& new_snip.lerp_originals == warped_originals(
                    old_snip.lerp_originals,
                    old_snip.lerp_lerped,
                    lerp_from,
                )
                &&& new_snip.lerp_lerped == warped_lerped(
                    old_snip.lerp_originals,
                    old_snip.lerp_lerped,
                    lerp_from,
                    lerp_to,
                )
            }),
    {
        let i = self.position(id).unwrap();
        let old = &self.snippets[i].1;
        let lerp = old.lerp.with_new_lerp(lerp_from, lerp_to);
        let snip = SnippetData {
            curve: Arc::clone(&old.curve),
            times: Arc::clone(&old.times),
            lerp: Arc::new(lerp),
            end: old.end,
        };
        let mut ret = self.copy();
        ret.snippets.set(i, (id, snip));
        proof {
            let l = *old.lerp;
            assert(l.valid());
            let s2 = ret@.snippets;
            assert(s2 =~= self@.snippets.update(i as int, (id.0, s2[i as int].1)));
            assert(ret@.position_of(id.0) == i) by {
                let p = ret@.position_of(id.0);
                assert(s2[i as int].0 == id.0);
                if p < i {
                    assert(s2[p] == self@.snippets[p]);
                    assert(self@.snippets[p].0 < self@.snippets[i as int].0);
                } else if p > i {
                    assert(s2[p] == self@.snippets[p]);
                    assert(self@.snippets[i as int].0 < self@.snippets[p].0);
                }
            }
        }
        ret
    }

    /// Makes snippet `id` disappear at `time`.
    pub fn with_truncated_snippet(&self, id: SnippetId, time: i64) -> (r: SnippetsData<C>)
        requires
            self@.wf(),
            self@.contains(id.0),
        ensures
            r@.wf(),
            r@.last_id == self@.last_id,
            r@.snippets == self@.snippets.update(
                self@.position_of(id.0),
                (id.0, self@.snippet(id.0).truncated(time)),
            ),
    {
        let i = self.position(id).unwrap();
        let mut snip = self.snippets[i].1.clone();
        snip.end = Some(time);
        let mut ret = self.copy();
        ret.snippets.set(i, (id, snip));
        assert(ret@.snippets =~= self@.snippets.update(
            i as int,
            (id.0, self@.snippet(id.0).truncated(time)),
        ));
        ret
    }

    /// A copy of this collection without the snippet `id` (unchanged if there is none).
    pub fn without_snippet(&self, id: SnippetId) -> (r: SnippetsData<C>)
        requires
            self@.wf(),
        ensures
            r@ == self@.removed(id.0),
            r@.wf(),
    {
        let mut ret = self.copy();
        match self.position(id) {
            Some(i) => {
                ret.snippets.remove(i);
                assert(ret@.snippets =~= self@.snippets.remove(i as int));
            },
            None => {},
        }
        ret
    }

    /// A copy of this collection with snippet `id` moved in time by `shift`.
    pub fn with_shifted_snippet(&self, id: SnippetId, shift: i64) -> (r: SnippetsData<C>)
        requires
            self@.wf(),
            self@.contains(id.0),
            self@.snippet(id.0).wf(),
            self@.snippet(id.0).can_shift(shift as int),
        ensures
            r@.wf(),
            r@.last_id == self@.last_id,
            r@.snippets == self@.snippets.update(
                self@.position_of(id.0),
                (id.0, self@.snippet(id.0).shifted(shift as int)),
            ),
    {
        let i = self.position(id).unwrap();
        let old = &self.snippets[i].1;
        let ghost ov = old@;
        assert(ov == self@.snippet(id.0));
        let lerped = old.lerp.times();
        let mut moved: Vec<i64> = Vec::new();
        let mut k: usize = 0;
        while k < lerped.len()
            invariant
                k <= lerped@.len(),
                lerped@ == ov.lerp_lerped,
                ov.can_shift(shift as int),
                moved@.len() == k,
                forall|j: int| 0 <= j < k ==> moved@[j] == lerped@[j] + shift,
            decreases lerped@.len() - k,
        {
            assert(i64::MIN <= lerped@[k as int] + shift <= i64::MAX);
            moved.push(lerped[k] + shift);
            k = k + 1;
        }
        let originals = vstd::slice::slice_to_vec(old.lerp.original_values());
        let lerp = Lerp::new(originals, moved);
        let end = match old.end {
            Some(e) => Some(e + shift),
            None => None,
        };
        let snip = SnippetData {
            curve: Arc::clone(&old.curve),
            times: Arc::clone(&old.times),
            lerp: Arc::new(lerp),
            end,
        };
        assert(snip@.lerp_lerped =~= ov.shifted(shift as int).lerp_lerped);
        assert(snip@ == ov.shifted(shift as int));
        let mut ret = self.copy();
        ret.snippets.set(i, (id, snip));
        assert(ret@.snippets =~= self@.snippets.update(i as int, (id.0, ov.shifted(shift as int))));
        ret
    }
}

impl<C> Clone for SnippetsData<C> {
    fn clone(&self) -> (r: SnippetsData<C>)
        ensures
            r@ == self@,
    {
        self.copy()
    }
}

impl<C> Default for SnippetsData<C> {
    fn default() -> (r: SnippetsData<C>)
        ensures
            r@.wf(),
            r@.last_id == 0,
            r@.snippets.len() == 0,
    {
        SnippetsData::new()
    }
}

/// Shifting a snippet by `shift` shifts what it shows by `shift`: at `t + shift`
/// the moved snippet shows what it showed at `t`, its disappearance included.
pub proof fn law_shift_moves_what_is_shown<C>(v: SnippetDataView<C>, shift: int, t: int)
    requires
        v.wf(),
        v.can_shift(shift),
    ensures
        v.shifted(shift).shown_points(t + shift) == v.shown_points(t),
{
    let w = v.shifted(shift);
    assert forall|k: int| 0 <= k < v.lerp_lerped.len() implies #[trigger] w.lerp_lerped[k]
        == v.lerp_lerped[k] + shift by {
        assert(i64::MIN <= v.lerp_lerped[k] + shift <= i64::MAX);
    }
    lemma_clamped_map_moved_source(v.lerp_lerped, w.lerp_lerped, v.lerp_originals, shift, t);
}

/// A truncated snippet shows nothing after the truncation time; up to it, it
/// shows what it showed before, unless it had already disappeared.
pub proof fn law_truncate_hides_after<C>(v: SnippetDataView<C>, time: i64, t: int)
    ensures
        t > time ==> v.truncated(time).shown_points(t) == 0,
        t <= time && (v.end matches Some(e) ==> t <= e) ==> v.truncated(time).shown_points(t)
            == v.shown_points(t),
{
}

/// A new drawing gets an id that no drawing had before, and can be found under it;
/// removing it right away gives back the drawings as they were.
pub proof fn law_new_drawing_is_fresh<C>(before: SnippetsDataView<C>, snip: SnippetDataView<C>)
    requires
        before.wf(),
        before.last_id < u64::MAX,
    ensures
        ({
            let id = (before.last_id + 1) as u64;
            let after = before.with_new(snip);
            &&& !before.contains(id)
            &&& after.wf()
            &&& after.contains(id)
            &&& after.snippet(id) == snip
            &&& forall|other: u64| other != id ==> after.contains(other) == before.contains(other)
            &&& after.removed(id).snippets == before.snippets
        }),
{
    let id = (before.last_id + 1) as u64;
    let after = before.with_new(snip);
    let n = before.snippets.len() as int;
    assert(after.snippets[n].0 == id);
    let p = after.position_of(id);
    assert(p == n) by {
        if p < n {
            assert(after.snippets[p] == before.snippets[p]);
            assert(before.snippets[p].0 <= before.last_id);
        }
    }
    assert forall|other: u64| other != id implies after.contains(other) == before.contains(
        other,
    ) by {
        if after.contains(other) {
            let k = choose|k: int| 0 <= k < after.snippets.len() && after.snippets[k].0 == other;
            assert(k < n);
            assert(before.snippets[k].0 == other);
        }
        if before.contains(other) {
            let k = choose|k: int| 0 <= k < before.snippets.len() && before.snippets[k].0 == other;
            assert(after.snippets[k].0 == other);
        }
    }
    assert(!before.contains(id)) by {
        if before.contains(id) {
            let k = choose|k: int| 0 <= k < before.snippets.len() && before.snippets[k].0 == id;
            assert(before.snippets[k].0 <= before.last_id);
        }
    }
    assert(after.snippets.remove(n) =~= before.snippets);
}

} // verus!
