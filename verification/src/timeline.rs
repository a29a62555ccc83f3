//! What the timeline shows of a snippet: when it starts and ends, and the marks
//! for the times at which its drawing was warped.

use vstd::prelude::*;

use crate::drawing::SnippetData;
use crate::lerp::strictly_sorted;
use crate::talk::TalkSnippet;
use crate::time::{Time, TimeDiff};

verus! {

/// `i` is the first index at which `s` holds a value other than its first.
pub open spec fn is_first_change(s: Seq<i64>, i: int) -> bool {
    &&& 0 <= i < s.len()
    &&& s[i] != s[0]
    &&& forall|k: int| 0 <= k < i ==> #[trigger] s[k] == s[0]
}

/// `i` is the last index at which `s` holds a value other than its last.
pub open spec fn is_last_change(s: Seq<i64>, i: int) -> bool {
    &&& 0 <= i < s.len()
    &&& s[i] != s.last()
    &&& forall|k: int| i < k < s.len() ==> #[trigger] s[k] == s.last()
}

/// The first index at which `s` leaves its first value; its length if it never
/// does.
pub open spec fn first_change(s: Seq<i64>) -> int {
    if exists|i: int| is_first_change(s, i) {
        choose|i: int| is_first_change(s, i)
    } else {
        s.len() as int
    }
}

/// The last index at which `s` differs from its last value; zero if it never
/// does.
pub open spec fn last_change(s: Seq<i64>) -> int {
    if exists|i: int| is_last_change(s, i) {
        choose|i: int| is_last_change(s, i)
    } else {
        0
    }
}

/// The knot times of a warp that lie strictly between its first run of equal
/// times and its last, each measured from the first knot.
pub open spec fn inner_times(s: Seq<i64>) -> Seq<int> {
    let f = first_change(s);
    let l = last_change(s);
    if f <= l {
        Seq::new((l + 1 - f) as nat, |k: int| s[f + k] - s[0])
    } else {
        Seq::empty()
    }
}

proof fn lemma_first_change_is(s: Seq<i64>, i: int)
    requires
        is_first_change(s, i),
    ensures
        first_change(s) == i,
{
    let c = choose|j: int| is_first_change(s, j);
    assert(is_first_change(s, c));
    if c < i {
        assert(s[c] == s[0]);
    } else if i < c {
        assert(s[i] == s[0]);
    }
}

proof fn lemma_last_change_is(s: Seq<i64>, i: int)
    requires
        is_last_change(s, i),
    ensures
        last_change(s) == i,
{
    let c = choose|j: int| is_last_change(s, j);
    assert(is_last_change(s, c));
    if c < i {
        assert(s[i] == s.last());
    } else if i < c {
        assert(s[c] == s.last());
    }
}

/// The times, measured from the first knot, of the knots of `lerps` that lie
/// after its first run of equal times and up to its last change.
pub fn inner_lerp_times(lerps: &[i64]) -> (r: Vec<TimeDiff>)
    requires
        lerps@.len() > 0,
        forall|k: int| 0 <= k < lerps@.len() ==> i64::MIN <= #[trigger] lerps@[k] - lerps@[0] <= i64::MAX,
    ensures
        r@.len() == inner_times(lerps@).len(),
        forall|k: int| 0 <= k < r@.len() ==> r@[k].0 == inner_times(lerps@)[k],
{
    let ghost s = lerps@;
    let n = lerps.len();
    let v0 = lerps[0];
    let vn = lerps[n - 1];
    let mut first: usize = 0;
    while first < n && lerps[first] == v0
        invariant
            s == lerps@,
            n == s.len(),
            v0 == s[0],
            first <= n,
            forall|k: int| 0 <= k < first ==> #[trigger] s[k] == s[0],
        decreases n - first,
    {
        first = first + 1;
    }
    proof {
        if first < n {
            lemma_first_change_is(s, first as int);
        } else {
            assert(!exists|i: int| is_first_change(s, i));
        }
    }
    let mut last: usize = n;
    while last > 0 && lerps[last - 1] == vn
        invariant
            s == lerps@,
            n == s.len(),
            vn == s.last(),
            last <= n,
            forall|k: int| last <= k < n ==> #[trigger] s[k] == s.last(),
        decreases last,
    {
        last = last - 1;
    }
    let last_idx: usize = if last > 0 {
        last - 1
    } else {
        0
    };
    proof {
        if last > 0 {
            lemma_last_change_is(s, last_idx as int);
        } else {
            assert(!exists|i: int| is_last_change(s, i));
        }
    }
    let mut r: Vec<TimeDiff> = Vec::new();
    if first <= last_idx {
        let mut i: usize = first;
        while i <= last_idx
            invariant
                s == lerps@,
                v0 == s[0],
                first <= i <= last_idx + 1,
                last_idx < s.len(),
                first as int == first_change(s),
                last_idx as int == last_change(s),
                forall|k: int| 0 <= k < s.len() ==> i64::MIN <= #[trigger] s[k] - s[0] <= i64::MAX,
                r@.len() == i - first,
                forall|k: int| 0 <= k < r@.len() ==> r@[k].0 == inner_times(s)[k],
            decreases last_idx + 1 - i,
        {
            let d = lerps[i] - v0;
            r.push(TimeDiff(d));
            i = i + 1;
        }
    }
    r
}

/// A snippet as the timeline shows it: a recording of speech, or a drawing.
pub enum Snip<C> {
    Audio(TalkSnippet),
    Drawing(SnippetData<C>),
}

impl<C> Snip<C> {
    /// The snippet's times can be computed: a speech snippet's end is a time, a
    /// drawing's warp is well formed and its knots lie within `i64` of each other.
    pub open spec fn wf(&self) -> bool {
        match self {
            Snip::Audio(s) => s@.wf(),
            Snip::Drawing(d) => {
                &&& d@.wf()
                &&& d@.lerp_lerped.last() - d@.lerp_lerped[0] <= i64::MAX
            },
        }
    }

    /// When the snippet starts.
    pub fn start_time(&self) -> (r: Time)
        requires
            self.wf(),
        ensures
            r.0 == match self {
                Snip::Audio(s) => s@.start,
                Snip::Drawing(d) => d@.lerp_lerped[0] as int,
            },
    {
        match self {
            Snip::Audio(s) => s.start_time(),
            Snip::Drawing(d) => Time(d.start_time()),
        }
    }

    /// When the snippet ends, if it ever does.
    pub fn end_time(&self) -> (r: Option<Time>)
        requires
            self.wf(),
        ensures
            match self {
                Snip::Audio(s) => r matches Some(t) && t.0 == s@.end(),
                Snip::Drawing(d) => match d@.end {
                    Some(e) => r matches Some(t) && t.0 == e,
                    None => r is None,
                },
            },
    {
        match self {
            Snip::Audio(s) => Some(s.end_time()),
            Snip::Drawing(d) => match d.end_time() {
                Some(e) => Some(Time(e)),
                None => None,
            },
        }
    }

    /// The last time at which a drawing changes before it ends; nothing for
    /// speech.
    pub fn last_draw_time(&self) -> (r: Option<Time>)
        requires
            self.wf(),
        ensures
            match self {
                Snip::Audio(_) => r is None,
                Snip::Drawing(d) => {
                    let end: i64 = match d@.end {
                        Some(e) => e,
                        None => i64::MAX,
                    };
                    let last = d@.lerp_lerped.last();
                    r matches Some(t) && t.0 == (if last <= end {
                        last
                    } else {
                        end
                    })
                },
            },
    {
        match self {
            Snip::Audio(_) => None,
            Snip::Drawing(d) => {
                let end: i64 = match d.end_time() {
                    Some(e) => e,
                    None => i64::MAX,
                };
                let last = d.last_draw_time();
                Some(Time(if last <= end { last } else { end }))
            },
        }
    }

    /// The times, measured from the start, at which a drawing's warp has knots
    /// between its first and its last change; none for speech.
    pub fn inner_lerp_times(&self) -> (r: Vec<TimeDiff>)
        requires
            self.wf(),
        ensures
            match self {
                Snip::Audio(_) => r@.len() == 0,
                Snip::Drawing(d) => {
                    &&& r@.len() == inner_times(d@.lerp_lerped).len()
                    &&& forall|k: int|
                        0 <= k < r@.len() ==> r@[k].0 == inner_times(d@.lerp_lerped)[k]
                },
            },
    {
        match self {
            Snip::Audio(_) => Vec::new(),
            Snip::Drawing(d) => {
                let lerps = d.lerp().times();
                proof {
                    let s = d@.lerp_lerped;
                    assert forall|k: int| 0 <= k < s.len() implies i64::MIN <= #[trigger] s[k] - s[0]
                        <= i64::MAX by {
                        assert(s[0] <= s[k] <= s.last());
                    }
                }
                inner_lerp_times(lerps)
            },
        }
    }
}

/// For a warp whose knot times are all distinct, the marks are exactly its
/// inner knots: all but the first and the last, measured from the first.
pub proof fn law_inner_times_of_distinct_knots(s: Seq<i64>)
    requires
        s.len() >= 2,
        strictly_sorted(s),
    ensures
        inner_times(s) == Seq::new((s.len() - 2) as nat, |k: int| s[k + 1] - s[0]),
{
    let n = s.len() as int;
    assert(is_first_change(s, 1));
    lemma_first_change_is(s, 1);
    assert(s[n - 2] < s[n - 1]);
    assert(is_last_change(s, n - 2));
    lemma_last_change_is(s, n - 2);
    assert(inner_times(s) =~= Seq::new((n - 2) as nat, |k: int| s[k + 1] - s[0]));
}

} // verus!
