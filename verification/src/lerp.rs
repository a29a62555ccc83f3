//! Piecewise-linear time warping.
//!
//! A [`Lerp`] maps the "original" times of a drawn snippet (the times at which
//! the strokes were recorded) to "lerped" times (the times at which they are
//! shown), by linear interpolation between a sorted list of knots.

use vstd::prelude::*;

verus! {

/// `s` is sorted in non-decreasing order.
pub open spec fn sorted(s: Seq<i64>) -> bool {
    forall|i: int, j: int| 0 <= i <= j < s.len() ==> s[i] <= s[j]
}

/// `s` is sorted in strictly increasing order.
pub open spec fn strictly_sorted(s: Seq<i64>) -> bool {
    forall|i: int, j: int| 0 <= i < j < s.len() ==> s[i] < s[j]
}

/// `i` is the first position of `s` whose element is not smaller than `x`.
pub open spec fn is_lower_bound(s: Seq<i64>, x: int, i: int) -> bool {
    &&& 0 <= i <= s.len()
    &&& forall|k: int| 0 <= k < i ==> s[k] < x
    &&& forall|k: int| i <= k < s.len() ==> s[k] >= x
}

/// The position at which `x` would be inserted into the sorted `s`, in front of
/// every element equal to it.
pub open spec fn lower_bound(s: Seq<i64>, x: int) -> int {
    choose|i: int| is_lower_bound(s, x, i)
}

/// `(b, e)` is the widest pair of knot positions around `x`: `s[b] <= x <= s[e]`,
/// and either both knots equal `x` (and they are the first and last occurrence
/// of it), or `x` lies strictly between the neighbouring knots `b` and `e = b + 1`.
pub open spec fn is_knot_interval(s: Seq<i64>, x: int, b: int, e: int) -> bool {
    &&& 0 <= b <= e < s.len()
    &&& s[b] <= x <= s[e]
    &&& forall|k: int| 0 <= k < b ==> s[k] < x
    &&& forall|k: int| e < k < s.len() ==> s[k] > x
    &&& (s[b] < x || s[e] > x) ==> (e == b + 1 && s[b] < x && x < s[e])
}

/// The knot interval of `x` in the sorted `s`.
pub open spec fn knot_interval(s: Seq<i64>, x: int) -> (int, int) {
    choose|b: int, e: int| is_knot_interval(s, x, b, e)
}

/// Linear interpolation of `t` from the segment `[o0, o1]` onto `[n0, n1]`,
/// rounded towards `n0`; a degenerate segment maps everything to `n0`.
///
/// This is exact integer arithmetic. It is a deliberate departure from
/// computing the ratio `(t - o0) / (o1 - o0)` as a floating-point number and
/// truncating the product, which can come out one lower (for the knots
/// `[0, 49]` to `[0, 49]`, the floating-point ratio maps 1 to 0): the library
/// holds no floating point.
pub open spec fn interpolate(t: int, o0: int, o1: int, n0: int, n1: int) -> int {
    if o0 == o1 {
        n0
    } else {
        n0 + (n1 - n0) * (t - o0) / (o1 - o0)
    }
}

/// The image of `t` under the piecewise-linear map from the knots `src` to the
/// knots `dst`, for `t` within the range of `src`.
pub open spec fn map_through(src: Seq<i64>, dst: Seq<i64>, t: int) -> int {
    let (b, e) = knot_interval(src, t);
    interpolate(t, src[b] as int, src[e] as int, dst[b] as int, dst[e] as int)
}

/// The image of `t` under the piecewise-linear map from `src` to `dst`, clamped
/// to the first and last knot outside the range of `src`.
pub open spec fn clamped_map(src: Seq<i64>, dst: Seq<i64>, t: int) -> int {
    if t > src.last() {
        dst.last() as int
    } else if t < src[0] {
        dst[0] as int
    } else {
        map_through(src, dst, t)
    }
}

/// Two knot sequences that can be interpolated between.
pub open spec fn knots_wf(src: Seq<i64>, dst: Seq<i64>) -> bool {
    &&& src.len() == dst.len()
    &&& src.len() > 0
    &&& sorted(src)
    &&& sorted(dst)
}

proof fn lemma_lower_bound_unique(s: Seq<i64>, x: int, i: int, j: int)
    requires
        is_lower_bound(s, x, i),
        is_lower_bound(s, x, j),
    ensures
        i == j,
{
    if i < j {
        assert(s[i] >= x);
        assert(s[i] < x);
    } else if j < i {
        assert(s[j] >= x);
        assert(s[j] < x);
    }
}

/// A lower bound is the lower bound.
pub proof fn lemma_lower_bound_is(s: Seq<i64>, x: int, i: int)
    requires
        is_lower_bound(s, x, i),
    ensures
        lower_bound(s, x) == i,
{
    let j = lower_bound(s, x);
    assert(is_lower_bound(s, x, j));
    lemma_lower_bound_unique(s, x, i, j);
}

proof fn lemma_knot_interval_unique(s: Seq<i64>, x: int, b1: int, e1: int, b2: int, e2: int)
    requires
        sorted(s),
        is_knot_interval(s, x, b1, e1),
        is_knot_interval(s, x, b2, e2),
    ensures
        b1 == b2 && e1 == e2,
{
    if b1 < b2 {
        assert(s[b1] < x);
        assert(s[b1] <= s[b2]);
    } else if b2 < b1 {
        assert(s[b2] < x);
    }
    if e1 < e2 {
        assert(s[e2] > x);
    } else if e2 < e1 {
        assert(s[e1] > x);
    }
}

proof fn lemma_knot_interval_is(s: Seq<i64>, x: int, b: int, e: int)
    requires
        sorted(s),
        is_knot_interval(s, x, b, e),
    ensures
        knot_interval(s, x) == (b, e),
{
    assert(is_knot_interval(s, x, b, e));
    let p = knot_interval(s, x);
    assert(is_knot_interval(s, x, p.0, p.1));
    lemma_knot_interval_unique(s, x, b, e, p.0, p.1);
}

/// Binary search for the first element of the sorted slice that is not
/// smaller than `x`: `Ok(i)` if that element equals `x`, `Err(i)` otherwise.
fn binary_search(s: &[i64], x: i64) -> (r: Result<usize, usize>)
    requires
        sorted(s@),
    ensures
        match r {
            Ok(i) => is_lower_bound(s@, x as int, i as int) && i < s@.len() && s@[i as int] == x,
            Err(i) => is_lower_bound(s@, x as int, i as int) && (i < s@.len() ==> s@[i as int]
                > x),
        },
{
    let mut lo: usize = 0;
    let mut hi: usize = s.len();
    while lo < hi
        invariant
            0 <= lo <= hi <= s@.len(),
            sorted(s@),
            forall|k: int| 0 <= k < lo ==> s@[k] < x,
            forall|k: int| hi <= k < s@.len() ==> s@[k] >= x,
        decreases hi - lo,
    {
        let mid = lo + (hi - lo) / 2;
        if s[mid] < x {
            lo = mid + 1;
        } else {
            hi = mid;
        }
    }
    if lo < s.len() && s[lo] == x {
        Ok(lo)
    } else {
        Err(lo)
    }
}

/// Returns the widest pair of knot positions `(begin, end)` with
/// `slice[begin] <= x <= slice[end]`. Assumes that `slice` is sorted, and that
/// `slice[0] <= x <= slice.last()`.
pub fn search_interval(x: i64, slice: &[i64]) -> (r: (usize, usize))
    requires
        sorted(slice@),
        slice@.len() > 0,
        slice@[0] <= x <= slice@.last(),
    ensures
        is_knot_interval(slice@, x as int, r.0 as int, r.1 as int),
        (r.0 as int, r.1 as int) == knot_interval(slice@, x as int),
{
    let n = slice.len();
    let r = match binary_search(slice, x) {
        Ok(idx) => {
            // We found the first matching index; the equal run may continue further on.
            let mut end = idx;
            while end + 1 < n && slice[end + 1] <= x
                invariant
                    idx <= end < n,
                    n == slice@.len(),
                    sorted(slice@),
                    slice@[idx as int] == x,
                    forall|k: int| idx <= k <= end ==> slice@[k] == x,
                decreases n - end,
            {
                end = end + 1;
            }
            (idx, end)
        },
        Err(idx) => {
            // `idx` is positive (since slice[0] <= x and slice[0] != x would put x after it),
            // and strictly less than the length (since x <= last).
            assert(idx > 0) by {
                if idx == 0 {
                    assert(slice@[0] > x);
                }
            }
            assert(idx < n) by {
                if idx == n {
                    assert(slice@[n - 1] < x);
                }
            }
            (idx - 1, idx)
        },
    };
    proof {
        lemma_knot_interval_is(slice@, x as int, r.0 as int, r.1 as int);
    }
    r
}


/// Scans `s` from position `i` for the first element not smaller than `x`.
spec fn scan_lower_bound(s: Seq<i64>, x: int, i: int) -> int
    decreases s.len() - i,
{
    if i >= s.len() || i < 0 {
        i
    } else if s[i] >= x {
        i
    } else {
        scan_lower_bound(s, x, i + 1)
    }
}

proof fn lemma_scan_lower_bound(s: Seq<i64>, x: int, i: int)
    requires
        sorted(s),
        0 <= i <= s.len(),
        forall|k: int| 0 <= k < i ==> s[k] < x,
    ensures
        is_lower_bound(s, x, scan_lower_bound(s, x, i)),
    decreases s.len() - i,
{
    if i < s.len() && s[i] < x {
        lemma_scan_lower_bound(s, x, i + 1);
    }
}

/// Every sorted sequence has a lower bound for every value.
pub proof fn lemma_lower_bound_exists(s: Seq<i64>, x: int)
    requires
        sorted(s),
    ensures
        is_lower_bound(s, x, lower_bound(s, x)),
{
    lemma_scan_lower_bound(s, x, 0);
    lemma_lower_bound_is(s, x, scan_lower_bound(s, x, 0));
}

/// Every value within the range of a sorted, non-empty sequence has a knot interval.
pub proof fn lemma_knot_interval_exists(s: Seq<i64>, x: int)
    requires
        sorted(s),
        s.len() > 0,
        s[0] <= x <= s.last(),
    ensures
        is_knot_interval(s, x, knot_interval(s, x).0, knot_interval(s, x).1),
{
    lemma_lower_bound_exists(s, x);
    lemma_lower_bound_exists(s, x + 1);
    let lb = lower_bound(s, x);
    let ub = lower_bound(s, x + 1);
    let n = s.len() as int;
    if lb < n && s[lb] == x {
        assert(lb < ub) by {
            if ub <= lb {
                assert(s[lb] >= x + 1);
            }
        }
        let e = ub - 1;
        assert(s[e] < x + 1);
        assert(s[lb] <= s[e]);
        assert(is_knot_interval(s, x, lb, e));
        lemma_knot_interval_is(s, x, lb, e);
    } else {
        assert(lb < n) by {
            if lb == n {
                assert(s[n - 1] < x);
            }
        }
        assert(lb > 0) by {
            if lb == 0 {
                assert(s[0] >= x);
            }
        }
        assert(s[lb] > x);
        assert(s[lb - 1] < x);
        assert(is_knot_interval(s, x, lb - 1, lb));
        lemma_knot_interval_is(s, x, lb - 1, lb);
    }
}

/// Moving every source knot by `d` moves the clamped map by `d`: the image of
/// `t + d` through the moved knots is that of `t` through the old ones.
pub proof fn lemma_clamped_map_moved_source(src: Seq<i64>, moved: Seq<i64>, dst: Seq<i64>, d: int, t: int)
    requires
        sorted(src),
        src.len() > 0,
        moved.len() == src.len(),
        forall|k: int| 0 <= k < src.len() ==> #[trigger] moved[k] == src[k] + d,
    ensures
        clamped_map(moved, dst, t + d) == clamped_map(src, dst, t),
{
    let n = src.len() as int;
    assert(moved.last() == src.last() + d);
    assert(moved[0] == src[0] + d);
    if src[0] <= t <= src.last() {
        assert(sorted(moved)) by {
            assert forall|i: int, j: int| 0 <= i <= j < n implies moved[i] <= moved[j] by {
                assert(src[i] <= src[j]);
            }
        }
        lemma_knot_interval_exists(src, t);
        let (b, e) = knot_interval(src, t);
        assert(is_knot_interval(moved, t + d, b, e)) by {
            assert(moved[b] == src[b] + d);
            assert(moved[e] == src[e] + d);
            assert forall|k: int| 0 <= k < b implies moved[k] < t + d by {
                assert(src[k] < t);
            }
            assert forall|k: int| e < k < n implies moved[k] > t + d by {
                assert(src[k] > t);
            }
        }
        lemma_knot_interval_is(moved, t + d, b, e);
        assert(moved[b] - moved[e] == src[b] - src[e]);
        assert(t + d - moved[b] == t - src[b]);
    }
}

/// Interpolation stays between the two target knots.
pub proof fn lemma_interpolate_bounds(t: int, o0: int, o1: int, n0: int, n1: int)
    requires
        o0 <= t <= o1,
        n0 <= n1,
    ensures
        n0 <= interpolate(t, o0, o1, n0, n1) <= n1,
{
    if o0 != o1 {
        assert(0 <= (n1 - n0) * (t - o0) / (o1 - o0) <= n1 - n0) by (nonlinear_arith)
            requires
                o0 <= t <= o1,
                o0 < o1,
                n0 <= n1,
        {
            assert((n1 - n0) * (t - o0) <= (n1 - n0) * (o1 - o0));
            assert((n1 - n0) * (o1 - o0) / (o1 - o0) == n1 - n0);
        }
    }
}

/// A value mapped through two well-formed knot lists lies between the knots of
/// its interval, and so within the range of the target knots.
pub proof fn lemma_map_through_bounds(src: Seq<i64>, dst: Seq<i64>, t: int)
    requires
        knots_wf(src, dst),
        src[0] <= t <= src.last(),
    ensures
        dst[knot_interval(src, t).0] <= map_through(src, dst, t) <= dst[knot_interval(src, t).1],
        dst[0] <= map_through(src, dst, t) <= dst.last(),
{
    lemma_knot_interval_exists(src, t);
    let (b, e) = knot_interval(src, t);
    lemma_interpolate_bounds(t, src[b] as int, src[e] as int, dst[b] as int, dst[e] as int);
    assert(dst[0] <= dst[b]);
    assert(dst[e] <= dst[dst.len() - 1]);
}

/// Inserting a value at a position where it fits keeps a sequence sorted.
proof fn lemma_sorted_insert(s: Seq<i64>, p: int, v: i64)
    requires
        sorted(s),
        0 <= p <= s.len(),
        p > 0 ==> s[p - 1] <= v,
        p < s.len() ==> v <= s[p],
    ensures
        sorted(s.insert(p, v)),
{
    let r = s.insert(p, v);
    assert forall|i: int, j: int| 0 <= i <= j < r.len() implies r[i] <= r[j] by {
        if i < p && j > p {
            assert(s[i] <= s[p - 1]);
            assert(s[p] <= s[j - 1]);
        } else if i < p && j == p {
            assert(s[i] <= s[p - 1]);
        } else if i == p && j > p {
            assert(s[p] <= s[j - 1]);
        }
    }
}

/// Inserting a value strictly between its neighbours keeps a sequence strictly sorted.
proof fn lemma_strictly_sorted_insert(s: Seq<i64>, p: int, v: i64)
    requires
        strictly_sorted(s),
        0 <= p <= s.len(),
        p > 0 ==> s[p - 1] < v,
        p < s.len() ==> v < s[p],
    ensures
        strictly_sorted(s.insert(p, v)),
{
    let r = s.insert(p, v);
    assert forall|i: int, j: int| 0 <= i < j < r.len() implies r[i] < r[j] by {
        if i < p && j > p {
            if i < p - 1 {
                assert(s[i] < s[p - 1]);
            }
            if p < j - 1 {
                assert(s[p] < s[j - 1]);
            }
        } else if i < p && j == p {
            if i < p - 1 {
                assert(s[i] < s[p - 1]);
            }
        } else if i == p && j > p {
            if p < j - 1 {
                assert(s[p] < s[j - 1]);
            }
        }
    }
}

/// Sets position `p` of `l` to `to`, and pushes the other knots out of the way:
/// later ones up to `to` if `to` moved right, earlier ones down to `to` otherwise.
pub open spec fn retime_knot(l: Seq<i64>, p: int, to: i64) -> Seq<i64> {
    let right = to > l[p];
    Seq::new(
        l.len(),
        |k: int|
            if k == p {
                to
            } else if right && k > p {
                if l[k] > to {
                    l[k]
                } else {
                    to
                }
            } else if !right && k < p {
                if l[k] < to {
                    l[k]
                } else {
                    to
                }
            } else {
                l[k]
            },
    )
}

proof fn lemma_retime_knot_sorted(l: Seq<i64>, p: int, to: i64)
    requires
        sorted(l),
        0 <= p < l.len(),
    ensures
        sorted(retime_knot(l, p, to)),
{
    let r = retime_knot(l, p, to);
    assert forall|i: int, j: int| 0 <= i <= j < r.len() implies r[i] <= r[j] by {
        assert(l[i] <= l[j]);
        if i < p {
            assert(l[i] <= l[p]);
        }
        if j > p {
            assert(l[p] <= l[j]);
        }
    }
}

/// The outcome of looking up a time in a list of knots.
enum LerpResult {
    /// The time is after the last knot, by the given amount.
    AfterEnd(i128),
    /// The time is before the first knot, by the given (negative) amount.
    BeforeStart(i128),
    /// The time maps to a single time.
    SingleTime(i64),
    /// The time is a knot that maps to a whole interval of times.
    Interval(i64, i64),
}

/// Interpolates `t` from the knots `orig` to the knots `new`.
fn lerp_interval(t: i64, orig: &[i64], new: &[i64]) -> (r: LerpResult)
    requires
        knots_wf(orig@, new@),
    ensures
        t > orig@.last() ==> r == LerpResult::AfterEnd((t - orig@.last()) as i128),
        t < orig@[0] && t <= orig@.last() ==> r == LerpResult::BeforeStart((t - orig@[0]) as i128),
        orig@[0] <= t <= orig@.last() ==> match r {
            LerpResult::SingleTime(v) => v == map_through(orig@, new@, t as int),
            LerpResult::Interval(v, _) => v == map_through(orig@, new@, t as int),
            _ => false,
        },
{
    let n = orig.len();
    if t > orig[n - 1] {
        LerpResult::AfterEnd(t as i128 - orig[n - 1] as i128)
    } else if t < orig[0] {
        LerpResult::BeforeStart(t as i128 - orig[0] as i128)
    } else {
        let (begin, end) = search_interval(t, orig);
        let o0 = orig[begin];
        let o1 = orig[end];
        let n0 = new[begin];
        let n1 = new[end];
        assert(o0 <= o1 && n0 <= n1);
        assert(map_through(orig@, new@, t as int) == interpolate(
            t as int,
            o0 as int,
            o1 as int,
            n0 as int,
            n1 as int,
        ));
        if n0 == n1 {
            assert(o0 != o1 ==> (n1 - n0) * (t - o0) / (o1 - o0) == 0) by (nonlinear_arith)
                requires
                    n1 == n0,
            ;
            LerpResult::SingleTime(n0)
        } else if o0 == o1 {
            LerpResult::Interval(n0, n1)
        } else {
            let dn = (n1 as i128 - n0 as i128) as u128;
            let dt = (t as i128 - o0 as i128) as u128;
            let d = (o1 as i128 - o0 as i128) as u128;
            assert(dn * dt <= dn * d) by (nonlinear_arith)
                requires
                    dt <= d,
            ;
            assert(dn * d < 0x1_0000_0000_0000_0000u128 * 0x1_0000_0000_0000_0000u128) by (
            nonlinear_arith)
                requires
                    dn < 0x1_0000_0000_0000_0000u128,
                    d < 0x1_0000_0000_0000_0000u128,
            ;
            let q = (dn * dt) / d;
            assert(q <= dn) by (nonlinear_arith)
                requires
                    q as int == (dn * dt) / (d as int),
                    dn * dt <= dn * d,
                    d > 0,
            ;
            assert(dn * dt == (n1 - n0) * (t - o0));
            LerpResult::SingleTime((n0 as i128 + q as i128) as i64)
        }
    }
}

/// A copy of the knots in `s`.
fn copy_knots(s: &Vec<i64>) -> (r: Vec<i64>)
    ensures
        r@ == s@,
{
    let mut r: Vec<i64> = Vec::new();
    let mut i: usize = 0;
    while i < s.len()
        invariant
            i <= s@.len(),
            r@ == s@.subrange(0, i as int),
        decreases s@.len() - i,
    {
        r.push(s[i]);
        i = i + 1;
    }
    assert(r@ =~= s@);
    r
}

/// Where a warp from `time_from` puts its knot, for the original knots `o` and
/// lerped knots `l`: an existing knot at the original time shown at `time_from`,
/// or a new one strictly inside an interval of original knots whose lerped knots
/// enclose `time_from`.
pub proof fn lemma_warp_knot(o: Seq<i64>, l: Seq<i64>, time_from: int)
    requires
        knots_wf(o, l),
    ensures
        o[0] <= clamped_map(l, o, time_from) <= o.last(),
        0 <= lower_bound(o, clamped_map(l, o, time_from)) <= o.len(),
        is_lower_bound(o, clamped_map(l, o, time_from), lower_bound(o, clamped_map(l, o, time_from))),
        ({
            let src = clamped_map(l, o, time_from);
            let p = lower_bound(o, src);
            !(p < o.len() && o[p] == src) ==> {
                &&& 0 < p < o.len()
                &&& l[p - 1] <= time_from <= l[p]
                &&& o[p - 1] < src < o[p]
            }
        }),
{
    let n = o.len() as int;
    let src = clamped_map(l, o, time_from);
    lemma_lower_bound_exists(o, src);
    let p = lower_bound(o, src);
    assert(o[0] <= o[n - 1]);
    assert(l[0] <= l[n - 1]);
    if time_from > l.last() {
        assert(src == o[n - 1]);
        assert(p <= n - 1);
        assert(o[p] <= o[n - 1]);
    } else if time_from < l[0] {
        assert(src == o[0]);
        assert(p == 0) by {
            if p > 0 {
                assert(o[0] < src);
            }
        }
    } else {
        lemma_map_through_bounds(l, o, time_from);
        lemma_knot_interval_exists(l, time_from);
        let (b, e) = knot_interval(l, time_from);
        if o[b] == src {
            assert(p <= b) by {
                if p > b {
                    assert(o[b] < src);
                }
            }
            assert(o[p] <= o[b]);
        } else if o[e] == src {
            assert(p <= e) by {
                if p > e {
                    assert(o[e] < src);
                }
            }
            assert(o[p] <= o[e]);
        } else {
            assert(o[b] < src < o[e]);
            assert(l[b] != l[e]);
            assert(e == b + 1);
            assert(is_lower_bound(o, src, e)) by {
                assert forall|k: int| 0 <= k < e implies o[k] < src by {
                    assert(o[k] <= o[b]);
                }
                assert forall|k: int| e <= k < n implies o[k] >= src by {
                    assert(o[e] <= o[k]);
                }
            }
            lemma_lower_bound_is(o, src, e);
        }
    }
}

/// The original knots `o` (with lerped knots `l`) after a warp from `time_from`:
/// a knot is inserted at the original time shown at `time_from`, unless there
/// is one there already.
pub open spec fn warped_originals(o: Seq<i64>, l: Seq<i64>, time_from: i64) -> Seq<i64> {
    let src = clamped_map(l, o, time_from as int);
    let p = lower_bound(o, src);
    if p < o.len() && o[p] == src {
        o
    } else {
        o.insert(p, src as i64)
    }
}

/// The lerped knots `l` (with original knots `o`) after a warp from `time_from` to
/// `time_to`: the knot at the original time shown at `time_from` (inserted at
/// lerped time `time_from` if it is new) is moved to `time_to`, and the other
/// knots are pushed out of its way.
pub open spec fn warped_lerped(o: Seq<i64>, l: Seq<i64>, time_from: i64, time_to: i64) -> Seq<i64> {
    let src = clamped_map(l, o, time_from as int);
    let p = lower_bound(o, src);
    let l1 = if p < o.len() && o[p] == src {
        l
    } else {
        l.insert(p, time_from)
    };
    retime_knot(l1, p, time_to)
}

/// A piecewise-linear map between "original" times and "lerped" times.
#[derive(Debug, PartialEq)]
pub struct Lerp {
    original_values: Vec<i64>,
    lerped_values: Vec<i64>,
}

impl Lerp {
    /// The knots in original time.
    pub closed spec fn originals(&self) -> Seq<i64> {
        self.original_values@
    }

    /// The knots in lerped time.
    pub closed spec fn lerped(&self) -> Seq<i64> {
        self.lerped_values@
    }

    /// Both knot lists are sorted and have the same length.
    pub open spec fn wf(&self) -> bool {
        &&& self.originals().len() == self.lerped().len()
        &&& sorted(self.originals())
        &&& sorted(self.lerped())
    }

    /// A well-formed map with at least one knot, so that it can be evaluated.
    pub open spec fn valid(&self) -> bool {
        self.wf() && self.originals().len() > 0
    }

    /// The lerped time of the original time `t`, if `t` is within the knots.
    pub open spec fn spec_lerp(&self, t: int) -> Option<int> {
        if self.originals()[0] <= t <= self.originals().last() {
            Some(map_through(self.originals(), self.lerped(), t))
        } else {
            None
        }
    }

    /// The lerped time of the original time `t`, clamped to the first and last knot.
    pub open spec fn spec_lerp_clamped(&self, t: int) -> int {
        clamped_map(self.originals(), self.lerped(), t)
    }

    /// The original time of the lerped time `t`, if `t` is within the knots.
    pub open spec fn spec_unlerp(&self, t: int) -> Option<int> {
        if self.lerped()[0] <= t <= self.lerped().last() {
            Some(map_through(self.lerped(), self.originals(), t))
        } else {
            None
        }
    }

    /// The original time of the lerped time `t`, clamped to the first and last knot.
    pub open spec fn spec_unlerp_clamped(&self, t: int) -> int {
        clamped_map(self.lerped(), self.originals(), t)
    }

    /// The original time whose knot `add_lerp(time_from, _)` moves: the time shown
    /// at `time_from` before the change.
    pub open spec fn warp_source(&self, time_from: int) -> int {
        clamped_map(self.lerped(), self.originals(), time_from)
    }

    /// The knot position that `add_lerp(time_from, _)` moves.
    pub open spec fn warp_position(&self, time_from: int) -> int {
        lower_bound(self.originals(), self.warp_source(time_from))
    }

    /// Whether `add_lerp(time_from, _)` finds an existing knot to move.
    pub open spec fn warp_knot_exists(&self, time_from: int) -> bool {
        let p = self.warp_position(time_from);
        p < self.originals().len() && self.originals()[p] == self.warp_source(time_from)
    }

    /// The original knots after `add_lerp(time_from, _)`.
    pub open spec fn originals_after_warp(&self, time_from: i64) -> Seq<i64> {
        warped_originals(self.originals(), self.lerped(), time_from)
    }

    /// The lerped knots after `add_lerp(time_from, time_to)`.
    pub open spec fn lerped_after_warp(&self, time_from: i64, time_to: i64) -> Seq<i64> {
        warped_lerped(self.originals(), self.lerped(), time_from, time_to)
    }

    /// Where `add_lerp` puts its knot: an existing knot, or a new knot strictly
    /// inside an interval of original knots whose lerped knots enclose `time_from`.
    pub proof fn lemma_warp_position(&self, time_from: int)
        requires
            self.valid(),
        ensures
            self.originals()[0] <= self.warp_source(time_from) <= self.originals().last(),
            0 <= self.warp_position(time_from) <= self.originals().len(),
            is_lower_bound(
                self.originals(),
                self.warp_source(time_from),
                self.warp_position(time_from),
            ),
            !self.warp_knot_exists(time_from) ==> {
                let p = self.warp_position(time_from);
                &&& 0 < p < self.originals().len()
                &&& self.lerped()[p - 1] <= time_from <= self.lerped()[p]
                &&& self.originals()[p - 1] < self.warp_source(time_from) < self.originals()[p]
            },
    {
        lemma_warp_knot(self.originals(), self.lerped(), time_from);
    }

    /// Creates a map from the given knots, which must be of equal length. The
    /// map can only be evaluated if both lists are also sorted (see [`Lerp::wf`]);
    /// that is not checked here.
    pub fn new(original: Vec<i64>, lerped: Vec<i64>) -> (r: Lerp)
        requires
            original@.len() == lerped@.len(),
        ensures
            sorted(original@) && sorted(lerped@) ==> r.wf(),
            r.originals() == original@,
            r.lerped() == lerped@,
    {
        Lerp { original_values: original, lerped_values: lerped }
    }

    /// The first lerped knot.
    pub fn first(&self) -> (r: i64)
        requires
            self.lerped().len() > 0,
        ensures
            r == self.lerped()[0],
    {
        self.lerped_values[0]
    }

    /// The last lerped knot.
    pub fn last(&self) -> (r: i64)
        requires
            self.lerped().len() > 0,
        ensures
            r == self.lerped().last(),
    {
        self.lerped_values[self.lerped_values.len() - 1]
    }

    /// The lerped knots.
    pub fn times(&self) -> (r: &[i64])
        ensures
            r@ == self.lerped(),
    {
        self.lerped_values.as_slice()
    }

    /// The original knots.
    pub fn original_values(&self) -> (r: &[i64])
        ensures
            r@ == self.originals(),
    {
        self.original_values.as_slice()
    }

    /// Maps an original time to a lerped time, or `None` if it is outside the knots.
    pub fn lerp(&self, t: i64) -> (r: Option<i64>)
        requires
            self.valid(),
        ensures
            r matches Some(v) ==> self.spec_lerp(t as int) == Some(v as int),
            r is None <==> self.spec_lerp(t as int) is None,
    {
        match lerp_interval(t, self.original_values.as_slice(), self.lerped_values.as_slice()) {
            LerpResult::AfterEnd(_) => None,
            LerpResult::BeforeStart(_) => None,
            LerpResult::SingleTime(t) => Some(t),
            LerpResult::Interval(t, _) => Some(t),
        }
    }

    /// Maps an original time to a lerped time, clamping to the range of the knots.
    pub fn lerp_clamped(&self, t: i64) -> (r: i64)
        requires
            self.valid(),
        ensures
            r == self.spec_lerp_clamped(t as int),
    {
        match lerp_interval(t, self.original_values.as_slice(), self.lerped_values.as_slice()) {
            LerpResult::AfterEnd(_) => self.last(),
            LerpResult::BeforeStart(_) => self.first(),
            LerpResult::SingleTime(t) => t,
            LerpResult::Interval(t, _) => t,
        }
    }

    /// Maps a lerped time back to an original time, or `None` if it is outside the knots.
    pub fn unlerp(&self, t: i64) -> (r: Option<i64>)
        requires
            self.valid(),
        ensures
            r matches Some(v) ==> self.spec_unlerp(t as int) == Some(v as int),
            r is None <==> self.spec_unlerp(t as int) is None,
    {
        match lerp_interval(t, self.lerped_values.as_slice(), self.original_values.as_slice()) {
            LerpResult::AfterEnd(_) => None,
            LerpResult::BeforeStart(_) => None,
            LerpResult::SingleTime(t) => Some(t),
            LerpResult::Interval(t, _) => Some(t),
        }
    }

    /// Maps a lerped time back to an original time, clamping to the range of the knots.
    pub fn unlerp_clamped(&self, t: i64) -> (r: i64)
        requires
            self.valid(),
        ensures
            r == self.spec_unlerp_clamped(t as int),
    {
        match lerp_interval(t, self.lerped_values.as_slice(), self.original_values.as_slice()) {
            LerpResult::AfterEnd(_) => self.original_values[self.original_values.len() - 1],
            LerpResult::BeforeStart(_) => self.original_values[0],
            LerpResult::SingleTime(t) => t,
            LerpResult::Interval(t, _) => t,
        }
    }

    /// Warps time so that the image shown at lerped time `time_from` is shown at
    /// `time_to` instead: the knot at original time `unlerp_clamped(time_from)` (added
    /// if it is not there yet) is moved to `time_to`, and the other knots are pushed
    /// out of its way so that the lerped knots stay sorted.
    pub fn add_lerp(&mut self, time_from: i64, time_to: i64)
        requires
            old(self).valid(),
        ensures
            final(self).valid(),
            final(self).originals() == old(self).originals_after_warp(time_from),
            final(self).lerped() == old(self).lerped_after_warp(time_from, time_to),
    {
        let local_time_from = self.unlerp_clamped(time_from);
        proof {
            self.lemma_warp_position(time_from as int);
        }
        let ghost o0 = self.original_values@;
        let ghost l0 = self.lerped_values@;
        let idx = match binary_search(self.original_values.as_slice(), local_time_from) {
            Ok(idx) => {
                proof {
                    lemma_lower_bound_is(o0, local_time_from as int, idx as int);
                }
                idx
            },
            Err(idx) => {
                proof {
                    lemma_lower_bound_is(o0, local_time_from as int, idx as int);
                    lemma_sorted_insert(o0, idx as int, local_time_from);
                    lemma_sorted_insert(l0, idx as int, time_from);
                }
                self.original_values.insert(idx, local_time_from);
                self.lerped_values.insert(idx, time_from);
                idx
            },
        };
        let ghost l1 = self.lerped_values@;
        let ghost o1 = self.original_values@;
        assert(o1 == old(self).originals_after_warp(time_from));
        let n = self.lerped_values.len();
        let shift_right = time_to > self.lerped_values[idx];
        self.lerped_values[idx] = time_to;
        if shift_right {
            let mut k = idx + 1;
            while k < n
                invariant
                    idx < k <= n,
                    n == l1.len(),
                    self.original_values@ == o1,
                    self.lerped_values@.len() == n,
                    forall|j: int|
                        0 <= j < n ==> self.lerped_values@[j] == if j == idx {
                            time_to
                        } else if idx < j < k {
                            if l1[j] > time_to {
                                l1[j]
                            } else {
                                time_to
                            }
                        } else {
                            l1[j]
                        },
                decreases n - k,
            {
                if self.lerped_values[k] < time_to {
                    self.lerped_values[k] = time_to;
                }
                k = k + 1;
            }
        } else {
            let mut k: usize = 0;
            while k < idx
                invariant
                    0 <= k <= idx < n,
                    n == l1.len(),
                    self.original_values@ == o1,
                    self.lerped_values@.len() == n,
                    forall|j: int|
                        0 <= j < n ==> self.lerped_values@[j] == if j == idx {
                            time_to
                        } else if j < k {
                            if l1[j] < time_to {
                                l1[j]
                            } else {
                                time_to
                            }
                        } else {
                            l1[j]
                        },
                decreases idx - k,
            {
                if self.lerped_values[k] > time_to {
                    self.lerped_values[k] = time_to;
                }
                k = k + 1;
            }
        }
        assert(self.lerped_values@ =~= retime_knot(l1, idx as int, time_to));
        proof {
            lemma_retime_knot_sorted(l1, idx as int, time_to);
        }
    }

    /// A copy of this map with a warp added; see [`add_lerp`](Lerp::add_lerp).
    pub fn with_new_lerp(&self, time_from: i64, time_to: i64) -> (r: Lerp)
        requires
            self.valid(),
        ensures
            r.valid(),
            r.originals() == self.originals_after_warp(time_from),
            r.lerped() == self.lerped_after_warp(time_from, time_to),
    {
        let mut ret = self.clone();
        ret.add_lerp(time_from, time_to);
        ret
    }
}

impl Clone for Lerp {
    fn clone(&self) -> (r: Lerp)
        ensures
            r.originals() == self.originals(),
            r.lerped() == self.lerped(),
    {
        Lerp {
            original_values: copy_knots(&self.original_values),
            lerped_values: copy_knots(&self.lerped_values),
        }
    }
}

} // verus!

verus! {

/// A warp moves the image: after `add_lerp(time_from, time_to)`, the original
/// time that was shown at lerped time `time_from` is shown at `time_to`.
pub proof fn law_warp_moves_image(before: Lerp, after: Lerp, time_from: i64, time_to: i64)
    requires
        before.valid(),
        after.originals() == before.originals_after_warp(time_from),
        after.lerped() == before.lerped_after_warp(time_from, time_to),
    ensures
        after.spec_lerp(before.warp_source(time_from as int)) == Some(time_to as int),
{
    law_warped_knots_move_image(before.originals(), before.lerped(), time_from, time_to);
}

/// The same law over the knots themselves: through the warped knots, the
/// original time that the knots `o` and `l` showed at `time_from` lies within the
/// original knots and is shown at `time_to`.
pub proof fn law_warped_knots_move_image(o: Seq<i64>, l: Seq<i64>, time_from: i64, time_to: i64)
    requires
        knots_wf(o, l),
    ensures
        ({
            let src = clamped_map(l, o, time_from as int);
            let o2 = warped_originals(o, l, time_from);
            let l2 = warped_lerped(o, l, time_from, time_to);
            &&& o2[0] <= src <= o2.last()
            &&& map_through(o2, l2, src) == time_to
        }),
{
    lemma_warp_knot(o, l, time_from as int);
    let src = clamped_map(l, o, time_from as int);
    let p = lower_bound(o, src);
    let o2 = warped_originals(o, l, time_from);
    let l2 = warped_lerped(o, l, time_from, time_to);
    if !(p < o.len() && o[p] == src) {
        lemma_sorted_insert(o, p, src as i64);
    }
    assert(o2[p] == src);
    assert(forall|k: int| 0 <= k < p ==> o2[k] < src);
    assert(sorted(o2));
    assert(o2[0] <= src) by {
        if p > 0 {
            assert(o2[0] < src);
        }
    }
    assert(src <= o2.last()) by {
        assert(o2[p] <= o2[o2.len() - 1]);
    }
    lemma_knot_interval_exists(o2, src);
    let (b, e) = knot_interval(o2, src);
    assert(b == p) by {
        if b < p {
            assert(o2[b] < src);
            assert(e == b + 1 && src < o2[e]);
            assert(o2[e] <= o2[p]);
        } else if b > p {
            assert(o2[p] < src);
        }
    }
    assert(o2[e] == src) by {
        if o2[e] > src {
            assert(o2[b] < src);
        }
    }
    assert(l2[p] == time_to);
}

/// A warp keeps the original knots strictly increasing if they were.
pub proof fn law_warp_keeps_knots_distinct(before: Lerp, after: Lerp, time_from: i64, time_to: i64)
    requires
        before.valid(),
        strictly_sorted(before.originals()),
        after.originals() == before.originals_after_warp(time_from),
    ensures
        strictly_sorted(after.originals()),
{
    before.lemma_warp_position(time_from as int);
    let src = before.warp_source(time_from as int);
    let p = before.warp_position(time_from as int);
    if !before.warp_knot_exists(time_from as int) {
        lemma_strictly_sorted_insert(before.originals(), p, src as i64);
    }
}

/// Interpolation within a segment is monotone in the interpolated time.
proof fn lemma_interpolate_monotone(t1: int, t2: int, o0: int, o1: int, n0: int, n1: int)
    requires
        o0 <= t1 <= t2 <= o1,
        n0 <= n1,
    ensures
        interpolate(t1, o0, o1, n0, n1) <= interpolate(t2, o0, o1, n0, n1),
{
    if o0 != o1 {
        assert((n1 - n0) * (t1 - o0) / (o1 - o0) <= (n1 - n0) * (t2 - o0) / (o1 - o0)) by (
        nonlinear_arith)
            requires
                o0 <= t1 <= t2 <= o1,
                o0 < o1,
                n0 <= n1,
        {
            assert((n1 - n0) * (t1 - o0) <= (n1 - n0) * (t2 - o0));
        }
    }
}

/// Mapping through well-formed knots is monotone.
pub proof fn lemma_map_through_monotone(src: Seq<i64>, dst: Seq<i64>, t1: int, t2: int)
    requires
        knots_wf(src, dst),
        src[0] <= t1 <= t2 <= src.last(),
    ensures
        map_through(src, dst, t1) <= map_through(src, dst, t2),
{
    lemma_knot_interval_exists(src, t1);
    lemma_knot_interval_exists(src, t2);
    lemma_map_through_bounds(src, dst, t1);
    lemma_map_through_bounds(src, dst, t2);
    let (b1, e1) = knot_interval(src, t1);
    let (b2, e2) = knot_interval(src, t2);
    if b1 == b2 && e1 == e2 {
        lemma_interpolate_monotone(
            t1,
            t2,
            src[b1] as int,
            src[e1] as int,
            dst[b1] as int,
            dst[e1] as int,
        );
    } else {
        assert(e1 <= b2) by {
            if b2 < e1 {
                if src[b1] == t1 && src[e1] == t1 {
                    if src[b2] == t2 {
                        assert(src[b2] <= src[e1]);
                    } else {
                        assert(src[e2] <= src[e1]);
                    }
                } else {
                    if src[b2] == t2 && src[e2] == t2 {
                        assert(src[b2] <= src[b1]);
                    } else if e2 <= b1 {
                        assert(src[e2] <= src[b1]);
                    }
                }
            }
        }
        assert(dst[e1] <= dst[b2]);
    }
}

/// Warped time never runs backwards: `lerp_clamped` is monotone.
pub proof fn law_lerp_clamped_monotone(l: Lerp, t1: int, t2: int)
    requires
        l.valid(),
        t1 <= t2,
    ensures
        l.spec_lerp_clamped(t1) <= l.spec_lerp_clamped(t2),
{
    let o = l.originals();
    let d = l.lerped();
    let n = o.len() as int;
    assert(o[0] <= o[n - 1]);
    assert(d[0] <= d[n - 1]);
    if o[0] <= t1 <= o[n - 1] {
        lemma_map_through_bounds(o, d, t1);
    }
    if o[0] <= t2 <= o[n - 1] {
        lemma_map_through_bounds(o, d, t2);
    }
    if o[0] <= t1 && t2 <= o[n - 1] {
        lemma_map_through_monotone(o, d, t1, t2);
    }
}

/// Un-warping never runs backwards either: `unlerp_clamped` is monotone.
pub proof fn law_unlerp_clamped_monotone(l: Lerp, t1: int, t2: int)
    requires
        l.valid(),
        t1 <= t2,
    ensures
        l.spec_unlerp_clamped(t1) <= l.spec_unlerp_clamped(t2),
{
    let o = l.originals();
    let d = l.lerped();
    let n = o.len() as int;
    assert(o[0] <= o[n - 1]);
    assert(d[0] <= d[n - 1]);
    if d[0] <= t1 <= d[n - 1] {
        lemma_map_through_bounds(d, o, t1);
    }
    if d[0] <= t2 <= d[n - 1] {
        lemma_map_through_bounds(d, o, t2);
    }
    if d[0] <= t1 && t2 <= d[n - 1] {
        lemma_map_through_monotone(d, o, t1, t2);
    }
}

/// The clamped maps never leave the range of their target knots.
pub proof fn law_clamped_within_knots(l: Lerp, t: int)
    requires
        l.valid(),
    ensures
        l.lerped()[0] <= l.spec_lerp_clamped(t) <= l.lerped().last(),
        l.originals()[0] <= l.spec_unlerp_clamped(t) <= l.originals().last(),
{
    let o = l.originals();
    let d = l.lerped();
    let n = o.len() as int;
    assert(o[0] <= o[n - 1]);
    assert(d[0] <= d[n - 1]);
    if o[0] <= t <= o[n - 1] {
        lemma_map_through_bounds(o, d, t);
    }
    if d[0] <= t <= d[n - 1] {
        lemma_map_through_bounds(d, o, t);
    }
}

/// Between two knots, the map follows the straight line through them, rounded
/// down: it hits both knots exactly, and in between it is the largest value not
/// above the line.
pub proof fn law_interpolate_follows_line(t: int, o0: int, o1: int, n0: int, n1: int)
    requires
        o0 < o1,
        o0 <= t <= o1,
    ensures
        interpolate(o0, o0, o1, n0, n1) == n0,
        interpolate(o1, o0, o1, n0, n1) == n1,
        (interpolate(t, o0, o1, n0, n1) - n0) * (o1 - o0) <= (n1 - n0) * (t - o0),
        (n1 - n0) * (t - o0) < (interpolate(t, o0, o1, n0, n1) - n0 + 1) * (o1 - o0),
{
    let d = o1 - o0;
    let x = (n1 - n0) * (t - o0);
    let q = x / d;
    assert(q * d <= x < (q + 1) * d) by (nonlinear_arith)
        requires
            d > 0,
            q == x / d,
    ;
    assert((n1 - n0) * (o1 - o0) / (o1 - o0) == n1 - n0) by (nonlinear_arith)
        requires
            o1 - o0 > 0,
    ;
    assert((n1 - n0) * (o0 - o0) == 0);
}

/// Through distinct original knots, each knot is mapped to its lerped knot.
pub proof fn law_knots_map_to_knots(l: Lerp, k: int)
    requires
        l.valid(),
        strictly_sorted(l.originals()),
        0 <= k < l.originals().len(),
    ensures
        l.spec_lerp(l.originals()[k] as int) == Some(l.lerped()[k] as int),
{
    let o = l.originals();
    let x = o[k] as int;
    assert(o[0] <= o[k] <= o[o.len() - 1]);
    assert(is_knot_interval(o, x, k, k));
    lemma_knot_interval_is(o, x, k, k);
}

} // verus!
