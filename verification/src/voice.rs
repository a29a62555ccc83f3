//! Smoothing of voice detection over time.
//!
//! Frames where no voice was detected are not simply dropped, since that tends
//! to cut off consonants like "t". Instead, a frame is kept if voice was
//! detected within a given number of frames of it, forwards or backwards.

use vstd::prelude::*;

verus! {

/// Voice was detected within `width` frames of frame `i`.
pub open spec fn near_voice(xs: Seq<bool>, width: int, i: int) -> bool {
    exists|k: int| 0 <= k < xs.len() && i - width <= k <= i + width && #[trigger] xs[k]
}

/// The number of frames since the last `true` before position `i`, counting from
/// a virtual `true` at `-(width + 1)`.
spec fn frames_since(xs: Seq<bool>, width: int, i: int) -> int
    decreases i,
{
    if i <= 0 {
        width
    } else if xs[i - 1] {
        0
    } else {
        frames_since(xs, width, i - 1) + 1
    }
}

/// The number of frames until the next `true` at or after position `i`, counting
/// from a virtual `true` at `len + width`.
spec fn frames_until(xs: Seq<bool>, width: int, i: int) -> int
    decreases xs.len() - i,
{
    if i >= xs.len() {
        width
    } else if xs[i] {
        0
    } else {
        frames_until(xs, width, i + 1) + 1
    }
}

proof fn lemma_frames_since_bound(xs: Seq<bool>, width: int, i: int)
    requires
        0 <= i <= xs.len(),
        0 <= width,
    ensures
        0 <= frames_since(xs, width, i) <= width + i,
    decreases i,
{
    if i > 0 {
        lemma_frames_since_bound(xs, width, i - 1);
    }
}

proof fn lemma_frames_until_bound(xs: Seq<bool>, width: int, i: int)
    requires
        0 <= i <= xs.len(),
        0 <= width,
    ensures
        0 <= frames_until(xs, width, i) <= width + xs.len() - i,
    decreases xs.len() - i,
{
    if i < xs.len() {
        lemma_frames_until_bound(xs, width, i + 1);
    }
}

proof fn lemma_frames_since(xs: Seq<bool>, width: int, i: int, d: int)
    requires
        0 <= i <= xs.len(),
        0 <= d <= width,
        i >= 1 || d < width,
    ensures
        (frames_since(xs, width, i) <= d) <==> exists|k: int|
            0 <= k < xs.len() && i - 1 - d <= k <= i - 1 && #[trigger] xs[k],
    decreases i,
{
    if i > 0 {
        if d > 0 {
            lemma_frames_since(xs, width, i - 1, d - 1);
        } else {
            lemma_frames_since_bound(xs, width, i - 1);
        }
        if !xs[i - 1] && d > 0 && frames_since(xs, width, i - 1) <= d - 1 {
            let k = choose|k: int|
                0 <= k < xs.len() && i - 2 - (d - 1) <= k <= i - 2 && #[trigger] xs[k];
            assert(i - 1 - d <= k <= i - 1 && xs[k]);
        }
        if exists|k: int| 0 <= k < xs.len() && i - 1 - d <= k <= i - 1 && #[trigger] xs[k] {
            let k = choose|k: int| 0 <= k < xs.len() && i - 1 - d <= k <= i - 1 && #[trigger] xs[k];
            if !xs[i - 1] {
                assert(k < i - 1);
                assert(d > 0);
                assert(i - 2 - (d - 1) <= k <= i - 2);
            }
        }
    }
}

proof fn lemma_frames_until(xs: Seq<bool>, width: int, i: int, d: int)
    requires
        0 <= i <= xs.len(),
        0 <= d <= width,
        i < xs.len() || d < width,
    ensures
        (frames_until(xs, width, i) <= d) <==> exists|k: int|
            0 <= k < xs.len() && i <= k <= i + d && #[trigger] xs[k],
    decreases xs.len() - i,
{
    if i < xs.len() {
        if d > 0 {
            lemma_frames_until(xs, width, i + 1, d - 1);
        } else {
            lemma_frames_until_bound(xs, width, i + 1);
        }
        if !xs[i] && d > 0 && frames_until(xs, width, i + 1) <= d - 1 {
            let k = choose|k: int| 0 <= k < xs.len() && i + 1 <= k <= i + 1 + (d - 1) && #[trigger] xs[k];
            assert(i <= k <= i + d && xs[k]);
        }
        if exists|k: int| 0 <= k < xs.len() && i <= k <= i + d && #[trigger] xs[k] {
            let k = choose|k: int| 0 <= k < xs.len() && i <= k <= i + d && #[trigger] xs[k];
            if !xs[i] {
                assert(k > i);
                assert(d > 0);
                assert(i + 1 <= k <= i + 1 + (d - 1));
            }
        }
    }
}

/// Modifies `xs` so that everything within `width` of a `true` is set to `true`.
pub fn convolve_bools(xs: &mut [bool], width: usize)
    ensures
        final(xs)@.len() == old(xs)@.len(),
        forall|i: int|
            0 <= i < old(xs)@.len() ==> final(xs)@[i] == near_voice(old(xs)@, width as int, i),
{
    let ghost orig = xs@;
    let n = xs.len();
    let ghost w = width as int;
    // Forward: mark everything within `width` after a `true`.
    // The frames since the last voice, counted up to `width`; `far` once more.
    let mut count = width;
    let mut far = false;
    let mut i: usize = 0;
    while i < n
        invariant
            n == orig.len(),
            xs@.len() == n,
            i <= n,
            w == width,
            far == (frames_since(orig, w, i as int) > w),
            !far ==> count == frames_since(orig, w, i as int),
            count <= width,
            forall|j: int|
                0 <= j < i ==> xs@[j] == exists|k: int|
                    0 <= k < n && j - w <= k <= j && #[trigger] orig[k],
            forall|j: int| i <= j < n ==> xs@[j] == orig[j],
        decreases n - i,
    {
        proof {
            lemma_frames_since_bound(orig, w, i as int);
        }
        if xs[i] {
            count = 0;
            far = false;
        } else if !far {
            if count == width {
                far = true;
            } else {
                count = count + 1;
            }
        }
        proof {
            lemma_frames_since(orig, w, i + 1, w);
        }
        if !far {
            xs[i] = true;
        }
        assert(xs@[i as int] == exists|k: int| 0 <= k < n && i - w <= k <= i && #[trigger] orig[k])
            by {
            if orig[i as int] {
                assert(orig[i as int]);
            }
        }
        i = i + 1;
    }
    let ghost mid = xs@;
    // Backward: mark everything within `width` before a `true`.
    let mut count = width;
    let mut far = false;
    let mut i: usize = n;
    while i > 0
        invariant
            n == orig.len(),
            mid.len() == n,
            xs@.len() == n,
            i <= n,
            w == width,
            far == (frames_until(mid, w, i as int) > w),
            !far ==> count == frames_until(mid, w, i as int),
            count <= width,
            forall|j: int|
                i <= j < n ==> xs@[j] == exists|k: int|
                    0 <= k < n && j <= k <= j + w && #[trigger] mid[k],
            forall|j: int| 0 <= j < i ==> xs@[j] == mid[j],
        decreases i,
    {
        i = i - 1;
        proof {
            lemma_frames_until_bound(mid, w, i as int + 1);
        }
        if xs[i] {
            count = 0;
            far = false;
        } else if !far {
            if count == width {
                far = true;
            } else {
                count = count + 1;
            }
        }
        proof {
            lemma_frames_until(mid, w, i as int, w);
        }
        if !far {
            xs[i] = true;
        }
        assert(xs@[i as int] == exists|k: int| 0 <= k < n && i <= k <= i + w && #[trigger] mid[k])
            by {
            if mid[i as int] {
                assert(mid[i as int]);
            }
        }
    }
    assert forall|j: int| 0 <= j < n implies xs@[j] == near_voice(orig, w, j) by {
        if xs@[j] {
            let k = choose|k: int| 0 <= k < n && j <= k <= j + w && #[trigger] mid[k];
            let m = choose|m: int| 0 <= m < n && k - w <= m <= k && #[trigger] orig[m];
            if m < j - w {
                assert(false);
            }
            assert(orig[m]);
        }
        if near_voice(orig, w, j) {
            let m = choose|m: int| 0 <= m < n && j - w <= m <= j + w && #[trigger] orig[m];
            if m <= j {
                assert(mid[j] == exists|k: int| 0 <= k < n && j - w <= k <= j && #[trigger] orig[k]);
                assert(mid[j]);
            } else {
                assert(mid[m] == exists|k: int| 0 <= k < n && m - w <= k <= m && #[trigger] orig[k]);
                assert(mid[m]);
            }
        }
    }
}

} // verus!
