//! Recorded speech: buffers of audio samples placed on the timeline.

use std::sync::Arc;
use vstd::prelude::*;

use crate::time::{audio_idx_of_micros, micros_of_audio_idx, Time, TimeDiff};

verus! {

/// All audio is processed at 48kHz.
pub const SAMPLE_RATE: u32 = 48000;

/// Each speech snippet is uniquely identified by one of these ids.
#[derive(Clone, Copy, Debug, Eq, Hash, Ord, PartialEq, PartialOrd, Structural)]
pub struct TalkSnippetId(u64);

impl TalkSnippetId {
    /// The number of this id.
    pub closed spec fn number(&self) -> u64 {
        self.0
    }

    /// The id with the given number (as stored in save files).
    pub fn from_raw(raw: u64) -> (r: TalkSnippetId)
        ensures
            r.number() == raw,
    {
        TalkSnippetId(raw)
    }

    /// The number of this id (as stored in save files).
    pub fn raw(&self) -> (r: u64)
        ensures
            r == self.number(),
    {
        self.0
    }
}

/// The first position of an index into a buffer of length `len`, clamped into it.
pub open spec fn clamp_index(i: int, len: int) -> int {
    if i < 0 {
        0
    } else if i > len {
        len
    } else {
        i
    }
}

/// The contents of a [`TalkSnippet`].
pub struct TalkSnippetView {
    /// The audio samples.
    pub samples: Seq<i16>,
    /// The start time, in microseconds.
    pub start: int,
    /// The bit pattern of the `f32` volume multiplier.
    pub multiplier_bits: u32,
}

impl TalkSnippetView {
    /// The end time, in microseconds.
    pub open spec fn end(self) -> int {
        self.start + micros_of_audio_idx(self.samples.len() as int, SAMPLE_RATE as int)
    }

    /// The start and end times of this snippet can be represented.
    pub open spec fn wf(self) -> bool {
        &&& i64::MIN <= self.start <= i64::MAX
        &&& self.samples.len() <= i64::MAX
        &&& micros_of_audio_idx(self.samples.len() as int, SAMPLE_RATE as int) <= i64::MAX
        &&& i64::MIN <= self.end() <= i64::MAX
    }

    /// The sample position of time `t` in this snippet, clamped to the buffer.
    pub open spec fn sample_index(self, t: int) -> int {
        clamp_index(
            audio_idx_of_micros(t - self.start, SAMPLE_RATE as int),
            self.samples.len() as int,
        )
    }

    /// The sample positions of `from` and `to`, in increasing order.
    pub open spec fn sample_range(self, from: int, to: int) -> (int, int) {
        let a = self.sample_index(from);
        let b = self.sample_index(to);
        if a <= b {
            (a, b)
        } else {
            (b, a)
        }
    }

    /// This snippet, moved in time by `shift` microseconds.
    pub open spec fn shifted(self, shift: int) -> TalkSnippetView {
        TalkSnippetView { start: self.start + shift, ..self }
    }

    /// This snippet with another volume multiplier.
    pub open spec fn with_multiplier_bits(self, multiplier_bits: u32) -> TalkSnippetView {
        TalkSnippetView { multiplier_bits, ..self }
    }

    /// This snippet, with the samples between `from` and `to` set to zero.
    pub open spec fn silenced(self, from: int, to: int) -> TalkSnippetView {
        let (lo, hi) = self.sample_range(from, to);
        TalkSnippetView {
            samples: Seq::new(
                self.samples.len(),
                |i: int|
                    if lo <= i < hi {
                        0i16
                    } else {
                        self.samples[i]
                    },
            ),
            ..self
        }
    }

    /// This snippet, with the samples between `from` and `to` deleted.
    pub open spec fn snipped(self, from: int, to: int) -> TalkSnippetView {
        let (lo, hi) = self.sample_range(from, to);
        TalkSnippetView {
            samples: self.samples.subrange(0, lo) + self.samples.subrange(
                hi,
                self.samples.len() as int,
            ),
            ..self
        }
    }
}

/// A buffer of audio samples, starting at a particular time.
///
/// The samples are behind a shared pointer, so this is cheap to clone. The
/// volume multiplier is kept as the bit pattern of an `f32`.
#[derive(Debug, PartialEq)]
pub struct TalkSnippet {
    buf: Arc<Vec<i16>>,
    multiplier_bits: u32,
    start_time: Time,
}

impl View for TalkSnippet {
    type V = TalkSnippetView;

    closed spec fn view(&self) -> TalkSnippetView {
        TalkSnippetView {
            samples: self.buf@,
            start: self.start_time.0 as int,
            multiplier_bits: self.multiplier_bits,
        }
    }
}

impl TalkSnippet {
    /// Whether the start and end times of this snippet can be represented.
    pub fn times_fit(&self) -> (r: bool)
        ensures
            r == self@.wf(),
    {
        let n = self.buf.len();
        if (n as u128) > (i64::MAX as u128) {
            return false;
        }
        let micros: u128 = (n as u128) * 1_000_000 / 48000;
        assert(micros == micros_of_audio_idx(n as int, SAMPLE_RATE as int)) by {
            assert(n as int * 1_000_000 >= 0) by (nonlinear_arith)
                requires
                    n >= 0,
            ;
        }
        if micros > (i64::MAX as u128) {
            return false;
        }
        let end: i128 = (self.start_time.0 as i128) + (micros as i128);
        end <= (i64::MAX as i128)
    }
    /// Creates a snippet from its samples, its start time and its volume multiplier
    /// (the bits of an `f32`).
    pub fn new(buf: Vec<i16>, start_time: Time, multiplier_bits: u32) -> (r: TalkSnippet)
        ensures
            r@ == (TalkSnippetView { samples: buf@, start: start_time.0 as int, multiplier_bits }),
    {
        TalkSnippet { buf: Arc::new(buf), multiplier_bits, start_time }
    }

    /// The audio samples.
    pub fn buf(&self) -> (r: &[i16])
        ensures
            r@ == self@.samples,
    {
        self.buf.as_slice()
    }

    /// The time at which this snippet starts.
    pub fn start_time(&self) -> (r: Time)
        ensures
            r.0 == self@.start,
    {
        self.start_time
    }

    /// The time at which this snippet ends.
    pub fn end_time(&self) -> (r: Time)
        requires
            self@.wf(),
        ensures
            r.0 == self@.end(),
    {
        let length = TimeDiff::from_audio_idx(self.buf.len() as i64, SAMPLE_RATE);
        self.start_time.plus(length)
    }

    /// The bit pattern of the `f32` volume multiplier.
    pub fn multiplier_bits(&self) -> (r: u32)
        ensures
            r == self@.multiplier_bits,
    {
        self.multiplier_bits
    }

    /// A copy of this snippet with another volume multiplier (the bits of an `f32`).
    pub fn with_multiplier_bits(&self, multiplier_bits: u32) -> (r: TalkSnippet)
        ensures
            r@ == self@.with_multiplier_bits(multiplier_bits),
    {
        TalkSnippet { buf: Arc::clone(&self.buf), multiplier_bits, start_time: self.start_time }
    }

    /// A copy of this snippet, moved in time by `shift`.
    pub fn shifted(&self, shift: TimeDiff) -> (r: TalkSnippet)
        requires
            i64::MIN <= self@.start + shift.0 <= i64::MAX,
        ensures
            r@ == self@.shifted(shift.0 as int),
    {
        TalkSnippet {
            buf: Arc::clone(&self.buf),
            multiplier_bits: self.multiplier_bits,
            start_time: self.start_time.plus(shift),
        }
    }

    /// The sample position of `time` in this snippet, clamped to the buffer.
    fn idx(&self, time: Time) -> (r: usize)
        requires
            self@.wf(),
            i64::MIN <= time.0 - self@.start <= i64::MAX,
        ensures
            r == self@.sample_index(time.0 as int),
    {
        let i = time.minus(self.start_time).as_audio_idx(SAMPLE_RATE);
        let len = self.buf.len() as i64;
        if i < 0 {
            0
        } else if i > len {
            len as usize
        } else {
            i as usize
        }
    }

    /// Returns a new snippet, with all audio between `from` and `to` silenced.
    pub fn silenced(&self, from: Time, to: Time) -> (r: TalkSnippet)
        requires
            self@.wf(),
            i64::MIN <= from.0 - self@.start <= i64::MAX,
            i64::MIN <= to.0 - self@.start <= i64::MAX,
        ensures
            r@ == self@.silenced(from.0 as int, to.0 as int),
            r@.wf(),
    {
        let from_idx = self.idx(from);
        let to_idx = self.idx(to);
        let (from_idx, to_idx) = if from_idx <= to_idx {
            (from_idx, to_idx)
        } else {
            (to_idx, from_idx)
        };
        let ghost target = Seq::new(
            self@.samples.len(),
            |i: int|
                if from_idx <= i < to_idx {
                    0i16
                } else {
                    self@.samples[i]
                },
        );
        if from_idx < to_idx {
            let mut buf: Vec<i16> = Vec::new();
            let n = self.buf.len();
            let mut i: usize = 0;
            while i < n
                invariant
                    i <= n,
                    n == self@.samples.len(),
                    buf@ == target.subrange(0, i as int),
                    target == Seq::new(
                        self@.samples.len(),
                        |k: int|
                            if from_idx <= k < to_idx {
                                0i16
                            } else {
                                self@.samples[k]
                            },
                    ),
                decreases n - i,
            {
                if from_idx <= i && i < to_idx {
                    buf.push(0);
                } else {
                    buf.push(self.buf[i]);
                }
                assert(buf@ =~= target.subrange(0, i + 1));
                i = i + 1;
            }
            assert(buf@ =~= target);
            TalkSnippet {
                buf: Arc::new(buf),
                multiplier_bits: self.multiplier_bits,
                start_time: self.start_time,
            }
        } else {
            assert(self@.samples =~= target);
            self.clone()
        }
    }

    /// Returns a new (shorter) snippet, with all audio between `from` and `to` deleted.
    pub fn snipped(&self, from: Time, to: Time) -> (r: TalkSnippet)
        requires
            self@.wf(),
            i64::MIN <= from.0 - self@.start <= i64::MAX,
            i64::MIN <= to.0 - self@.start <= i64::MAX,
        ensures
            r@ == self@.snipped(from.0 as int, to.0 as int),
            r@.wf(),
    {
        let from_idx = self.idx(from);
        let to_idx = self.idx(to);
        let (from_idx, to_idx) = if from_idx <= to_idx {
            (from_idx, to_idx)
        } else {
            (to_idx, from_idx)
        };
        let n = self.buf.len();
        let ghost samples = self@.samples;
        let ghost target = samples.subrange(0, from_idx as int) + samples.subrange(
            to_idx as int,
            n as int,
        );
        if from_idx < to_idx {
            let mut buf: Vec<i16> = Vec::new();
            let mut i: usize = 0;
            while i < from_idx
                invariant
                    i <= from_idx <= to_idx <= n,
                    n == samples.len(),
                    samples == self@.samples,
                    buf@ == samples.subrange(0, i as int),
                decreases from_idx - i,
            {
                buf.push(self.buf[i]);
                i = i + 1;
            }
            let mut j: usize = to_idx;
            while j < n
                invariant
                    from_idx <= to_idx <= j <= n,
                    n == samples.len(),
                    samples == self@.samples,
                    buf@ == samples.subrange(0, from_idx as int) + samples.subrange(
                        to_idx as int,
                        j as int,
                    ),
                decreases n - j,
            {
                buf.push(self.buf[j]);
                assert(samples.subrange(to_idx as int, j + 1) =~= samples.subrange(
                    to_idx as int,
                    j as int,
                ).push(samples[j as int]));
                j = j + 1;
            }
            assert(buf@ =~= target);
            proof {
                lemma_micros_of_audio_idx_monotone(buf@.len() as int, n as int);
            }
            TalkSnippet {
                buf: Arc::new(buf),
                multiplier_bits: self.multiplier_bits,
                start_time: self.start_time,
            }
        } else {
            assert(samples =~= target);
            self.clone()
        }
    }
}

impl Clone for TalkSnippet {
    fn clone(&self) -> (r: TalkSnippet)
        ensures
            r@ == self@,
    {
        TalkSnippet {
            buf: Arc::clone(&self.buf),
            multiplier_bits: self.multiplier_bits,
            start_time: self.start_time,
        }
    }
}

/// Longer buffers last longer.
proof fn lemma_micros_of_audio_idx_monotone(a: int, b: int)
    requires
        0 <= a <= b,
    ensures
        0 <= micros_of_audio_idx(a, SAMPLE_RATE as int) <= micros_of_audio_idx(b, SAMPLE_RATE as int),
{
    assert(0 <= (a * 1_000_000) / 48000 <= (b * 1_000_000) / 48000) by (nonlinear_arith)
        requires
            0 <= a <= b,
    ;
}

/// The contents of a [`TalkSnippets`] collection.
pub struct TalkSnippetsView {
    /// The largest id handed out so far.
    pub last_id: u64,
    /// The snippets with their id numbers, in increasing order of id.
    pub snippets: Seq<(u64, TalkSnippetView)>,
}

impl TalkSnippetsView {
    /// Ids are increasing and none is larger than the last id handed out.
    pub open spec fn wf(self) -> bool {
        &&& forall|i: int, j: int|
            0 <= i < j < self.snippets.len() ==> self.snippets[i].0 < self.snippets[j].0
        &&& forall|i: int| 0 <= i < self.snippets.len() ==> self.snippets[i].0 <= self.last_id
    }

    /// There is a snippet with id number `id`.
    pub open spec fn contains(self, id: u64) -> bool {
        exists|i: int| 0 <= i < self.snippets.len() && self.snippets[i].0 == id
    }

    /// The position of the snippet with id number `id`.
    pub open spec fn position_of(self, id: u64) -> int {
        choose|i: int| 0 <= i < self.snippets.len() && self.snippets[i].0 == id
    }

    /// The snippet with id number `id`.
    pub open spec fn snippet(self, id: u64) -> TalkSnippetView {
        self.snippets[self.position_of(id)].1
    }

    /// This collection with `snip` added under the next id.
    pub open spec fn with_new(self, snip: TalkSnippetView) -> TalkSnippetsView {
        let id = (self.last_id + 1) as u64;
        TalkSnippetsView { last_id: id, snippets: self.snippets.push((id, snip)) }
    }

    /// This collection with the snippet `id` replaced by `snip`.
    pub open spec fn replaced(self, id: u64, snip: TalkSnippetView) -> TalkSnippetsView {
        TalkSnippetsView {
            snippets: self.snippets.update(self.position_of(id), (id, snip)),
            ..self
        }
    }

    /// This collection without the snippet `id` (unchanged if there is none).
    pub open spec fn removed(self, id: u64) -> TalkSnippetsView {
        if self.contains(id) {
            TalkSnippetsView { snippets: self.snippets.remove(self.position_of(id)), ..self }
        } else {
            self
        }
    }

    /// Every snippet's times can be represented.
    pub open spec fn all_wf(self) -> bool {
        forall|i: int| 0 <= i < self.snippets.len() ==> (#[trigger] self.snippets[i]).1.wf()
    }
}

/// The latest end time among `s`, or zero if it is empty.
pub open spec fn latest_end(s: Seq<(u64, TalkSnippetView)>) -> int
    decreases s.len(),
{
    if s.len() == 0 {
        0
    } else if s.len() == 1 {
        s[0].1.end()
    } else {
        let e = s.last().1.end();
        let m = latest_end(s.drop_last());
        if e > m {
            e
        } else {
            m
        }
    }
}

/// The stretch of sample positions, on the timeline, during which a snippet
/// plays: from `start` up to `end` (forever if there is no end).
#[derive(Clone, Copy, Debug, PartialEq, Eq)]
pub struct Span {
    pub start: i64,
    pub end: Option<i64>,
    pub id: TalkSnippetId,
}

/// The sample position on the timeline at which `s` starts.
pub open spec fn start_sample(s: TalkSnippetView) -> int {
    audio_idx_of_micros(s.start, SAMPLE_RATE as int)
}

/// The samples of a snippet that start at timeline position `span_start`, and
/// play while the timeline goes from `from` to `to`: their range in the snippet,
/// and how far after `from` the first of them plays.
pub open spec fn mix_range(span_start: int, len: int, from: int, to: int) -> (int, int, int) {
    let first = if from - span_start > 0 {
        from - span_start
    } else {
        0
    };
    let past = if to - span_start > 0 {
        to - span_start
    } else {
        0
    };
    let last = if past < len {
        past
    } else {
        len
    };
    let offset = if span_start - from > 0 {
        span_start - from
    } else {
        0
    };
    (first, last, offset)
}

/// The samples mixed from a snippet that plays between `from` and `to` fit in
/// that window: the snippet's sample at position `p` plays at timeline position
/// `span_start + p`, and the samples stop only at the end of the window or of the
/// snippet.
pub proof fn law_mix_range_fits(span_start: int, len: int, from: int, to: int)
    requires
        0 <= len,
        from <= to,
        span_start < to,
        from < span_start + len,
    ensures
        ({
            let (first, last, offset) = mix_range(span_start, len, from, to);
            &&& 0 <= first <= last <= len
            &&& span_start + first == from + offset
            &&& offset + (last - first) <= to - from
            &&& last == len || offset + (last - first) == to - from
        }),
{
}

proof fn lemma_start_sample_bounds(s: TalkSnippetView)
    requires
        s.wf(),
    ensures
        -(i64::MAX / 16) <= start_sample(s) <= i64::MAX / 16,
        start_sample(s) + s.samples.len() <= i64::MAX,
{
    let st = s.start;
    let n = s.samples.len() as int;
    assert(-0x8000_0000_0000_0000 * 48000 <= st * 48000 <= 0x7fff_ffff_ffff_ffff * 48000)
        by (nonlinear_arith)
        requires
            i64::MIN <= st <= i64::MAX,
    ;
    assert(n * 1_000_000 >= 0) by (nonlinear_arith)
        requires
            n >= 0,
    ;
    assert(n <= i64::MAX / 16) by (nonlinear_arith)
        requires
            n >= 0,
            (n * 1_000_000) / 48000 <= i64::MAX,
    ;
}

/// A collection of [`TalkSnippet`]s, each identified by a [`TalkSnippetId`].
#[derive(Debug, PartialEq)]
pub struct TalkSnippets {
    last_id: u64,
    // In increasing order of id.
    snippets: Vec<(TalkSnippetId, TalkSnippet)>,
}

impl View for TalkSnippets {
    type V = TalkSnippetsView;

    closed spec fn view(&self) -> TalkSnippetsView {
        TalkSnippetsView {
            last_id: self.last_id,
            snippets: self.snippets@.map_values(
                |p: (TalkSnippetId, TalkSnippet)| (p.0.0, p.1@),
            ),
        }
    }
}

impl TalkSnippets {
    /// An empty collection.
    pub fn new() -> (r: TalkSnippets)
        ensures
            r@.wf(),
            r@.last_id == 0,
            r@.snippets.len() == 0,
    {
        let r = TalkSnippets { last_id: 0, snippets: Vec::new() };
        assert(r@.snippets =~= Seq::<(u64, TalkSnippetView)>::empty());
        r
    }

    /// Rebuilds a collection from its snippets (as stored in save files), which
    /// must be in increasing order of id. Ids handed out later will be larger
    /// than all of these.
    pub fn from_snippets(snippets: Vec<(TalkSnippetId, TalkSnippet)>) -> (r: TalkSnippets)
        requires
            forall|i: int, j: int|
                0 <= i < j < snippets@.len() ==> snippets@[i].0.number() < snippets@[j].0.number(),
        ensures
            r@.wf(),
            r@.snippets == snippets@.map_values(|p: (TalkSnippetId, TalkSnippet)| (p.0.number(), p.1@)),
            r@.last_id == if snippets@.len() == 0 {
                0
            } else {
                snippets@.last().0.number()
            },
    {
        let last_id = if snippets.len() == 0 {
            0
        } else {
            snippets[snippets.len() - 1].0.0
        };
        let r = TalkSnippets { last_id, snippets };
        assert(r@.wf()) by {
            let s = r@.snippets;
            assert forall|i: int| 0 <= i < s.len() implies s[i].0 <= r@.last_id by {
                if i < s.len() - 1 {
                    assert(snippets@[i].0.number() < snippets@[s.len() - 1].0.number());
                }
            }
        }
        r
    }

    /// A copy of this collection (the snippets' samples are shared).
    fn copy(&self) -> (r: TalkSnippets)
        ensures
            r@ == self@,
    {
        let mut v: Vec<(TalkSnippetId, TalkSnippet)> = Vec::new();
        let mut i: usize = 0;
        while i < self.snippets.len()
            invariant
                i <= self.snippets@.len(),
                v@.len() == i,
                forall|k: int|
                    0 <= k < i ==> v@[k].0 == self.snippets@[k].0 && v@[k].1@
                        == self.snippets@[k].1@,
            decreases self.snippets@.len() - i,
        {
            let id = self.snippets[i].0;
            let snip = self.snippets[i].1.clone();
            v.push((id, snip));
            i = i + 1;
        }
        let r = TalkSnippets { last_id: self.last_id, snippets: v };
        assert(r@.snippets =~= self@.snippets);
        r
    }

    /// The position of the snippet `id`, if there is one.
    fn position(&self, id: TalkSnippetId) -> (r: Option<usize>)
        requires
            self@.wf(),
        ensures
            r matches Some(i) ==> i < self@.snippets.len() && i == self@.position_of(id.number()),
            r is None <==> !self@.contains(id.number()),
    {
        let mut i: usize = 0;
        while i < self.snippets.len()
            invariant
                i <= self.snippets@.len(),
                self@.wf(),
                forall|k: int| 0 <= k < i ==> self@.snippets[k].0 != id.number(),
            decreases self.snippets@.len() - i,
        {
            if self.snippets[i].0.0 == id.0 {
                proof {
                    assert(self@.snippets[i as int].0 == id.number());
                    let p = self@.position_of(id.number());
                    assert(self@.snippets[p].0 == id.number());
                    if p != i {
                        if p < i {
                            assert(self@.snippets[p].0 < self@.snippets[i as int].0);
                        } else {
                            assert(self@.snippets[i as int].0 < self@.snippets[p].0);
                        }
                    }
                }
                return Some(i);
            }
            i = i + 1;
        }
        None
    }

    /// A copy of this collection with the snippet at position `i` replaced.
    fn with_replaced(&self, i: usize, snip: TalkSnippet) -> (r: TalkSnippets)
        requires
            i < self@.snippets.len(),
        ensures
            r@ == (TalkSnippetsView {
                snippets: self@.snippets.update(i as int, (self@.snippets[i as int].0, snip@)),
                ..self@
            }),
            self@.wf() ==> r@.wf(),
    {
        let mut ret = self.copy();
        let id = ret.snippets[i].0;
        ret.snippets.set(i, (id, snip));
        assert(ret@.snippets =~= self@.snippets.update(i as int, (self@.snippets[i as int].0, snip@)));
        ret
    }

    /// Adds a snippet, returning the new collection and the id of the snippet.
    pub fn with_new_snippet(&self, snip: TalkSnippet) -> (r: (TalkSnippets, TalkSnippetId))
        requires
            self@.wf(),
            self@.last_id < u64::MAX,
        ensures
            r.0@.wf(),
            r.1.number() == self@.last_id + 1,
            r.0@.last_id == self@.last_id + 1,
            r.0@.snippets == self@.snippets.push((r.1.number(), snip@)),
            r.0@ == self@.with_new(snip@),
    {
        let mut ret = self.copy();
        ret.last_id = ret.last_id + 1;
        let id = TalkSnippetId(ret.last_id);
        ret.snippets.push((id, snip));
        assert(ret@.snippets =~= self@.snippets.push((id.number(), snip@)));
        (ret, id)
    }

    /// Is there a snippet with this id?
    pub fn has_snippet(&self, id: TalkSnippetId) -> (r: bool)
        requires
            self@.wf(),
        ensures
            r == self@.contains(id.number()),
    {
        self.position(id).is_some()
    }

    /// The snippet with this id.
    pub fn snippet(&self, id: TalkSnippetId) -> (r: &TalkSnippet)
        requires
            self@.wf(),
            self@.contains(id.number()),
        ensures
            r@ == self@.snippet(id.number()),
    {
        let i = self.position(id).unwrap();
        &self.snippets[i].1
    }

    /// The snippets with their ids, in increasing order of id.
    pub fn snippets(&self) -> (r: &[(TalkSnippetId, TalkSnippet)])
        ensures
            r@.map_values(|p: (TalkSnippetId, TalkSnippet)| (p.0.number(), p.1@))
                == self@.snippets,
    {
        self.snippets.as_slice()
    }

    /// A copy of this collection with the snippet `id` moved in time by `shift`.
    pub fn with_shifted_snippet(&self, id: TalkSnippetId, shift: TimeDiff) -> (r: TalkSnippets)
        requires
            self@.wf(),
            self@.contains(id.number()),
            i64::MIN <= self@.snippet(id.number()).start + shift.0 <= i64::MAX,
        ensures
            r@ == self@.replaced(id.number(), self@.snippet(id.number()).shifted(shift.0 as int)),
            r@.wf(),
    {
        let i = self.position(id).unwrap();
        let snip = self.snippets[i].1.shifted(shift);
        self.with_replaced(i, snip)
    }

    /// A copy of this collection with the volume multiplier of snippet `id` replaced
    /// (by the bits of an `f32`).
    pub fn with_snippet_multiplier_bits(&self, id: TalkSnippetId, multiplier_bits: u32) -> (r:
        TalkSnippets)
        requires
            self@.wf(),
            self@.contains(id.number()),
        ensures
            r@ == self@.replaced(
                id.number(),
                self@.snippet(id.number()).with_multiplier_bits(multiplier_bits),
            ),
            r@.wf(),
    {
        let i = self.position(id).unwrap();
        let snip = self.snippets[i].1.with_multiplier_bits(multiplier_bits);
        self.with_replaced(i, snip)
    }

    /// A copy of this collection with the audio of snippet `id` between `start` and
    /// `end` silenced.
    pub fn with_silenced_snippet(&self, id: TalkSnippetId, start: Time, end: Time) -> (r:
        TalkSnippets)
        requires
            self@.wf(),
            self@.contains(id.number()),
            self@.snippet(id.number()).wf(),
            i64::MIN <= start.0 - self@.snippet(id.number()).start <= i64::MAX,
            i64::MIN <= end.0 - self@.snippet(id.number()).start <= i64::MAX,
        ensures
            r@ == self@.replaced(
                id.number(),
                self@.snippet(id.number()).silenced(start.0 as int, end.0 as int),
            ),
            r@.wf(),
    {
        let i = self.position(id).unwrap();
        let snip = self.snippets[i].1.silenced(start, end);
        self.with_replaced(i, snip)
    }

    /// A copy of this collection with the audio of snippet `id` between `start` and
    /// `end` deleted; the snippet is removed if nothing is left of it.
    pub fn with_snipped_snippet(&self, id: TalkSnippetId, start: Time, end: Time) -> (r:
        TalkSnippets)
        requires
            self@.wf(),
            self@.contains(id.number()),
            self@.snippet(id.number()).wf(),
            i64::MIN <= start.0 - self@.snippet(id.number()).start <= i64::MAX,
            i64::MIN <= end.0 - self@.snippet(id.number()).start <= i64::MAX,
        ensures
            ({
                let snipped = self@.snippet(id.number()).snipped(start.0 as int, end.0 as int);
                r@ == if snipped.samples.len() == 0 {
                    self@.removed(id.number())
                } else {
                    self@.replaced(id.number(), snipped)
                }
            }),
            r@.wf(),
    {
        let i = self.position(id).unwrap();
        let snip = self.snippets[i].1.snipped(start, end);
        if snip.buf.len() == 0 {
            self.without_snippet(id)
        } else {
            self.with_replaced(i, snip)
        }
    }

    /// A copy of this collection without the snippet `id` (if it is there).
    pub fn without_snippet(&self, id: TalkSnippetId) -> (r: TalkSnippets)
        requires
            self@.wf(),
        ensures
            r@ == self@.removed(id.number()),
            r@.wf(),
    {
        let mut ret = self.copy();
        match self.position(id) {
            Some(i) => {
                ret.snippets.remove(i);
                assert(ret@.snippets =~= self@.snippets.remove(i as int));
            },
            None => {},
        }
        ret
    }

    /// The time at which the last snippet ends, or zero if there are none.
    pub fn end_time(&self) -> (r: Time)
        requires
            self@.all_wf(),
        ensures
            r.0 == latest_end(self@.snippets),
    {
        let mut best: Time = Time::zero();
        let mut i: usize = 0;
        while i < self.snippets.len()
            invariant
                i <= self.snippets@.len(),
                self@.all_wf(),
                best.0 == latest_end(self@.snippets.subrange(0, i as int)),
            decreases self.snippets@.len() - i,
        {
            assert(self@.snippets[i as int].1 == self.snippets@[i as int].1@);
            assert(self@.snippets[i as int].1.wf());
            let e = self.snippets[i].1.end_time();
            proof {
                let s = self@.snippets.subrange(0, i + 1);
                assert(s.drop_last() =~= self@.snippets.subrange(0, i as int));
                assert(s.last() == self@.snippets[i as int]);
            }
            if i == 0 || e.0 > best.0 {
                best = e;
            }
            i = i + 1;
        }
        assert(self@.snippets.subrange(0, self.snippets@.len() as int) =~= self@.snippets);
        best
    }

    /// Whether every snippet's times can be represented.
    pub fn times_fit(&self) -> (r: bool)
        ensures
            r == self@.all_wf(),
    {
        let mut i: usize = 0;
        while i < self.snippets.len()
            invariant
                i <= self@.snippets.len(),
                forall|k: int| 0 <= k < i ==> (#[trigger] self@.snippets[k]).1.wf(),
            decreases self@.snippets.len() - i,
        {
            assert(self@.snippets[i as int].1 == self.snippets@[i as int].1@);
            if !self.snippets[i].1.times_fit() {
                return false;
            }
            i = i + 1;
        }
        true
    }

    /// The stretch of sample positions on the timeline of each snippet, in
    /// increasing order of id.
    pub fn snippet_spans(&self) -> (r: Vec<Span>)
        requires
            self@.all_wf(),
        ensures
            r@.len() == self@.snippets.len(),
            forall|k: int|
                0 <= k < r@.len() ==> {
                    let s = #[trigger] self@.snippets[k];
                    &&& r@[k].id.number() == s.0
                    &&& r@[k].start == start_sample(s.1)
                    &&& r@[k].end == Some((start_sample(s.1) + s.1.samples.len()) as i64)
                },
    {
        let mut spans: Vec<Span> = Vec::new();
        let mut i: usize = 0;
        while i < self.snippets.len()
            invariant
                i <= self@.snippets.len(),
                self@.all_wf(),
                spans@.len() == i,
                forall|k: int|
                    0 <= k < i ==> {
                        let s = #[trigger] self@.snippets[k];
                        &&& spans@[k].id.number() == s.0
                        &&& spans@[k].start == start_sample(s.1)
                        &&& spans@[k].end == Some((start_sample(s.1) + s.1.samples.len()) as i64)
                    },
            decreases self@.snippets.len() - i,
        {
            let id = self.snippets[i].0;
            let snip = &self.snippets[i].1;
            assert(self@.snippets[i as int] == (id.number(), snip@));
            proof {
                lemma_start_sample_bounds(snip@);
            }
            let start = snip.start_time().as_audio_idx(SAMPLE_RATE);
            let end = start + snip.buf().len() as i64;
            spans.push(Span { start, end: Some(end), id });
            i = i + 1;
        }
        spans
    }

    /// For each of the `spans` that play while the timeline goes from sample
    /// position `from` to `to`: the snippet, the samples of it that play, and how
    /// far after `from` they start.
    pub fn mix_sources(&self, spans: &[Span], from: i64, to: i64) -> (r: Vec<(TalkSnippetId, &[i16], usize)>)
        requires
            self@.wf(),
            forall|k: int|
                0 <= k < spans@.len() ==> {
                    let sp = #[trigger] spans@[k];
                    let len = self@.snippet(sp.id.number()).samples.len() as int;
                    let m = mix_range(sp.start as int, len, from as int, to as int);
                    &&& self@.contains(sp.id.number())
                    &&& i64::MIN <= from - sp.start <= i64::MAX
                    &&& i64::MIN <= to - sp.start <= i64::MAX
                    &&& m.0 <= m.1
                    &&& m.2 <= usize::MAX
                },
        ensures
            r@.len() == spans@.len(),
            forall|k: int|
                0 <= k < r@.len() ==> {
                    let sp = #[trigger] spans@[k];
                    let samples = self@.snippet(sp.id.number()).samples;
                    let m = mix_range(sp.start as int, samples.len() as int, from as int, to as int);
                    &&& r@[k].0 == sp.id
                    &&& r@[k].1@ == samples.subrange(m.0, m.1)
                    &&& r@[k].2 == m.2
                },
    {
        let mut out: Vec<(TalkSnippetId, &[i16], usize)> = Vec::new();
        let mut k: usize = 0;
        while k < spans.len()
            invariant
                k <= spans@.len(),
                self@.wf(),
                forall|j: int|
                    0 <= j < spans@.len() ==> {
                        let sp = #[trigger] spans@[j];
                        let len = self@.snippet(sp.id.number()).samples.len() as int;
                        let m = mix_range(sp.start as int, len, from as int, to as int);
                        &&& self@.contains(sp.id.number())
                        &&& i64::MIN <= from - sp.start <= i64::MAX
                        &&& i64::MIN <= to - sp.start <= i64::MAX
                        &&& m.0 <= m.1
                        &&& m.2 <= usize::MAX
                    },
                out@.len() == k,
                forall|j: int|
                    0 <= j < k ==> {
                        let sp = #[trigger] spans@[j];
                        let samples = self@.snippet(sp.id.number()).samples;
                        let m = mix_range(sp.start as int, samples.len() as int, from as int, to as int);
                        &&& out@[j].0 == sp.id
                        &&& out@[j].1@ == samples.subrange(m.0, m.1)
                        &&& out@[j].2 == m.2
                    },
            decreases spans@.len() - k,
        {
            let sp = spans[k];
            assert(sp == spans@[k as int]);
            let snip = self.snippet(sp.id);
            let buf = snip.buf();
            let ghost m = mix_range(sp.start as int, buf@.len() as int, from as int, to as int);
            let before = from - sp.start;
            let after = to - sp.start;
            let last: usize = if after <= 0 {
                0
            } else if (after as u64) < (buf.len() as u64) {
                after as usize
            } else {
                buf.len()
            };
            let first: usize = if before > 0 {
                before as usize
            } else {
                0
            };
            let offset: usize = if before < 0 {
                (0 - (before as i128)) as usize
            } else {
                0
            };
            assert(first == m.0 && last == m.1 && offset == m.2);
            out.push((sp.id, vstd::slice::slice_subrange(buf, first, last), offset));
            k = k + 1;
        }
        out
    }
}

impl Clone for TalkSnippets {
    fn clone(&self) -> (r: TalkSnippets)
        ensures
            r@ == self@,
    {
        self.copy()
    }
}

impl Default for TalkSnippets {
    fn default() -> (r: TalkSnippets)
        ensures
            r@.wf(),
            r@.last_id == 0,
            r@.snippets.len() == 0,
    {
        TalkSnippets::new()
    }
}

} // verus!

verus! {

/// A new snippet gets an id that no snippet had before, and can be found under it.
pub proof fn law_new_snippet_is_fresh(before: TalkSnippetsView, snip: TalkSnippetView)
    requires
        before.wf(),
        before.last_id < u64::MAX,
    ensures
        ({
            let id = (before.last_id + 1) as u64;
            let after = before.with_new(snip);
            &&& !before.contains(id)
            &&& after.wf()
            &&& after.contains(id)
            &&& after.snippet(id) == snip
            &&& forall|other: u64| other != id ==> after.contains(other) == before.contains(other)
        }),
{
    let id = (before.last_id + 1) as u64;
    let after = TalkSnippetsView { last_id: id, snippets: before.snippets.push((id, snip)) };
    let n = before.snippets.len() as int;
    assert(after.snippets[n].0 == id);
    let p = after.position_of(id);
    assert(p == n) by {
        if p < n {
            assert(after.snippets[p] == before.snippets[p]);
            assert(before.snippets[p].0 <= before.last_id);
        }
    }
    assert forall|other: u64| other != id implies after.contains(other) == before.contains(
        other,
    ) by {
        if after.contains(other) {
            let k = choose|k: int| 0 <= k < after.snippets.len() && after.snippets[k].0 == other;
            assert(k < n);
            assert(before.snippets[k].0 == other);
        }
        if before.contains(other) {
            let k = choose|k: int| 0 <= k < before.snippets.len() && before.snippets[k].0 == other;
            assert(after.snippets[k].0 == other);
        }
    }
}

/// Removing a snippet right after adding it gives back the snippets as they were.
pub proof fn law_remove_new_snippet(before: TalkSnippetsView, snip: TalkSnippetView)
    requires
        before.wf(),
        before.last_id < u64::MAX,
    ensures
        before.with_new(snip).removed((before.last_id + 1) as u64).snippets == before.snippets,
{
    law_new_snippet_is_fresh(before, snip);
    let id = (before.last_id + 1) as u64;
    let after = TalkSnippetsView { last_id: id, snippets: before.snippets.push((id, snip)) };
    let n = before.snippets.len() as int;
    let p = after.position_of(id);
    assert(p == n) by {
        if p < n {
            assert(after.snippets[p] == before.snippets[p]);
        }
    }
    assert(after.snippets.remove(n) =~= before.snippets);
}

/// Shifting a snippet forth and back leaves it where it was.
pub proof fn law_shift_round_trip(s: TalkSnippetView, shift: int)
    ensures
        s.shifted(shift).shifted(-shift) == s,
{
}

/// Silencing and snipping go by times relative to the snippet's start: moving a
/// snippet and both times by the same amount affects the same samples.
pub proof fn law_edits_move_with_snippet(s: TalkSnippetView, shift: int, from: int, to: int)
    ensures
        s.shifted(shift).silenced(from + shift, to + shift) == s.silenced(from, to).shifted(shift),
        s.shifted(shift).snipped(from + shift, to + shift) == s.snipped(from, to).shifted(shift),
{
    let m = s.shifted(shift);
    assert(from + shift - m.start == from - s.start);
    assert(to + shift - m.start == to - s.start);
    assert(m.sample_range(from + shift, to + shift) == s.sample_range(from, to));
    assert(m.silenced(from + shift, to + shift).samples =~= s.silenced(from, to).samples);
    assert(m.snipped(from + shift, to + shift).samples =~= s.snipped(from, to).samples);
}

/// The order of the two times does not matter to silencing or snipping.
pub proof fn law_edit_times_unordered(s: TalkSnippetView, from: int, to: int)
    ensures
        s.silenced(from, to) == s.silenced(to, from),
        s.snipped(from, to) == s.snipped(to, from),
{
    assert(s.sample_range(from, to) == s.sample_range(to, from));
}

/// Silencing a snippet from its start for `d` microseconds zeroes the samples
/// recorded during those `d` microseconds, whatever the snippet's start time, and
/// keeps the others.
pub proof fn law_silence_from_start(s: TalkSnippetView, d: int)
    requires
        0 <= d,
    ensures
        s.silenced(s.start, s.start + d).samples.len() == s.samples.len(),
        forall|i: int|
            0 <= i < s.samples.len() ==> #[trigger] s.silenced(s.start, s.start + d).samples[i] == if i
                < clamp_index(audio_idx_of_micros(d, SAMPLE_RATE as int), s.samples.len() as int) {
                0i16
            } else {
                s.samples[i]
            },
{
    assert(d * (SAMPLE_RATE as int) >= 0) by (nonlinear_arith)
        requires
            0 <= d,
    ;
    assert(audio_idx_of_micros(d, SAMPLE_RATE as int) >= 0);
    assert(audio_idx_of_micros(s.start - s.start, SAMPLE_RATE as int) == 0);
    assert(s.sample_index(s.start) == 0);
}

/// Silencing keeps the length of a snippet; snipping removes exactly the samples
/// between the two times, and never makes a snippet end later.
pub proof fn law_snip_lengths(s: TalkSnippetView, from: int, to: int)
    requires
        s.wf(),
    ensures
        s.silenced(from, to).samples.len() == s.samples.len(),
        s.snipped(from, to).samples.len() == s.samples.len() - (s.sample_range(from, to).1
            - s.sample_range(from, to).0),
        s.snipped(from, to).end() <= s.end(),
        s.snipped(from, from) == s,
{
    let (lo, hi) = s.sample_range(from, to);
    assert(0 <= lo <= hi <= s.samples.len());
    lemma_micros_of_audio_idx_monotone(
        s.snipped(from, to).samples.len() as int,
        s.samples.len() as int,
    );
    let (a, b) = s.sample_range(from, from);
    assert(a == b);
    assert(s.samples.subrange(0, a) + s.samples.subrange(a, s.samples.len() as int) =~= s.samples);
}

/// The end time of a collection is the latest end time of its snippets.
pub proof fn law_end_time_is_latest(s: Seq<(u64, TalkSnippetView)>)
    ensures
        forall|i: int| 0 <= i < s.len() ==> (#[trigger] s[i]).1.end() <= latest_end(s),
        s.len() > 0 ==> exists|i: int| 0 <= i < s.len() && (#[trigger] s[i]).1.end() == latest_end(s),
    decreases s.len(),
{
    if s.len() > 1 {
        let t = s.drop_last();
        law_end_time_is_latest(t);
        assert forall|i: int| 0 <= i < s.len() implies (#[trigger] s[i]).1.end() <= latest_end(s) by {
            if i < s.len() - 1 {
                assert(s[i] == t[i]);
            }
        }
        if s.last().1.end() <= latest_end(t) {
            let k = choose|k: int| 0 <= k < t.len() && (#[trigger] t[k]).1.end() == latest_end(t);
            assert(s[k] == t[k]);
        } else {
            assert(s[s.len() - 1].1.end() == latest_end(s));
        }
    } else if s.len() == 1 {
        assert(s[0].1.end() == latest_end(s));
    }
}

} // verus!
