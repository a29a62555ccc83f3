//! Playback of recorded speech: which samples of which snippet go where in each
//! buffer that is sent to the speakers. Mixing the samples themselves, which
//! resamples them by the playback speed, is done by the caller.

use vstd::prelude::*;

use crate::talk::{TalkSnippet, TalkSnippetId, TalkSnippets, TalkSnippetView, TalkSnippetsView, SAMPLE_RATE};
use crate::time::{audio_idx_of_micros, Time};

verus! {

/// What a [`BufCursor`] holds: the snippet it reads, the position of the next
/// sample to play (negative before the snippet starts), and the snippet's length.
pub struct CursorView {
    pub id: u64,
    pub idx: int,
    pub len: int,
}

/// The sample position, in `snip`, that plays at time `time`.
pub open spec fn start_position(snip: TalkSnippetView, time: int) -> int {
    audio_idx_of_micros(time - snip.start, SAMPLE_RATE as int)
}

/// The cursor that starts playing the snippet `id` at time `time`.
pub open spec fn starting_cursor(id: u64, snip: TalkSnippetView, time: int) -> CursorView {
    CursorView { id, idx: start_position(snip, time), len: snip.samples.len() as int }
}

/// The cursors for all the snippets of `snips`, in their order.
pub open spec fn starting_cursors(snips: Seq<(u64, TalkSnippetView)>, time: int) -> Seq<CursorView> {
    Seq::new(snips.len(), |k: int| starting_cursor(snips[k].0, snips[k].1, time))
}

/// `a` comes before `b` in playing order: it is further into its snippet, or as
/// far and of an older snippet.
pub open spec fn plays_before(a: CursorView, b: CursorView) -> bool {
    a.idx > b.idx || (a.idx == b.idx && a.id < b.id)
}

/// The cursors of `s` are in playing order.
pub open spec fn in_play_order(s: Seq<CursorView>) -> bool {
    forall|i: int, j: int| 0 <= i < j < s.len() ==> plays_before(#[trigger] s[i], #[trigger] s[j])
}

/// The cursor has samples left to play.
pub open spec fn unfinished(c: CursorView) -> bool {
    c.idx < c.len
}

/// The cursor moved on by `n` samples.
pub open spec fn advanced(c: CursorView, n: int) -> CursorView {
    CursorView { idx: c.idx + n, ..c }
}

/// The start of the part of the snippet that a cursor plays next.
pub open spec fn read_start(c: CursorView) -> int {
    if c.idx > 0 {
        c.idx
    } else {
        0
    }
}

/// The end of the part of the snippet that a cursor plays next, reading `n`
/// samples.
pub open spec fn read_end(c: CursorView, n: int) -> int {
    if c.idx + n < c.len {
        c.idx + n
    } else {
        c.len
    }
}

/// Where in the output buffer the samples of a cursor start: a cursor whose
/// snippet starts within the buffer starts part way into it.
pub open spec fn write_offset(c: CursorView) -> int {
    if c.idx < 0 {
        -c.idx
    } else {
        0
    }
}

/// Playback goes by time relative to each snippet's start: a snippet starts
/// playing from its first sample at its own start time, and moving a snippet and
/// the playback time together starts it at the same sample.
pub proof fn law_start_position_moves_with_snippet(snip: TalkSnippetView, time: int, shift: int)
    ensures
        start_position(snip, snip.start) == 0,
        start_position(snip.shifted(shift), time + shift) == start_position(snip, time),
{
    assert(time + shift - (snip.start + shift) == time - snip.start);
    assert(audio_idx_of_micros(0, SAMPLE_RATE as int) == 0);
}

/// What one read hands out fits in the `n` samples read: the samples start at the
/// write offset, the snippet sample written at position `j` of the buffer is the
/// one at `c.idx + j`, and the read stops only at the end of the buffer or at the
/// end of the snippet.
pub proof fn law_read_fits_buffer(c: CursorView, n: int)
    requires
        0 <= c.len,
        unfinished(c),
        0 <= n,
        c.idx + n > 0,
    ensures
        read_start(c) <= read_end(c, n),
        read_start(c) == c.idx + write_offset(c),
        write_offset(c) + (read_end(c, n) - read_start(c)) <= n,
        read_end(c, n) == c.len || write_offset(c) + (read_end(c, n) - read_start(c)) == n,
{
}

/// Reads follow each other without a gap or an overlap: after a read that reaches
/// into the snippet, the next read starts at the start of the next buffer, on the
/// sample after the last one handed out.
pub proof fn law_reads_are_contiguous(c: CursorView, n: int)
    requires
        0 <= c.len,
        unfinished(c),
        0 <= n,
        c.idx + n > 0,
        unfinished(advanced(c, n)),
    ensures
        read_start(advanced(c, n)) == read_end(c, n),
        write_offset(advanced(c, n)) == 0,
{
}

/// `e` ends the run of cursors, from position `next` of `all`, that reading
/// `out_len` samples reaches into: those before it do, the one at it does not.
pub open spec fn is_activation_end(all: Seq<CursorView>, next: int, out_len: int, e: int) -> bool {
    &&& next <= e <= all.len()
    &&& forall|j: int| next <= j < e ==> (#[trigger] all[j]).idx + out_len > 0
    &&& e < all.len() ==> all[e].idx + out_len <= 0
}

/// The end of the run of cursors, from position `next` of `all`, that reading
/// `out_len` samples starts.
pub open spec fn activation_end(all: Seq<CursorView>, next: int, out_len: int) -> int {
    if exists|e: int| is_activation_end(all, next, out_len, e) {
        choose|e: int| is_activation_end(all, next, out_len, e)
    } else {
        next
    }
}

proof fn lemma_activation_end_is(all: Seq<CursorView>, next: int, out_len: int, e: int)
    requires
        is_activation_end(all, next, out_len, e),
    ensures
        activation_end(all, next, out_len) == e,
{
    let c = choose|f: int| is_activation_end(all, next, out_len, f);
    assert(is_activation_end(all, next, out_len, c));
    if c < e {
        assert(all[c].idx + out_len > 0);
    } else if e < c {
        assert(all[e].idx + out_len > 0);
    }
}

/// In a well-formed collection, each snippet is found at its own position.
proof fn lemma_snippet_at(v: TalkSnippetsView, k: int)
    requires
        v.wf(),
        0 <= k < v.snippets.len(),
    ensures
        v.contains(v.snippets[k].0),
        v.position_of(v.snippets[k].0) == k,
        v.snippet(v.snippets[k].0) == v.snippets[k].1,
{
    assert(v.contains(v.snippets[k].0));
    let p = v.position_of(v.snippets[k].0);
    if p < k {
        assert(v.snippets[p].0 < v.snippets[k].0);
    } else if k < p {
        assert(v.snippets[k].0 < v.snippets[p].0);
    }
}

/// Reads the samples of one snippet, starting at a position in it.
#[derive(Clone, Copy, Debug)]
pub struct BufCursor {
    id: TalkSnippetId,
    idx: i64,
    len: i64,
}

impl View for BufCursor {
    type V = CursorView;

    closed spec fn view(&self) -> CursorView {
        CursorView { id: self.id.number(), idx: self.idx as int, len: self.len as int }
    }
}

impl BufCursor {
    /// The cursor that plays the snippet `id`, with contents `snip`, from time `time`.
    pub fn new(id: TalkSnippetId, snip: &TalkSnippet, time: Time) -> (r: BufCursor)
        requires
            snip@.wf(),
            i64::MIN <= time.0 - snip@.start <= i64::MAX,
        ensures
            r@ == starting_cursor(id.number(), snip@, time.0 as int),
    {
        let diff = time.minus(snip.start_time());
        let idx = diff.as_audio_idx(SAMPLE_RATE);
        BufCursor { id, idx, len: snip.buf().len() as i64 }
    }

    /// Whether reading `len` samples from here reaches into the snippet.
    pub fn will_be_active(&self, len: usize) -> (r: bool)
        ensures
            r == (self@.idx + len > 0),
    {
        (self.idx as i128) + (len as i128) > 0
    }

    /// Whether all the snippet's samples were read.
    pub fn is_finished(&self) -> (r: bool)
        ensures
            r == !unfinished(self@),
    {
        self.idx >= self.len
    }

    /// Reads the next `len` samples: returns those of the snippet that lie among
    /// them, and how far into the `len` the first of them is; moves on by `len`.
    pub fn get_buf_and_advance<'a>(&mut self, data: &'a TalkSnippets, len: usize) -> (r: (
        &'a [i16],
        usize,
    ))
        requires
            data@.wf(),
            data@.contains(old(self)@.id),
            data@.snippet(old(self)@.id).samples.len() == old(self)@.len,
            unfinished(old(self)@),
            len <= i64::MAX,
            0 < old(self)@.idx + len <= i64::MAX,
        ensures
            r.0@ == data@.snippet(old(self)@.id).samples.subrange(
                read_start(old(self)@),
                read_end(old(self)@, len as int),
            ),
            r.1 == write_offset(old(self)@),
            final(self)@ == advanced(old(self)@, len as int),
    {
        let snip = data.snippet(self.id);
        let buf = snip.buf();
        let start: usize = if self.idx > 0 {
            self.idx as usize
        } else {
            0
        };
        let reach: i64 = self.idx + (len as i64);
        let end: usize = if (reach as u64) < (buf.len() as u64) {
            reach as usize
        } else {
            buf.len()
        };
        let offset: usize = if self.idx < 0 {
            (0 - self.idx) as usize
        } else {
            0
        };
        self.idx = reach;
        (vstd::slice::slice_subrange(buf, start, end), offset)
    }
}

fn plays_first(a: &BufCursor, b: &BufCursor) -> (r: bool)
    ensures
        r == plays_before(a@, b@),
{
    a.idx > b.idx || (a.idx == b.idx && a.id.raw() < b.id.raw())
}

/// The cursors of `s` that have samples left to play.
pub open spec fn unfinished_cursors(s: Seq<CursorView>) -> Seq<CursorView>
    decreases s.len(),
{
    if s.len() == 0 {
        Seq::empty()
    } else {
        let rest = unfinished_cursors(s.drop_last());
        if unfinished(s.last()) {
            rest.push(s.last())
        } else {
            rest
        }
    }
}

/// What is kept of `s` are cursors of `s` with samples left.
proof fn lemma_unfinished_cursors(s: Seq<CursorView>)
    ensures
        unfinished_cursors(s).len() <= s.len(),
        forall|j: int|
            0 <= j < unfinished_cursors(s).len() ==> s.contains(
                #[trigger] unfinished_cursors(s)[j],
            ) && unfinished(unfinished_cursors(s)[j]),
    decreases s.len(),
{
    if s.len() > 0 {
        let t = s.drop_last();
        lemma_unfinished_cursors(t);
        let u = unfinished_cursors(s);
        assert forall|j: int| 0 <= j < u.len() implies s.contains(#[trigger] u[j]) && unfinished(
            u[j],
        ) by {
            if j < unfinished_cursors(t).len() {
                assert(u[j] == unfinished_cursors(t)[j]);
                let i = choose|i: int| 0 <= i < t.len() && t[i] == u[j];
                assert(s[i] == u[j]);
            } else {
                assert(u[j] == s.last());
                assert(s[s.len() - 1] == u[j]);
            }
        }
    }
}

/// The playback of a collection of snippets: a cursor for each snippet, in
/// playing order, of which those before `next` were started, and the started
/// cursors that still have samples to play.
#[derive(Debug, Default)]
pub struct Cursor {
    all_cursors: Vec<BufCursor>,
    next_cursor: usize,
    active_cursors: Vec<BufCursor>,
}

impl Cursor {
    /// The cursors of all the snippets, in playing order.
    pub closed spec fn all(&self) -> Seq<CursorView> {
        self.all_cursors@.map_values(|c: BufCursor| c@)
    }

    /// How many of the cursors have been started.
    pub closed spec fn next(&self) -> int {
        self.next_cursor as int
    }

    /// The started cursors that still have samples to play.
    pub closed spec fn active(&self) -> Seq<CursorView> {
        self.active_cursors@.map_values(|c: BufCursor| c@)
    }


    /// The cursors that reading `out_len` samples plays: those that were active,
    /// then those that it starts.
    pub open spec fn started(&self, out_len: int) -> Seq<CursorView> {
        self.active() + self.all().subrange(
            self.next(),
            activation_end(self.all(), self.next(), out_len),
        )
    }

    /// The cursors not yet started are before their snippets, and the active
    /// ones have samples left.
    pub open spec fn wf(&self) -> bool {
        &&& 0 <= self.next() <= self.all().len()
        &&& forall|j: int| 0 <= j < self.all().len() ==> (#[trigger] self.all()[j]).len >= 0
        &&& forall|j: int| self.next() <= j < self.all().len() ==> (#[trigger] self.all()[j]).idx < 0
        &&& forall|j: int|
            0 <= j < self.active().len() ==> unfinished(#[trigger] self.active()[j])
                && self.active()[j].len >= 0
    }

    /// Every cursor reads a snippet of `data`, of the length it expects.
    pub open spec fn plays_from(&self, data: TalkSnippetsView) -> bool {
        &&& forall|j: int|
            0 <= j < self.all().len() ==> data.contains((#[trigger] self.all()[j]).id)
                && data.snippet(self.all()[j].id).samples.len() == self.all()[j].len
        &&& forall|j: int|
            0 <= j < self.active().len() ==> data.contains((#[trigger] self.active()[j]).id)
                && data.snippet(self.active()[j].id).samples.len() == self.active()[j].len
    }

    /// Reading `input_len` samples for an output of `out_len` reaches into the
    /// snippet of every cursor that it plays, and stays within `i64`.
    pub open spec fn can_read(&self, out_len: int, input_len: int) -> bool {
        forall|k: int|
            0 <= k < self.started(out_len).len() ==> 0 < (#[trigger] self.started(out_len)[k]).idx
                + input_len <= i64::MAX
    }

    /// The playback of the snippets of `snippets` from time `time`: every snippet
    /// gets a cursor, and those that are playing at `time` are started.
    pub fn new(snippets: &TalkSnippets, time: Time) -> (r: Cursor)
        requires
            snippets@.wf(),
            snippets@.all_wf(),
            forall|i: int|
                0 <= i < snippets@.snippets.len() ==> i64::MIN <= time.0
                    - (#[trigger] snippets@.snippets[i]).1.start <= i64::MAX,
        ensures
            r.all().len() == snippets@.snippets.len(),
            in_play_order(r.all()),
            forall|k: int|
                0 <= k < snippets@.snippets.len() ==> r.all().contains(
                    #[trigger] starting_cursors(snippets@.snippets, time.0 as int)[k],
                ),
            forall|j: int|
                0 <= j < r.all().len() ==> starting_cursors(snippets@.snippets, time.0 as int).contains(
                    #[trigger] r.all()[j],
                ),
            0 <= r.next() <= r.all().len(),
            forall|j: int| 0 <= j < r.next() ==> (#[trigger] r.all()[j]).idx >= 0,
            forall|j: int| r.next() <= j < r.all().len() ==> (#[trigger] r.all()[j]).idx < 0,
            r.active() == unfinished_cursors(r.all().take(r.next())),
            r.wf(),
            r.plays_from(snippets@),
    {
        let snips = snippets.snippets();
        let ghost sv = snippets@.snippets;
        let ghost start = starting_cursors(sv, time.0 as int);
        let mut cursors: Vec<BufCursor> = Vec::new();
        let mut i: usize = 0;
        while i < snips.len()
            invariant
                snips@.map_values(|p: (TalkSnippetId, TalkSnippet)| (p.0.number(), p.1@)) == sv,
                snippets@.wf(),
                snippets@.all_wf(),
                sv == snippets@.snippets,
                start == starting_cursors(sv, time.0 as int),
                forall|k: int|
                    0 <= k < sv.len() ==> i64::MIN <= time.0 - (#[trigger] sv[k]).1.start
                        <= i64::MAX,
                i <= sv.len(),
                cursors@.len() == i,
                in_play_order(cursors@.map_values(|c: BufCursor| c@)),
                forall|k: int|
                    0 <= k < i ==> cursors@.map_values(|c: BufCursor| c@).contains(
                        #[trigger] start[k],
                    ),
                forall|j: int|
                    0 <= j < i ==> exists|k: int|
                        0 <= k < i && #[trigger] cursors@[j]@ == start[k],
            decreases sv.len() - i,
        {
            let ghost old_cur = cursors@.map_values(|c: BufCursor| c@);
            proof {
                assert(sv[i as int] == (snips@[i as int].0.number(), snips@[i as int].1@));
            }
            let c = BufCursor::new(snips[i].0, &snips[i].1, time);
            assert(c@ == start[i as int]);
            let mut pos: usize = 0;
            while pos < cursors.len() && plays_first(&cursors[pos], &c)
                invariant
                    pos <= cursors@.len(),
                    old_cur == cursors@.map_values(|c: BufCursor| c@),
                    forall|j: int| 0 <= j < pos ==> plays_before(#[trigger] old_cur[j], c@),
                decreases cursors@.len() - pos,
            {
                pos = pos + 1;
            }
            proof {
                // Every cursor so far is of an older snippet than `c`.
                assert forall|j: int| 0 <= j < old_cur.len() implies (#[trigger] old_cur[j]).id
                    < c@.id by {
                    let k = choose|k: int| 0 <= k < i && #[trigger] cursors@[j]@ == start[k];
                    assert(old_cur[j] == cursors@[j]@);
                }
                if pos < old_cur.len() {
                    assert(old_cur[pos as int].id < c@.id);
                    assert(plays_before(c@, old_cur[pos as int]));
                }
            }
            cursors.insert(pos, c);
            proof {
                let cur = cursors@.map_values(|c: BufCursor| c@);
                assert(cur =~= old_cur.insert(pos as int, c@));
                assert forall|a: int, b: int| 0 <= a < b < cur.len() implies plays_before(
                    #[trigger] cur[a],
                    #[trigger] cur[b],
                ) by {
                    if b < pos {
                    } else if a < pos && b == pos {
                    } else if a < pos {
                        assert(cur[b] == old_cur[b - 1]);
                    } else if a == pos {
                        assert(cur[b] == old_cur[b - 1]);
                        assert(plays_before(c@, old_cur[pos as int]));
                        if b - 1 > pos {
                            assert(plays_before(old_cur[pos as int], old_cur[b - 1]));
                        }
                    } else {
                        assert(cur[a] == old_cur[a - 1]);
                        assert(cur[b] == old_cur[b - 1]);
                    }
                }
                assert forall|k: int| 0 <= k < i + 1 implies cur.contains(#[trigger] start[k]) by {
                    if k == i {
                        assert(cur[pos as int] == start[k]);
                    } else {
                        assert(old_cur.contains(start[k]));
                        let j = choose|j: int| 0 <= j < old_cur.len() && old_cur[j] == start[k];
                        if j < pos {
                            assert(cur[j] == start[k]);
                        } else {
                            assert(cur[j + 1] == start[k]);
                        }
                    }
                }
                assert forall|j: int| 0 <= j < i + 1 implies exists|k: int|
                    0 <= k < i + 1 && #[trigger] cursors@[j]@ == start[k] by {
                    assert(cursors@[j]@ == cur[j]);
                    if j == pos {
                        assert(cursors@[j]@ == start[i as int]);
                    } else if j < pos {
                        assert(cursors@[j]@ == old_cur[j]);
                        let k = choose|k: int| 0 <= k < i && old_cur[j] == start[k];
                    } else {
                        assert(cursors@[j]@ == old_cur[j - 1]);
                        let k = choose|k: int| 0 <= k < i && old_cur[j - 1] == start[k];
                    }
                }
            }
            i = i + 1;
        }
        let ghost all = cursors@.map_values(|c: BufCursor| c@);
        let mut active: Vec<BufCursor> = Vec::new();
        let mut next: usize = 0;
        while next < cursors.len() && cursors[next].idx >= 0
            invariant
                all == cursors@.map_values(|c: BufCursor| c@),
                in_play_order(all),
                next <= all.len(),
                forall|j: int| 0 <= j < next ==> (#[trigger] all[j]).idx >= 0,
                active@.map_values(|c: BufCursor| c@) == unfinished_cursors(all.take(next as int)),
            decreases all.len() - next,
        {
            let c = cursors[next];
            proof {
                let t1 = all.take(next + 1);
                assert(t1.drop_last() =~= all.take(next as int));
                assert(t1.last() == c@);
                assert(unfinished_cursors(t1) == if unfinished(c@) {
                    unfinished_cursors(all.take(next as int)).push(c@)
                } else {
                    unfinished_cursors(all.take(next as int))
                });
            }
            if c.idx < c.len {
                active.push(c);
                assert(active@.map_values(|c: BufCursor| c@) =~= unfinished_cursors(
                    all.take(next as int),
                ).push(c@));
            }
            next = next + 1;
        }
        proof {
            if next < all.len() {
                assert(all[next as int].idx < 0);
                assert forall|j: int| next <= j < all.len() implies (#[trigger] all[j]).idx < 0 by {
                    if j > next {
                        assert(plays_before(all[next as int], all[j]));
                    }
                }
            }
        }
        let r = Cursor { all_cursors: cursors, next_cursor: next, active_cursors: active };
        proof {
            assert(r.all() == all);
            assert forall|j: int| 0 <= j < all.len() implies (#[trigger] all[j]).len >= 0
                && snippets@.contains(all[j].id) && snippets@.snippet(all[j].id).samples.len()
                == all[j].len by {
                let k = choose|k: int| 0 <= k < all.len() && #[trigger] cursors@[j]@ == start[k];
                assert(all[j] == cursors@[j]@);
                lemma_snippet_at(snippets@, k);
            }
            let taken = all.take(next as int);
            lemma_unfinished_cursors(taken);
            assert forall|j: int| 0 <= j < r.active().len() implies unfinished(
                #[trigger] r.active()[j],
            ) && r.active()[j].len >= 0 && snippets@.contains(r.active()[j].id)
                && snippets@.snippet(r.active()[j].id).samples.len() == r.active()[j].len by {
                let c = r.active()[j];
                assert(taken.contains(c));
                let i = choose|i: int| 0 <= i < taken.len() && taken[i] == c;
                assert(all[i] == c);
            }
        }
        r
    }

    /// The end of the run of not yet started cursors that an output of `out_len`
    /// samples reaches into.
    fn activation_end(&self, out_len: usize) -> (e: usize)
        requires
            self.wf(),
        ensures
            e == activation_end(self.all(), self.next(), out_len as int),
    {
        let mut e = self.next_cursor;
        while e < self.all_cursors.len() && self.all_cursors[e].will_be_active(out_len)
            invariant
                self.wf(),
                self.next() <= e <= self.all().len(),
                forall|j: int| self.next() <= j < e ==> (#[trigger] self.all()[j]).idx + out_len > 0,
            decreases self.all().len() - e,
        {
            assert(self.all()[e as int] == self.all_cursors@[e as int]@);
            e = e + 1;
        }
        proof {
            if e < self.all().len() {
                assert(self.all()[e as int] == self.all_cursors@[e as int]@);
            }
            lemma_activation_end_is(self.all(), self.next(), out_len as int, e as int);
        }
        e
    }

    /// Whether [`Cursor::take_sources`] can read `input_len` samples for an
    /// output of `out_len`: every cursor that it plays reaches into its snippet.
    pub fn can_take_sources(&self, out_len: usize, input_len: usize) -> (r: bool)
        requires
            self.wf(),
        ensures
            r == self.can_read(out_len as int, input_len as int),
    {
        let e = self.activation_end(out_len);
        let ghost st = self.started(out_len as int);
        let na = self.active_cursors.len();
        let mut k: usize = 0;
        while k < na
            invariant
                na == self.active().len(),
                st == self.started(out_len as int),
                e == activation_end(self.all(), self.next(), out_len as int),
                k <= na,
                forall|j: int| 0 <= j < k ==> 0 < (#[trigger] st[j]).idx + input_len <= i64::MAX,
            decreases na - k,
        {
            let c = self.active_cursors[k];
            assert(st[k as int] == c@);
            let reach = (c.idx as i128) + (input_len as i128);
            if !(0 < reach && reach <= i64::MAX as i128) {
                return false;
            }
            k = k + 1;
        }
        let mut j: usize = self.next_cursor;
        while j < e
            invariant
                self.wf(),
                na == self.active().len(),
                st == self.started(out_len as int),
                e == activation_end(self.all(), self.next(), out_len as int),
                self.next() <= j <= e,
                e <= self.all().len(),
                forall|m: int| 0 <= m < na + (j - self.next()) ==> 0 < (#[trigger] st[m]).idx
                    + input_len <= i64::MAX,
            decreases e - j,
        {
            let c = self.all_cursors[j];
            assert(st[na + (j - self.next())] == c@);
            let reach = (c.idx as i128) + (input_len as i128);
            if !(0 < reach && reach <= i64::MAX as i128) {
                return false;
            }
            j = j + 1;
        }
        true
    }

    /// Plays the next output buffer, of `out_len` samples, reading `input_len`
    /// samples of each snippet: starts the cursors that the buffer reaches, and
    /// returns, for each cursor that plays, its snippet, the samples that it reads
    /// and where in the buffer they go. Cursors that come to the end of their
    /// snippet stop.
    pub fn take_sources<'a>(&mut self, data: &'a TalkSnippets, out_len: usize, input_len: usize) -> (r:
        Vec<(TalkSnippetId, &'a [i16], usize)>)
        requires
            old(self).wf(),
            old(self).plays_from(data@),
            data@.wf(),
            input_len <= i64::MAX,
            old(self).can_read(out_len as int, input_len as int),
        ensures
            final(self).wf(),
            final(self).plays_from(data@),
            final(self).all() == old(self).all(),
            final(self).next() == activation_end(old(self).all(), old(self).next(), out_len as int),
            r@.len() == old(self).started(out_len as int).len(),
            forall|k: int|
                0 <= k < r@.len() ==> {
                    let c = #[trigger] old(self).started(out_len as int)[k];
                    &&& r@[k].0.number() == c.id
                    &&& r@[k].1@ == data@.snippet(c.id).samples.subrange(
                        read_start(c),
                        read_end(c, input_len as int),
                    )
                    &&& r@[k].2 == write_offset(c)
                },
            final(self).active() == unfinished_cursors(
                old(self).started(out_len as int).map_values(
                    |c: CursorView| advanced(c, input_len as int),
                ),
            ),
    {
        let ghost st = old(self).started(out_len as int);
        let ghost adv = st.map_values(|c: CursorView| advanced(c, input_len as int));
        let e = self.activation_end(out_len);
        let ghost na = self.active().len();
        while self.next_cursor < e
            invariant
                old(self).wf(),
                old(self).plays_from(data@),
                self.all_cursors@ == old(self).all_cursors@,
                e == activation_end(old(self).all(), old(self).next(), out_len as int),
                old(self).next() <= self.next() <= e <= self.all().len(),
                self.active() == st.take(na + (self.next() - old(self).next())),
                na == old(self).active().len(),
                st == old(self).started(out_len as int),
            decreases e - self.next_cursor,
        {
            let c = self.all_cursors[self.next_cursor];
            let ghost prev = self.active();
            let ghost j = self.next();
            proof {
                assert(c@ == old(self).all()[j]);
                assert(st[na + (j - old(self).next())] == old(self).all()[j]);
            }
            self.active_cursors.push(c);
            self.next_cursor = self.next_cursor + 1;
            assert(self.active() =~= prev.push(c@));
            assert(self.active() =~= st.take(na + (self.next() - old(self).next())));
        }
        assert(self.active() =~= st);
        let mut sources: Vec<(TalkSnippetId, &'a [i16], usize)> = Vec::new();
        let mut kept: Vec<BufCursor> = Vec::new();
        let n = self.active_cursors.len();
        let mut k: usize = 0;
        while k < n
            invariant
                n == st.len(),
                self.active() == st,
                self.all_cursors@ == old(self).all_cursors@,
                self.next() == e,
                old(self).wf(),
                old(self).plays_from(data@),
                data@.wf(),
                input_len <= i64::MAX,
                old(self).can_read(out_len as int, input_len as int),
                st == old(self).started(out_len as int),
                adv == st.map_values(|c: CursorView| advanced(c, input_len as int)),
                e == activation_end(old(self).all(), old(self).next(), out_len as int),
                na == old(self).active().len(),
                k <= n,
                sources@.len() == k,
                forall|m: int|
                    0 <= m < k ==> {
                        let c = #[trigger] st[m];
                        &&& sources@[m].0.number() == c.id
                        &&& sources@[m].1@ == data@.snippet(c.id).samples.subrange(
                            read_start(c),
                            read_end(c, input_len as int),
                        )
                        &&& sources@[m].2 == write_offset(c)
                    },
                kept@.map_values(|c: BufCursor| c@) == unfinished_cursors(adv.take(k as int)),
            decreases n - k,
        {
            let mut c = self.active_cursors[k];
            proof {
                assert(c@ == st[k as int]);
                if k < na {
                    assert(old(self).active()[k as int] == c@);
                } else {
                    let j = old(self).next() + (k - na);
                    assert(old(self).all()[j] == c@);
                }
            }
            let (buf, offset) = c.get_buf_and_advance(data, input_len);
            sources.push((c.id, buf, offset));
            proof {
                let t1 = adv.take(k + 1);
                assert(t1.drop_last() =~= adv.take(k as int));
                assert(t1.last() == c@);
            }
            if !c.is_finished() {
                kept.push(c);
                assert(kept@.map_values(|c: BufCursor| c@) =~= unfinished_cursors(
                    adv.take(k as int),
                ).push(c@));
            }
            k = k + 1;
        }
        assert(adv.take(n as int) =~= adv);
        self.active_cursors = kept;
        proof {
            lemma_unfinished_cursors(adv);
            assert forall|j: int| 0 <= j < self.active().len() implies unfinished(
                #[trigger] self.active()[j],
            ) && self.active()[j].len >= 0 && data@.contains(self.active()[j].id)
                && data@.snippet(self.active()[j].id).samples.len() == self.active()[j].len by {
                let c = self.active()[j];
                assert(adv.contains(c));
                let i = choose|i: int| 0 <= i < adv.len() && adv[i] == c;
                if i < na {
                    assert(old(self).active()[i] == st[i]);
                } else {
                    assert(old(self).all()[old(self).next() + (i - na)] == st[i]);
                }
            }
        }
        sources
    }

    /// Whether every cursor reads a snippet of `data`, of the length it expects.
    pub fn plays_from_snippets(&self, data: &TalkSnippets) -> (r: bool)
        requires
            data@.wf(),
        ensures
            r == self.plays_from(data@),
    {
        let mut i: usize = 0;
        while i < self.all_cursors.len()
            invariant
                data@.wf(),
                i <= self.all().len(),
                forall|j: int|
                    0 <= j < i ==> data@.contains((#[trigger] self.all()[j]).id)
                        && data@.snippet(self.all()[j].id).samples.len() == self.all()[j].len,
            decreases self.all().len() - i,
        {
            let c = self.all_cursors[i];
            assert(self.all()[i as int] == c@);
            if !data.has_snippet(c.id) {
                return false;
            }
            if data.snippet(c.id).buf().len() as u64 != c.len as u64 || c.len < 0 {
                return false;
            }
            i = i + 1;
        }
        let mut k: usize = 0;
        while k < self.active_cursors.len()
            invariant
                data@.wf(),
                k <= self.active().len(),
                forall|j: int|
                    0 <= j < self.all().len() ==> data@.contains((#[trigger] self.all()[j]).id)
                        && data@.snippet(self.all()[j].id).samples.len() == self.all()[j].len,
                forall|j: int|
                    0 <= j < k ==> data@.contains((#[trigger] self.active()[j]).id)
                        && data@.snippet(self.active()[j].id).samples.len() == self.active()[j].len,
            decreases self.active().len() - k,
        {
            let c = self.active_cursors[k];
            assert(self.active()[k as int] == c@);
            if !data.has_snippet(c.id) {
                return false;
            }
            if data.snippet(c.id).buf().len() as u64 != c.len as u64 || c.len < 0 {
                return false;
            }
            k = k + 1;
        }
        true
    }

    /// Whether every snippet has been played to its end.
    pub fn is_finished(&self) -> (r: bool)
        ensures
            r == (self.active().len() == 0 && self.next() == self.all().len()),
    {
        self.active_cursors.len() == 0 && self.next_cursor == self.all_cursors.len()
    }
}

} // verus!
