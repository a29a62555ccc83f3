use scribl::talk::{Span, TalkSnippet, TalkSnippetId, TalkSnippets, SAMPLE_RATE};
use scribl::time::{Time, TimeDiff};

fn snip(start_idx: i64, buf: &[i16]) -> TalkSnippet {
    TalkSnippet::new(buf.to_vec(), Time::from_audio_idx(start_idx, SAMPLE_RATE), 1.0f32.to_bits())
}

#[test]
fn time_conversion_truncates() {
    let t = Time::from_audio_idx(3, SAMPLE_RATE);
    assert_eq!(t.as_micros(), 62);
    assert_eq!(t.as_audio_idx(SAMPLE_RATE), 2);
    assert_eq!(Time::from_audio_idx(-3, SAMPLE_RATE).as_micros(), -62);
    assert_eq!(Time::from_micros(-62).as_audio_idx(SAMPLE_RATE), -2);
    assert_eq!(TimeDiff::from_audio_idx(48000, SAMPLE_RATE).as_micros(), 1_000_000);
}

#[test]
fn new_snippets_get_fresh_ids() {
    let snips = TalkSnippets::default();
    let (snips, a) = snips.with_new_snippet(snip(0, &[1, 2, 3]));
    let (snips, b) = snips.with_new_snippet(snip(10, &[4, 5]));
    assert_ne!(a, b);
    assert_eq!(a.raw(), 1);
    assert_eq!(b.raw(), 2);
    assert!(snips.has_snippet(a));
    assert!(snips.has_snippet(b));
    assert_eq!(snips.snippet(b).buf(), &[4, 5]);
    let ids: Vec<u64> = snips.snippets().iter().map(|(id, _)| id.raw()).collect();
    assert_eq!(ids, vec![1, 2]);
    let without = snips.without_snippet(a);
    assert!(!without.has_snippet(a));
    assert!(without.has_snippet(b));
}

#[test]
fn end_time_is_latest() {
    let snips = TalkSnippets::new();
    assert_eq!(snips.end_time(), Time::from_micros(0));
    let (snips, _) = snips.with_new_snippet(snip(0, &[0; 48000]));
    let (snips, _) = snips.with_new_snippet(snip(48, &[0; 480]));
    assert_eq!(snips.end_time().as_micros(), 1_000_000);
}

#[test]
fn silencing_and_snipping() {
    let s = TalkSnippet::new(vec![1, 2, 3, 4, 5, 6], Time::from_micros(0), 7);
    let from = Time::from_audio_idx(1, SAMPLE_RATE);
    let to = Time::from_audio_idx(4, SAMPLE_RATE);
    // Sample times truncate: index 1 starts at 20us which maps back to index 0.
    assert_eq!(s.silenced(to, from).buf(), &[0, 0, 0, 4, 5, 6]);
    assert_eq!(s.snipped(from, to).buf(), &[4, 5, 6]);
    assert_eq!(s.snipped(from, to).multiplier_bits(), 7);
    let late = Time::from_micros(1_000_000);
    assert_eq!(s.silenced(Time::from_micros(-5), late).buf(), &[0, 0, 0, 0, 0, 0]);
    assert_eq!(s.silenced(from, from).buf(), s.buf());
}

#[test]
fn snipping_everything_removes_the_snippet() {
    let (snips, id) = TalkSnippets::new().with_new_snippet(snip(0, &[1, 2, 3]));
    let out = snips.with_snipped_snippet(id, Time::from_micros(0), Time::from_micros(1_000_000));
    assert!(!out.has_snippet(id));
    let out = snips.with_silenced_snippet(id, Time::from_micros(0), Time::from_micros(1_000_000));
    assert_eq!(out.snippet(id).buf(), &[0, 0, 0]);
}

#[test]
fn shifting_and_rescaling() {
    let (snips, id) = TalkSnippets::new().with_new_snippet(snip(0, &[1, 2, 3]));
    let shifted = snips.with_shifted_snippet(id, TimeDiff::from_micros(500));
    assert_eq!(shifted.snippet(id).start_time(), Time::from_micros(500));
    let back = shifted.with_shifted_snippet(id, TimeDiff::from_micros(-500));
    assert_eq!(back.snippet(id).start_time(), Time::from_micros(0));
    let louder = snips.with_snippet_multiplier_bits(id, 2.0f32.to_bits());
    assert_eq!(f32::from_bits(louder.snippet(id).multiplier_bits()), 2.0);
    assert_eq!(louder.snippet(id).buf(), &[1, 2, 3]);
}

#[test]
fn rebuilt_collections_continue_ids() {
    let a = (TalkSnippetId::from_raw(3), snip(0, &[1]));
    let b = (TalkSnippetId::from_raw(7), snip(5, &[2]));
    let snips = TalkSnippets::from_snippets(vec![a, b]);
    let (_, id) = snips.with_new_snippet(snip(9, &[3]));
    assert_eq!(id.raw(), 8);
}

#[test]
fn spans_are_in_sample_positions() {
    let snips = TalkSnippets::default();
    let (snips, a) = snips.with_new_snippet(snip(0, &[1, 2, 3]));
    let (snips, b) = snips.with_new_snippet(snip(100, &[4, 5]));
    let spans = snips.snippet_spans();
    assert_eq!(
        spans,
        vec![Span { start: 0, end: Some(3), id: a }, Span { start: 99, end: Some(101), id: b }]
    );
}

#[test]
fn mix_sources_clip_to_the_window() {
    let snips = TalkSnippets::default();
    let (snips, a) = snips.with_new_snippet(snip(0, &[1, 2, 3, 4, 5, 6]));
    let spans = vec![Span { start: 2, end: Some(8), id: a }];
    // The window starts before the snippet: the samples go part way into the buffer.
    let out = snips.mix_sources(&spans, 0, 5);
    assert_eq!(out.len(), 1);
    assert_eq!(out[0].0, a);
    assert_eq!(out[0].1, &[1, 2, 3][..]);
    assert_eq!(out[0].2, 2);
    // The window starts inside the snippet and reaches past its end.
    let out = snips.mix_sources(&spans, 5, 20);
    assert_eq!(out[0].1, &[4, 5, 6][..]);
    assert_eq!(out[0].2, 0);
}
