use scribl::talk::{TalkSnippet, TalkSnippets, SAMPLE_RATE};
use scribl::time::Time;

fn snips(list: &[(i64, &[i16])]) -> TalkSnippets {
    let mut ret = TalkSnippets::default();
    for (idx, buf) in list {
        let time = Time::from_audio_idx(*idx, SAMPLE_RATE);
        ret = ret.with_new_snippet(TalkSnippet::new(buf.to_vec(), time, 1.0f32.to_bits())).0;
    }
    ret
}

/// Mixes the sample positions `from..to` into an output of `len` samples, using
/// the spans that overlap that window.
fn mix(snips: &TalkSnippets, from: i64, to: i64, len: usize) -> Vec<i16> {
    let active: Vec<_> = snips
        .snippet_spans()
        .into_iter()
        .filter(|sp| sp.start < to && sp.end.map_or(true, |e| e > from))
        .collect();
    let mut out = vec![0i16; len];
    for (_id, samples, offset) in snips.mix_sources(&active, from, to) {
        for (i, s) in samples.iter().enumerate() {
            out[offset + i] += *s;
        }
    }
    out
}

fn check_forward() {
    let s = snips(&[(0, &[1, 2, 3, 4, 5])]);
    assert_eq!(mix(&s, 0, 5, 5), vec![1, 2, 3, 4, 5]);
}

fn check_forward_offset() {
    let s = snips(&[(5, &[1, 2, 3, 4, 5])]);
    assert_eq!(mix(&s, 0, 15, 15), vec![0, 0, 0, 0, 1, 2, 3, 4, 5, 0, 0, 0, 0, 0, 0]);
}

fn check_backward() {
    let s = snips(&[(3, &[1, 2, 3, 4, 5])]);
    // 2 leading zeros, not 3, because of rounding in audio/index conversion.
    assert_eq!(mix(&s, 0, 10, 10), vec![0, 0, 1, 2, 3, 4, 5, 0, 0, 0]);
}

fn check_multiple_snippets() {
    let s = snips(&[(0, &[1, 2, 3]), (3, &[1, 2, 3])]);
    assert_eq!(mix(&s, 0, 10, 10), vec![1, 2, 4, 2, 3, 0, 0, 0, 0, 0]);
}

fn check_non_overlapping_snippets() {
    let s = snips(&[(0, &[1, 2, 3]), (12, &[1, 2, 3])]);
    assert_eq!(mix(&s, 0, 10, 10), vec![1, 2, 3, 0, 0, 0, 0, 0, 0, 0]);
    assert_eq!(mix(&s, 10, 20, 10), vec![0, 0, 1, 2, 3, 0, 0, 0, 0, 0]);
}

#[test]
fn snippets_forward() {
    check_forward();
}

#[test]
fn snippets_forward_offset() {
    check_forward_offset();
}

#[test]
fn snippets_backward() {
    check_backward();
}

#[test]
fn snippets_multiple_snippets() {
    check_multiple_snippets();
}

#[test]
fn snippets_multiple_snippets_backwards() {
    // Played backwards, the window 0..10 holds the same samples.
    check_multiple_snippets();
}

#[test]
fn snippets_non_overlapping_snippets() {
    check_non_overlapping_snippets();
}

#[test]
fn audio_forward() {
    check_forward();
}

#[test]
fn audio_forward_offset() {
    check_forward_offset();
}

#[test]
fn audio_backward() {
    check_backward();
}

#[test]
fn audio_multiple_snippets() {
    check_multiple_snippets();
}

#[test]
fn audio_multiple_snippets_backwards() {
    check_multiple_snippets();
}

#[test]
fn audio_non_overlapping_snippets() {
    check_non_overlapping_snippets();
}
