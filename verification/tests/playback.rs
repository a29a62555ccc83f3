use scribl::playback::{BufCursor, Cursor};
use scribl::talk::{TalkSnippet, TalkSnippets};
use scribl::time::Time;

fn two_snippets() -> (TalkSnippets, u64, u64) {
    let snips = TalkSnippets::new();
    let a: Vec<i16> = (0..100).collect();
    let (snips, id_a) = snips.with_new_snippet(TalkSnippet::new(a, Time::from_micros(0), 1.0f32.to_bits()));
    let (snips, id_b) =
        snips.with_new_snippet(TalkSnippet::new(vec![7; 10], Time::from_micros(1000), 1.0f32.to_bits()));
    (snips, id_a.raw(), id_b.raw())
}

#[test]
fn playback_starts_snippets_as_the_output_reaches_them() {
    let (snips, a, b) = two_snippets();
    let mut cursor = Cursor::new(&snips, Time::from_micros(0));
    assert!(!cursor.is_finished());

    assert!(cursor.can_take_sources(16, 16));
    let sources = cursor.take_sources(&snips, 16, 16);
    assert_eq!(sources.len(), 1);
    assert_eq!(sources[0].0.raw(), a);
    assert_eq!(sources[0].1, &(0..16).collect::<Vec<i16>>()[..]);
    assert_eq!(sources[0].2, 0);

    let sources = cursor.take_sources(&snips, 40, 40);
    assert_eq!(sources.len(), 1);
    assert_eq!(sources[0].1, &(16..56).collect::<Vec<i16>>()[..]);

    assert!(cursor.can_take_sources(60, 60));
    let sources = cursor.take_sources(&snips, 60, 60);
    assert_eq!(sources.len(), 2);
    assert_eq!(sources[0].0.raw(), a);
    assert_eq!(sources[0].1, &(56..100).collect::<Vec<i16>>()[..]);
    assert_eq!(sources[0].2, 0);
    assert_eq!(sources[1].0.raw(), b);
    assert_eq!(sources[1].1, &[7; 10][..]);
    assert_eq!(sources[1].2, 48);
    assert!(cursor.is_finished());
}

#[test]
fn playback_from_the_middle() {
    let (snips, a, _b) = two_snippets();
    let mut cursor = Cursor::new(&snips, Time::from_micros(1000));
    let sources = cursor.take_sources(&snips, 4, 4);
    assert_eq!(sources.len(), 2);
    assert_eq!(sources[0].0.raw(), a);
    assert_eq!(sources[0].1, &[48, 49, 50, 51][..]);
    assert_eq!(sources[1].1, &[7, 7, 7, 7][..]);
    assert_eq!(sources[1].2, 0);
}

#[test]
fn slow_playback_cannot_start_a_later_snippet() {
    let (snips, _a, _b) = two_snippets();
    let mut cursor = Cursor::new(&snips, Time::from_micros(0));
    cursor.take_sources(&snips, 16, 16);
    // Sixty samples of output reach the second snippet, ten of input do not.
    assert!(!cursor.can_take_sources(60, 10));
}

#[test]
fn finished_when_nothing_is_left() {
    let snips = TalkSnippets::new();
    let cursor = Cursor::new(&snips, Time::from_micros(0));
    assert!(cursor.is_finished());
    let (snips, _a, _b) = two_snippets();
    let cursor = Cursor::new(&snips, Time::from_micros(5000));
    assert!(cursor.is_finished());
}

#[test]
fn buf_cursor_reads_and_advances() {
    let snip = TalkSnippet::new(vec![1, 2, 3], Time::from_micros(0), 1.0f32.to_bits());
    let snips = TalkSnippets::new();
    let (snips, id) = snips.with_new_snippet(snip);
    let mut c = BufCursor::new(id, snips.snippet(id), Time::from_micros(0));
    assert!(c.will_be_active(1));
    assert!(!c.is_finished());
    let (buf, offset) = c.get_buf_and_advance(&snips, 2);
    assert_eq!(buf, &[1, 2][..]);
    assert_eq!(offset, 0);
    let (buf, _) = c.get_buf_and_advance(&snips, 2);
    assert_eq!(buf, &[3][..]);
    assert!(c.is_finished());
}
