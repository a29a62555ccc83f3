use scribl::app_state::AppState;
use scribl::delegate::{AppCommand, Delegate, Handled};
use scribl::drawing::{SnippetData, SnippetId, SnippetsData};
use scribl::lens::read_map;
use scribl::talk::{TalkSnippet, SAMPLE_RATE};
use scribl::time::{Time, TimeDiff};
use scribl::timeline::{inner_lerp_times, Snip};

#[test]
fn editors_are_numbered_in_order() {
    let mut state: AppState<&str> = AppState::new();
    assert_eq!(state.next_editor_id(), 0);
    let a = state.add_editor("first", 70);
    let b = state.add_editor("second", 71);
    assert_eq!(a, 0);
    assert_eq!(b, 1);
    assert_eq!(state.next_editor_id(), 2);
    assert_eq!(state.editor(0), Some(&"first"));
    assert_eq!(state.editor(1), Some(&"second"));
    assert_eq!(state.editor(2), None);
}

#[test]
fn closing_a_window_closes_its_editor() {
    let mut state: AppState<u8> = AppState::default();
    state.add_editor(5, 100);
    state.add_editor(6, 200);
    assert!(state.remove_editor(100));
    assert_eq!(state.editor(0), None);
    assert_eq!(state.editor(1), Some(&6));
    assert!(!state.remove_editor(100));
    assert_eq!(state.editor(1), Some(&6));
    assert_eq!(state.next_editor_id(), 2);
}

#[test]
fn remove_after_add_restores_the_registry() {
    let mut state: AppState<u8> = AppState::new();
    state.add_editor(1, 10);
    let id = state.add_editor(2, 20);
    assert!(state.remove_editor(20));
    assert_eq!(state.editor(id), None);
    assert_eq!(state.editor(0), Some(&1));
    assert!(state.remove_editor(10));
    assert_eq!(state.editor(0), None);
}

#[test]
fn delegate_opens_editors_for_new_files_only() {
    let mut delegate = Delegate::default();
    let mut state: AppState<&str> = AppState::new();
    let handled = delegate.command(AppCommand::NewFile { editor: "fresh", window: 9 }, &mut state);
    assert_eq!(handled, Handled::Yes);
    assert_eq!(state.editor(0), Some(&"fresh"));
    let handled = delegate.command(AppCommand::Other, &mut state);
    assert_eq!(handled, Handled::No);
    assert_eq!(state.next_editor_id(), 1);
    assert!(delegate.window_removed(9, &mut state));
    assert_eq!(state.editor(0), None);
    assert!(!delegate.window_removed(9, &mut state));
}

#[test]
fn read_map_shows_a_computed_value() {
    let lens = read_map(|v: &Vec<i32>| v.len());
    let data = vec![4, 5, 6];
    assert_eq!(lens.with(&data, |n: &usize| *n + 1), 4);
    let doubled = read_map(|x: &i64| x * 2);
    assert_eq!(doubled.with(&21, |y: &i64| *y), 42);
}

#[test]
fn inner_lerp_times_skip_the_flat_ends() {
    let diffs = |v: Vec<i64>| v.into_iter().map(TimeDiff::from_micros).collect::<Vec<_>>();
    assert_eq!(inner_lerp_times(&[5, 5, 10, 20, 30, 30]), diffs(vec![5, 15]));
    assert_eq!(inner_lerp_times(&[0, 10, 20]), diffs(vec![10]));
    assert_eq!(inner_lerp_times(&[0, 10]), diffs(vec![]));
    assert_eq!(inner_lerp_times(&[7, 7, 7]), diffs(vec![]));
    assert_eq!(inner_lerp_times(&[3]), diffs(vec![]));
}

#[test]
fn timeline_times_of_a_drawing() {
    let data = SnippetsData::new().with_new_snippet(SnippetData::new("c", vec![0, 100]));
    let id = SnippetId(1);
    let plain: Snip<&str> = Snip::Drawing(data.snippet(id).clone());
    assert_eq!(plain.start_time(), Time::from_micros(0));
    assert_eq!(plain.end_time(), None);
    assert_eq!(plain.last_draw_time(), Some(Time::from_micros(100)));
    assert!(plain.inner_lerp_times().is_empty());

    let warped = data.with_new_lerp(id, 50, 80);
    let snip: Snip<&str> = Snip::Drawing(warped.snippet(id).clone());
    assert_eq!(snip.inner_lerp_times(), vec![TimeDiff::from_micros(80)]);

    let truncated = data.with_truncated_snippet(id, 40);
    let snip: Snip<&str> = Snip::Drawing(truncated.snippet(id).clone());
    assert_eq!(snip.end_time(), Some(Time::from_micros(40)));
    assert_eq!(snip.last_draw_time(), Some(Time::from_micros(40)));
}

#[test]
fn timeline_times_of_speech() {
    let talk = TalkSnippet::new(vec![0; 48], Time::from_micros(1000), 1.0f32.to_bits());
    let snip: Snip<&str> = Snip::Audio(talk);
    assert_eq!(snip.start_time(), Time::from_micros(1000));
    assert_eq!(snip.end_time(), Some(Time::from_micros(2000)));
    assert_eq!(snip.last_draw_time(), None);
    assert!(snip.inner_lerp_times().is_empty());
    assert_eq!(SAMPLE_RATE, 48000);
}
