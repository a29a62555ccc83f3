use scribl::drawing::{SnippetData, SnippetId, SnippetsData};

#[test]
fn points_appear_over_time() {
    let snip = SnippetData::new("curve", vec![0, 10, 10, 20, 30]);
    assert_eq!(snip.start_time(), 0);
    assert_eq!(snip.last_draw_time(), 30);
    assert_eq!(snip.end_time(), None);
    assert_eq!(snip.visible_points(-5), 1);
    assert_eq!(snip.visible_points(0), 1);
    assert_eq!(snip.visible_points(10), 3);
    assert_eq!(snip.visible_points(25), 4);
    assert_eq!(snip.visible_points(100), 5);
}

#[test]
fn warped_and_truncated_snippets() {
    let data = SnippetsData::default();
    let data = data.with_new_snippet(SnippetData::new("a", vec![0, 100]));
    let data = data.with_new_snippet(SnippetData::new("b", vec![50, 60]));
    let id = SnippetId(1);
    assert!(data.has_snippet(id));
    assert!(data.has_snippet(SnippetId(2)));
    let warped = data.with_new_lerp(id, 100, 50);
    assert_eq!(warped.snippet(id).last_draw_time(), 50);
    assert_eq!(warped.snippet(id).visible_points(50), 2);
    assert_eq!(*warped.snippet(id).curve(), "a");
    let truncated = data.with_truncated_snippet(id, 40);
    assert_eq!(truncated.snippet(id).end_time(), Some(40));
    assert_eq!(truncated.snippet(id).visible_points(41), 0);
    assert_eq!(truncated.snippets().len(), 2);
}

#[test]
fn replacing_snippets() {
    let data = SnippetsData::new()
        .with_new_snippet(SnippetData::new(1, vec![0]))
        .with_new_snippet(SnippetData::new(2, vec![0]))
        .with_new_snippet(SnippetData::new(3, vec![0]));
    let data = data.with_replacement_snippet(SnippetId(2), SnippetData::new(20, vec![5]));
    assert_eq!(*data.snippet(SnippetId(2)).curve(), 20);
    let ids: Vec<u64> = data.snippets().iter().map(|(id, _)| id.0).collect();
    assert_eq!(ids, vec![1, 2, 3]);
}
