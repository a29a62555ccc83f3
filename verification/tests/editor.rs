use scribl::drawing::{SnippetData, SnippetId, SnippetsData};
use scribl::editor::{
    handle_editor_command, EditorAction, EditorCommand, EditorDocument, EditorEffect,
    EditorSnippetId, Stopped,
};
use scribl::status::EncodingStatus;
use scribl::talk::{TalkSnippet, TalkSnippets};
use scribl::time::{Time, TimeDiff};
use scribl::undo::UndoStack;

fn fresh() -> (EditorDocument<&'static str>, UndoStack<scribl::editor::EditorSnapshot<&'static str>>) {
    (EditorDocument::from_snippets(SnippetsData::new(), TalkSnippets::new()), UndoStack::new())
}

#[test]
fn editor_adds_and_deletes_drawings_with_undo() {
    let (mut doc, mut hist) = fresh();
    let r = handle_editor_command(&mut hist, EditorCommand::AddSnippet(SnippetData::new("a", vec![10, 20])), &mut doc);
    assert!(r.handled);
    assert_eq!(doc.selected_snippet, Some(EditorSnippetId::Draw(SnippetId(1))));
    assert_eq!(hist.undo_description(), Some("add drawing"));
    handle_editor_command(&mut hist, EditorCommand::DeleteSnippet, &mut doc);
    assert!(!doc.snippets.has_snippet(SnippetId(1)));
    assert_eq!(doc.selected_snippet, None);
    assert_eq!(hist.undo_description(), Some("delete drawing"));
    let r = handle_editor_command(&mut hist, EditorCommand::Undo, &mut doc);
    assert_eq!(r.effect, EditorEffect::Repaint);
    assert!(doc.snippets.has_snippet(SnippetId(1)));
    handle_editor_command(&mut hist, EditorCommand::Undo, &mut doc);
    assert!(!doc.snippets.has_snippet(SnippetId(1)));
    // Undoing an added drawing goes back to its start.
    assert_eq!(doc.time, Time::from_micros(10));
    handle_editor_command(&mut hist, EditorCommand::Redo, &mut doc);
    assert!(doc.snippets.has_snippet(SnippetId(1)));
}

#[test]
fn editor_snips_speech_and_deselects_what_disappears() {
    let (mut doc, mut hist) = fresh();
    let talk = TalkSnippet::new(vec![1; 48], Time::from_micros(0), 1.0f32.to_bits());
    handle_editor_command(&mut hist, EditorCommand::AddAudioSnippet(talk), &mut doc);
    let id = doc.audio_snippets.snippets()[0].0;
    doc.selected_snippet = Some(EditorSnippetId::Talk(id));
    handle_editor_command(&mut hist, EditorCommand::SetMark(Some(Time::from_micros(0))), &mut doc);
    assert_eq!(doc.mark, Some(Time::from_micros(0)));
    handle_editor_command(&mut hist, EditorCommand::WarpTimeTo(Time::from_micros(500)), &mut doc);
    handle_editor_command(&mut hist, EditorCommand::SilenceAudio, &mut doc);
    assert_eq!(hist.undo_description(), Some("silence speech"));
    assert_eq!(doc.audio_snippets.snippet(id).buf()[0], 0);
    handle_editor_command(&mut hist, EditorCommand::WarpTimeTo(Time::from_micros(1000)), &mut doc);
    handle_editor_command(&mut hist, EditorCommand::SnipAudio, &mut doc);
    assert_eq!(hist.undo_description(), Some("snip speech"));
    assert!(!doc.audio_snippets.has_snippet(id));
    assert_eq!(doc.selected_snippet, None);
}

#[test]
fn editor_shifts_and_changes_volume() {
    let (mut doc, mut hist) = fresh();
    handle_editor_command(&mut hist, EditorCommand::AddSnippet(SnippetData::new("a", vec![0, 100])), &mut doc);
    let draw = EditorSnippetId::Draw(SnippetId(1));
    handle_editor_command(&mut hist, EditorCommand::ShiftSnippet(draw, TimeDiff::from_micros(50)), &mut doc);
    assert_eq!(doc.snippets.snippet(SnippetId(1)).lerp().times().to_vec(), vec![50, 150]);
    assert_eq!(hist.undo_description(), Some("time-shift drawing"));
    let talk = TalkSnippet::new(vec![1, 2], Time::from_micros(0), 1.0f32.to_bits());
    handle_editor_command(&mut hist, EditorCommand::AddAudioSnippet(talk), &mut doc);
    let id = doc.audio_snippets.snippets()[0].0;
    handle_editor_command(&mut hist, EditorCommand::ShiftSnippet(EditorSnippetId::Talk(id), TimeDiff::from_micros(7)), &mut doc);
    assert_eq!(doc.audio_snippets.snippet(id).start_time(), Time::from_micros(7));
    doc.selected_snippet = Some(EditorSnippetId::Talk(id));
    handle_editor_command(&mut hist, EditorCommand::MultiplyVolume { multiplier_bits: 2.0f32.to_bits(), increase: true }, &mut doc);
    assert_eq!(doc.audio_snippets.snippet(id).multiplier_bits(), 2.0f32.to_bits());
    assert_eq!(hist.undo_description(), Some("increase volume"));
}

#[test]
fn editor_draw_is_transient_and_play_stops_drawing() {
    let (mut doc, mut hist) = fresh();
    let r = handle_editor_command(&mut hist, EditorCommand::Draw, &mut doc);
    assert_eq!(r.stopped, Stopped::Nothing);
    assert_eq!(doc.action, EditorAction::Recording { paused: true });
    assert_eq!(hist.undo_description(), Some("start drawing"));
    let r = handle_editor_command(&mut hist, EditorCommand::Play, &mut doc);
    assert_eq!(r.stopped, Stopped::Drawing);
    assert_eq!(r.effect, EditorEffect::StartPlaying);
    assert_eq!(doc.action, EditorAction::Playing);
    let r = handle_editor_command(&mut hist, EditorCommand::Stop, &mut doc);
    assert_eq!(r.stopped, Stopped::Playing);
    assert_eq!(doc.action, EditorAction::Idle);
    // A permanent edit forgets the transient "start drawing".
    handle_editor_command(&mut hist, EditorCommand::SetMark(None), &mut doc);
    handle_editor_command(&mut hist, EditorCommand::Undo, &mut doc);
    assert!(!hist.can_undo());
    let r = handle_editor_command(&mut hist, EditorCommand::Talk, &mut doc);
    assert_eq!(r.effect, EditorEffect::StartTalking);
    assert_eq!(doc.action, EditorAction::RecordingAudio(Time::from_micros(0)));
}

#[test]
fn editor_files_and_closing() {
    let (mut doc, mut hist) = fresh();
    let r = handle_editor_command(&mut hist, EditorCommand::SaveFile { path: None }, &mut doc);
    assert!(!r.handled);
    let r = handle_editor_command(&mut hist, EditorCommand::SaveFile { path: Some("a.scb".to_string()) }, &mut doc);
    assert_eq!(r.effect, EditorEffect::SpawnSave("a.scb".to_string()));
    assert_eq!(doc.status.in_progress.saving, Some("a.scb".to_string()));
    handle_editor_command(&mut hist, EditorCommand::FinishedSave { path: "a.scb".to_string(), error: None, autosave: false }, &mut doc);
    assert_eq!(doc.save_path, Some("a.scb".to_string()));
    assert_eq!(doc.status.in_progress.saving, None);
    let r = handle_editor_command(&mut hist, EditorCommand::CloseWindow { changed_since_last_save: true }, &mut doc);
    assert_eq!(r.effect, EditorEffect::ShowUnsavedAlert);
    let r = handle_editor_command(&mut hist, EditorCommand::CloseWindow { changed_since_last_save: false }, &mut doc);
    assert_eq!(r.effect, EditorEffect::ShowWaitingAlert);
    assert_eq!(doc.action, EditorAction::WaitingToExit);
    let r = handle_editor_command(&mut hist, EditorCommand::CloseWindow { changed_since_last_save: false }, &mut doc);
    assert!(!r.handled);
}

#[test]
fn editor_loading_replaces_the_document() {
    let (mut doc, mut hist) = fresh();
    handle_editor_command(&mut hist, EditorCommand::SetMark(None), &mut doc);
    let r = handle_editor_command(&mut hist, EditorCommand::OpenFile("b.scb".to_string()), &mut doc);
    assert_eq!(r.effect, EditorEffect::SpawnLoad("b.scb".to_string()));
    assert_eq!(doc.action, EditorAction::Loading);
    let r = handle_editor_command(&mut hist, EditorCommand::OpenFile("c.scb".to_string()), &mut doc);
    assert_eq!(r.effect, EditorEffect::Nothing);
    let loaded = SnippetsData::new().with_new_snippet(SnippetData::new("x", vec![0]));
    handle_editor_command(
        &mut hist,
        EditorCommand::FinishedLoad { path: "b.scb".to_string(), result: Ok((loaded, TalkSnippets::new())) },
        &mut doc,
    );
    assert!(doc.snippets.has_snippet(SnippetId(1)));
    assert_eq!(doc.action, EditorAction::Idle);
    assert_eq!(doc.mark, None);
    assert_eq!(doc.save_path, Some("b.scb".to_string()));
    assert!(!hist.can_undo());
    handle_editor_command(&mut hist, EditorCommand::Encoding(EncodingStatus::Encoding { frame: 1, out_of: 4 }), &mut doc);
    assert_eq!(doc.status.in_progress.encoding, Some((1, 4)));
    let r = handle_editor_command(&mut hist, EditorCommand::Export, &mut doc);
    assert_eq!(r.effect, EditorEffect::Nothing);
    let r = handle_editor_command(&mut hist, EditorCommand::Other, &mut doc);
    assert!(!r.handled);
}
