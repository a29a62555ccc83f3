use scribl::document::{Command, Effect, Root, ScribbleState};
use scribl::drawing::{SnippetData, SnippetId};
use scribl::palette::{Color, PaletteData};
use scribl::talk::TalkSnippet;
use scribl::time::Time;

#[test]
fn adding_a_drawing_selects_it_and_can_be_undone() {
    let mut data: ScribbleState<&str> = ScribbleState::new();
    let mut palette = PaletteData::default();
    let mut root = Root::new(&data);
    let r = root.handle_command(Command::AddSnippet(SnippetData::new("a", vec![0, 10])), &mut data, &mut palette);
    assert_eq!(r, (true, Effect::Nothing));
    assert_eq!(data.selected_snippet, Some(SnippetId(1)));
    assert!(data.snippets.has_snippet(SnippetId(1)));

    let r = root.handle_command(Command::Undo, &mut data, &mut palette);
    assert_eq!(r, (true, Effect::Repaint));
    assert!(!data.snippets.has_snippet(SnippetId(1)));
    assert_eq!(data.selected_snippet, None);

    let r = root.handle_command(Command::Undo, &mut data, &mut palette);
    assert_eq!(r, (true, Effect::Nothing));

    let r = root.handle_command(Command::Redo, &mut data, &mut palette);
    assert_eq!(r, (true, Effect::Repaint));
    assert!(data.snippets.has_snippet(SnippetId(1)));
    assert_eq!(data.selected_snippet, Some(SnippetId(1)));
    let r = root.handle_command(Command::Redo, &mut data, &mut palette);
    assert_eq!(r, (true, Effect::Nothing));
}

#[test]
fn marks_truncation_and_warps() {
    let mut data: ScribbleState<&str> = ScribbleState::new();
    let mut palette = PaletteData::default();
    let mut root = Root::new(&data);
    root.handle_command(Command::AddSnippet(SnippetData::new("a", vec![0, 100])), &mut data, &mut palette);
    let id = SnippetId(1);
    root.handle_command(Command::SetMark(30), &mut data, &mut palette);
    assert_eq!(data.mark, Some(30));
    root.handle_command(Command::LerpSnippet { id, from_time: 50, to_time: 80 }, &mut data, &mut palette);
    assert_eq!(data.time_us, 80);
    assert_eq!(data.snippets.snippet(id).lerp().times().to_vec(), vec![0, 80, 100]);
    root.handle_command(Command::TruncateSnippet { id, time: 90 }, &mut data, &mut palette);
    assert_eq!(data.snippets.snippet(id).end_time(), Some(90));

    root.handle_command(Command::Undo, &mut data, &mut palette);
    assert_eq!(data.snippets.snippet(id).end_time(), None);
    root.handle_command(Command::Undo, &mut data, &mut palette);
    assert_eq!(data.snippets.snippet(id).lerp().times().to_vec(), vec![0, 100]);
    root.handle_command(Command::Undo, &mut data, &mut palette);
    assert_eq!(data.mark, None);
}

#[test]
fn audio_colors_and_export() {
    let mut data: ScribbleState<&str> = ScribbleState::default();
    let mut palette = PaletteData::default();
    let mut root = Root::new(&data);
    let talk = TalkSnippet::new(vec![1, 2, 3], Time::from_micros(0), 1.0f32.to_bits());
    root.handle_command(Command::AddAudioSnippet(talk), &mut data, &mut palette);
    assert_eq!(data.audio_snippets.snippets().len(), 1);

    let r = root.handle_command(Command::ChooseColor(Color::rgb8(9, 9, 9)), &mut data, &mut palette);
    assert_eq!(r, (true, Effect::Nothing));
    assert_eq!(*palette.selected_color(), Color::rgb8(9, 9, 9));

    assert!(!root.encoding());
    assert_eq!(root.handle_command(Command::Export, &mut data, &mut palette), (true, Effect::StartExport));
    assert!(root.encoding());
    assert_eq!(root.handle_command(Command::Export, &mut data, &mut palette), (true, Effect::Nothing));
    root.finish_encoding();
    assert!(!root.encoding());
    assert_eq!(root.handle_command(Command::Other, &mut data, &mut palette), (false, Effect::Nothing));
}

#[test]
fn saved_snippets_round_trip() {
    let mut data: ScribbleState<&str> = ScribbleState::new();
    let mut palette = PaletteData::default();
    let mut root = Root::new(&data);
    root.handle_command(Command::AddSnippet(SnippetData::new("a", vec![5])), &mut data, &mut palette);
    let (snippets, audio) = data.to_save_file();
    let loaded: ScribbleState<&str> = ScribbleState::from_save_file(snippets, audio);
    assert!(loaded.snippets.has_snippet(SnippetId(1)));
    assert_eq!(loaded.selected_snippet, None);
    assert_eq!(loaded.time_us, 0);
}
