use scribl::drawing::{SnippetData, SnippetId, SnippetsData};
use scribl::editor::{
    handle_editor_command, EditorAction, EditorCommand, EditorDocument, EditorSnippetId,
    EditorSnapshot,
};
use scribl::menus::{edit_menu_items, EditMenuEntry};
use scribl::talk::TalkSnippets;
use scribl::time::Time;
use scribl::undo::UndoStack;

#[test]
fn edit_menu_of_a_fresh_editor() {
    let hist: UndoStack<EditorSnapshot<&str>> = UndoStack::new();
    let items = edit_menu_items(&hist, EditorAction::Idle, None, None);
    assert_eq!(items.len(), 15);
    assert_eq!(items[0].entry, EditMenuEntry::Undo);
    assert_eq!(items[0].label, "Undo ");
    assert!(!items[0].enabled);
    assert_eq!(items[1].label, "Redo ");
    assert!(items[2].enabled);
    assert!(!items[5].enabled);
    assert_eq!(items[7].label, "Clear mark");
    assert!(!items[7].enabled);
    assert!(!items[10].enabled);
}

#[test]
fn edit_menu_follows_the_history_and_selection() {
    let mut doc: EditorDocument<&str> = EditorDocument::from_snippets(SnippetsData::new(), TalkSnippets::new());
    let mut hist = UndoStack::new();
    handle_editor_command(&mut hist, EditorCommand::AddSnippet(SnippetData::new("a", vec![0])), &mut doc);
    handle_editor_command(&mut hist, EditorCommand::SetMark(Some(Time::from_micros(5))), &mut doc);
    let items = edit_menu_items(&hist, EditorAction::Playing, doc.mark, doc.selected_snippet);
    assert_eq!(items[0].label, "Undo set mark");
    assert!(items[0].enabled);
    assert!(!items[4].enabled);
    assert!(items[5].enabled);
    assert_eq!(items[8].entry, EditMenuEntry::Warp);
    assert!(items[8].enabled);
    assert!(!items[11].enabled);
    handle_editor_command(&mut hist, EditorCommand::Undo, &mut doc);
    let items = edit_menu_items(&hist, EditorAction::Idle, doc.mark, doc.selected_snippet);
    assert_eq!(items[1].label, "Redo set mark");
    assert_eq!(doc.selected_snippet, Some(EditorSnippetId::Draw(SnippetId(1))));
}

#[test]
fn clear_mark_is_recorded() {
    let mut doc: EditorDocument<&str> = EditorDocument::from_snippets(SnippetsData::new(), TalkSnippets::new());
    let mut hist = UndoStack::new();
    handle_editor_command(&mut hist, EditorCommand::ClearMark, &mut doc);
    assert!(!hist.can_undo());
    handle_editor_command(&mut hist, EditorCommand::SetMark(None), &mut doc);
    handle_editor_command(&mut hist, EditorCommand::ClearMark, &mut doc);
    assert_eq!(doc.mark, None);
    assert_eq!(hist.undo_description(), Some("clear mark"));
}
