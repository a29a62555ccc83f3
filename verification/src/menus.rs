//! The entries of the editor's Edit menu: their labels, and when they can be
//! chosen. Choosing an entry sends the editor the command of the same name.

use vstd::prelude::*;
use vstd::string::StringExecFns;

use crate::editor::{EditorAction, EditorSnapshot, EditorSnippetId};
use crate::time::Time;
use crate::undo::UndoStack;

verus! {

/// An entry of the Edit menu, in menu order.
#[derive(Clone, Copy, Debug, PartialEq, Eq, Structural)]
pub enum EditMenuEntry {
    Undo,
    Redo,
    Draw,
    Talk,
    Play,
    Stop,
    SetMark,
    ClearMark,
    Warp,
    Truncate,
    Delete,
    IncreaseVolume,
    DecreaseVolume,
    Silence,
    Snip,
}

/// How an entry of the menu is shown.
#[derive(Clone, Debug, PartialEq)]
pub struct MenuItemState {
    pub entry: EditMenuEntry,
    pub label: String,
    pub enabled: bool,
}

/// The label of the Undo entry: "Undo" and the description of the action that
/// would be undone, if any.
pub open spec fn undo_label<S>(h: UndoStack<S>) -> Seq<char> {
    "Undo "@ + if h.undone() < h.entries().len() {
        h.entries()[h.undone()].description@
    } else {
        Seq::empty()
    }
}

/// The label of the Redo entry: "Redo" and the description of the action that
/// would be redone, if any.
pub open spec fn redo_label<S>(h: UndoStack<S>) -> Seq<char> {
    "Redo "@ + if h.undone() > 0 {
        h.entries()[h.undone() - 1].description@
    } else {
        Seq::empty()
    }
}

/// The entries of the Edit menu, each with its label and whether it can be
/// chosen: undo and redo when there is something to undo or redo, drawing,
/// talking and playing unless already doing that, stop while playing, drawing
/// or talking, clearing the mark when there is one, warping when there is a
/// mark and a drawing is selected, truncating when a drawing is selected,
/// deleting when anything is, and the speech edits when speech is selected.
pub open spec fn edit_menu_spec<S>(
    h: UndoStack<S>,
    action: EditorAction,
    mark: Option<Time>,
    selected: Option<EditorSnippetId>,
) -> Seq<(EditMenuEntry, Seq<char>, bool)> {
    let draw_selected = selected matches Some(EditorSnippetId::Draw(_));
    let talk_selected = selected matches Some(EditorSnippetId::Talk(_));
    seq![
        (EditMenuEntry::Undo, undo_label(h), h.undone() < h.entries().len()),
        (EditMenuEntry::Redo, redo_label(h), h.undone() > 0),
        (EditMenuEntry::Draw, "Draw"@, !(action is Recording)),
        (EditMenuEntry::Talk, "Talk"@, !(action is RecordingAudio)),
        (EditMenuEntry::Play, "Play"@, !(action is Playing)),
        (
            EditMenuEntry::Stop,
            "Stop"@,
            action is Playing || action is Recording || action is RecordingAudio,
        ),
        (EditMenuEntry::SetMark, "Set mark"@, true),
        (EditMenuEntry::ClearMark, "Clear mark"@, mark is Some),
        (EditMenuEntry::Warp, "Warp snippet"@, mark is Some && draw_selected),
        (EditMenuEntry::Truncate, "Truncate snippet"@, draw_selected),
        (EditMenuEntry::Delete, "Delete snippet"@, selected is Some),
        (EditMenuEntry::IncreaseVolume, "Increase volume"@, talk_selected),
        (EditMenuEntry::DecreaseVolume, "Decrease volume"@, talk_selected),
        (EditMenuEntry::Silence, "Silence range"@, talk_selected),
        (EditMenuEntry::Snip, "Snip range"@, talk_selected),
    ]
}

fn push_item(items: &mut Vec<MenuItemState>, entry: EditMenuEntry, label: String, enabled: bool)
    ensures
        final(items)@.len() == old(items)@.len() + 1,
        forall|k: int| 0 <= k < old(items)@.len() ==> final(items)@[k] == old(items)@[k],
        final(items)@.last().entry == entry,
        final(items)@.last().label@ == label@,
        final(items)@.last().enabled == enabled,
{
    items.push(MenuItemState { entry, label, enabled });
}

/// The entries of the Edit menu for an editor with history `history`, doing
/// `action`, with the mark `mark` and the selection `selected`.
pub fn edit_menu_items<C>(
    history: &UndoStack<EditorSnapshot<C>>,
    action: EditorAction,
    mark: Option<Time>,
    selected: Option<EditorSnippetId>,
) -> (r: Vec<MenuItemState>)
    requires
        history.wf(),
    ensures
        r@.len() == 15,
        forall|k: int|
            0 <= k < 15 ==> {
                let e = #[trigger] edit_menu_spec(*history, action, mark, selected)[k];
                &&& r@[k].entry == e.0
                &&& r@[k].label@ == e.1
                &&& r@[k].enabled == e.2
            },
{
    let ghost spec = edit_menu_spec(*history, action, mark, selected);
    let mut items: Vec<MenuItemState> = Vec::new();
    let undo_label = match history.undo_description() {
        Some(d) => "Undo ".to_owned().concat(d),
        None => "Undo ".to_owned(),
    };
    push_item(&mut items, EditMenuEntry::Undo, undo_label, history.can_undo());
    let redo_label = match history.redo_description() {
        Some(d) => "Redo ".to_owned().concat(d),
        None => "Redo ".to_owned(),
    };
    push_item(&mut items, EditMenuEntry::Redo, redo_label, history.can_redo());
    let recording = match action {
        EditorAction::Recording { .. } => true,
        _ => false,
    };
    let recording_audio = match action {
        EditorAction::RecordingAudio(_) => true,
        _ => false,
    };
    let playing = action == EditorAction::Playing;
    push_item(&mut items, EditMenuEntry::Draw, "Draw".to_owned(), !recording);
    push_item(&mut items, EditMenuEntry::Talk, "Talk".to_owned(), !recording_audio);
    push_item(&mut items, EditMenuEntry::Play, "Play".to_owned(), !playing);
    push_item(
        &mut items,
        EditMenuEntry::Stop,
        "Stop".to_owned(),
        playing || recording || recording_audio,
    );
    let draw_selected = match selected {
        Some(EditorSnippetId::Draw(_)) => true,
        _ => false,
    };
    let talk_selected = match selected {
        Some(EditorSnippetId::Talk(_)) => true,
        _ => false,
    };
    push_item(&mut items, EditMenuEntry::SetMark, "Set mark".to_owned(), true);
    push_item(&mut items, EditMenuEntry::ClearMark, "Clear mark".to_owned(), mark.is_some());
    push_item(
        &mut items,
        EditMenuEntry::Warp,
        "Warp snippet".to_owned(),
        mark.is_some() && draw_selected,
    );
    push_item(&mut items, EditMenuEntry::Truncate, "Truncate snippet".to_owned(), draw_selected);
    push_item(&mut items, EditMenuEntry::Delete, "Delete snippet".to_owned(), selected.is_some());
    push_item(&mut items, EditMenuEntry::IncreaseVolume, "Increase volume".to_owned(), talk_selected);
    push_item(&mut items, EditMenuEntry::DecreaseVolume, "Decrease volume".to_owned(), talk_selected);
    push_item(&mut items, EditMenuEntry::Silence, "Silence range".to_owned(), talk_selected);
    push_item(&mut items, EditMenuEntry::Snip, "Snip range".to_owned(), talk_selected);
    proof {
        assert forall|k: int| 0 <= k < 15 implies {
            let e = #[trigger] spec[k];
            &&& items@[k].entry == e.0
            &&& items@[k].label@ == e.1
            &&& items@[k].enabled == e.2
        } by {
            if k == 0 || k == 1 {
                assert(Seq::<char>::empty() + Seq::empty() =~= Seq::<char>::empty());
            }
        }
    }
    items
}

} // verus!
