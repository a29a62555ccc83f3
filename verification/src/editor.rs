//! The editor window's state and how it carries out the editor's commands:
//! editing drawings and speech, recording each edit in the undo history,
//! starting and stopping drawing, talking and playing, and keeping track of
//! saving, loading and encoding.
//!
//! What is left to the caller: the strokes of a drawing in progress, the speed
//! of scanning and drawing, the audio itself, file and thread handling, and the
//! alerts that are shown; the commands and results tell what to do.

use vstd::prelude::*;

use crate::drawing::{SnippetData, SnippetDataView, SnippetId, SnippetsData, SnippetsDataView};
use crate::lerp::{clamped_map, law_warped_knots_move_image, map_through, warped_lerped, warped_originals};
use crate::palette::{Color, PaletteData};
use crate::status::{AsyncOpsStatus, EncodingStatus, InProgressStatus};
use crate::talk::{TalkSnippet, TalkSnippetId, TalkSnippets, TalkSnippetsView};
use crate::time::{Time, TimeDiff};
use crate::undo::{pushed_history, UndoData, UndoStack};

verus! {

/// A selectable snippet: a drawing or a speech recording.
#[derive(Clone, Copy, Debug, PartialEq, Eq, Structural)]
pub enum EditorSnippetId {
    Draw(SnippetId),
    Talk(TalkSnippetId),
}

/// What the editor is doing.
#[derive(Clone, Copy, Debug, PartialEq, Eq, Structural)]
pub enum EditorAction {
    /// Drawing; the clock is paused until the first stroke.
    Recording { paused: bool },
    /// Playing the animation.
    Playing,
    /// Recording speech, which started at this time.
    RecordingAudio(Time),
    /// Moving through time (the speed is kept by the caller).
    Scanning,
    Idle,
    /// Loading a file.
    Loading,
    /// Waiting for background work to finish before the window closes.
    WaitingToExit,
}

/// The part of the editor's state that undo brings back.
pub struct SnapshotView<C> {
    pub snippets: SnippetsDataView<C>,
    pub audio_snippets: TalkSnippetsView,
    pub selected_snippet: Option<EditorSnippetId>,
    pub mark: Option<Time>,
    pub time: Time,
    pub action: EditorAction,
}

impl<C> SnapshotView<C> {
    /// Both collections of snippets are well formed.
    pub open spec fn wf(self) -> bool {
        self.snippets.wf() && self.audio_snippets.wf()
    }
}

/// A saved state of the editor, for undo and redo.
pub struct EditorSnapshot<C> {
    pub snippets: SnippetsData<C>,
    pub audio_snippets: TalkSnippets,
    pub selected_snippet: Option<EditorSnippetId>,
    pub mark: Option<Time>,
    pub time: Time,
    pub action: EditorAction,
}

impl<C> View for EditorSnapshot<C> {
    type V = SnapshotView<C>;

    open spec fn view(&self) -> SnapshotView<C> {
        SnapshotView {
            snippets: self.snippets@,
            audio_snippets: self.audio_snippets@,
            selected_snippet: self.selected_snippet,
            mark: self.mark,
            time: self.time,
            action: self.action,
        }
    }
}

impl<C> Clone for EditorSnapshot<C> {
    fn clone(&self) -> (r: EditorSnapshot<C>)
        ensures
            r@ == self@,
    {
        EditorSnapshot {
            snippets: self.snippets.clone(),
            audio_snippets: self.audio_snippets.clone(),
            selected_snippet: self.selected_snippet,
            mark: self.mark,
            time: self.time,
            action: self.action,
        }
    }
}

/// The state of an editor window.
pub struct EditorDocument<C> {
    pub snippets: SnippetsData<C>,
    pub audio_snippets: TalkSnippets,
    pub selected_snippet: Option<EditorSnippetId>,
    pub mark: Option<Time>,
    /// The current time.
    pub time: Time,
    pub action: EditorAction,
    pub palette: PaletteData,
    pub status: AsyncOpsStatus,
    /// Where the document was last saved or loaded from.
    pub save_path: Option<String>,
}

impl<C> EditorDocument<C> {
    /// The part of the state that undo brings back.
    pub open spec fn snapshot(&self) -> SnapshotView<C> {
        SnapshotView {
            snippets: self.snippets@,
            audio_snippets: self.audio_snippets@,
            selected_snippet: self.selected_snippet,
            mark: self.mark,
            time: self.time,
            action: self.action,
        }
    }

    /// Both collections of snippets are well formed.
    pub open spec fn wf(&self) -> bool {
        self.snapshot().wf()
    }

    /// A new editor holding the given snippets, at time zero, with nothing
    /// selected, the standard palette and no file.
    pub fn from_snippets(snippets: SnippetsData<C>, audio_snippets: TalkSnippets) -> (r:
        EditorDocument<C>)
        ensures
            r.snapshot() == (SnapshotView {
                snippets: snippets@,
                audio_snippets: audio_snippets@,
                selected_snippet: None,
                mark: None,
                time: Time(0),
                action: EditorAction::Idle,
            }),
            crate::palette::is_standard_palette(r.palette),
            r.status == empty_status(),
            r.save_path is None,
    {
        EditorDocument {
            snippets,
            audio_snippets,
            selected_snippet: None,
            mark: None,
            time: Time(0),
            action: EditorAction::Idle,
            palette: PaletteData::default(),
            status: AsyncOpsStatus {
                in_progress: InProgressStatus { encoding: None, saving: None, loading: None },
                last_finished: None,
            },
            save_path: None,
        }
    }

    /// The state that undo would bring back.
    pub fn undo_state(&self) -> (r: EditorSnapshot<C>)
        ensures
            r@ == self.snapshot(),
    {
        EditorSnapshot {
            snippets: self.snippets.clone(),
            audio_snippets: self.audio_snippets.clone(),
            selected_snippet: self.selected_snippet,
            mark: self.mark,
            time: self.time,
            action: self.action,
        }
    }

    /// Brings back a saved state. The editor is left idle, except that a state
    /// saved while drawing comes back as drawing, paused. The strokes of that
    /// drawing are held by the caller, which brings them back and, if there are
    /// any, moves the time to the end of the last one.
    pub fn restore_undo_state(&mut self, undo: EditorSnapshot<C>)
        ensures
            final(self).snapshot() == restored(undo@),
            final(self).palette == old(self).palette,
            final(self).status == old(self).status,
            final(self).save_path == old(self).save_path,
    {
        self.snippets = undo.snippets;
        self.audio_snippets = undo.audio_snippets;
        self.selected_snippet = undo.selected_snippet;
        self.mark = undo.mark;
        self.time = undo.time;
        self.action = match undo.action {
            EditorAction::Recording { .. } => EditorAction::Recording { paused: true },
            _ => EditorAction::Idle,
        };
    }
}

/// No operation in progress and none finished.
pub open spec fn empty_status() -> AsyncOpsStatus {
    AsyncOpsStatus {
        in_progress: InProgressStatus { encoding: None, saving: None, loading: None },
        last_finished: None,
    }
}

/// The state after bringing back `s`.
pub open spec fn restored<C>(s: SnapshotView<C>) -> SnapshotView<C> {
    SnapshotView {
        action: match s.action {
            EditorAction::Recording { .. } => EditorAction::Recording { paused: true },
            _ => EditorAction::Idle,
        },
        ..s
    }
}

/// The action after stopping what `a` is doing: playing, drawing and talking stop.
pub open spec fn stopped_action(a: EditorAction) -> EditorAction {
    match a {
        EditorAction::Playing | EditorAction::Recording { .. } | EditorAction::RecordingAudio(_) => EditorAction::Idle,
        _ => a,
    }
}

/// What was stopped, for the caller to finish.
#[derive(Clone, Copy, Debug, PartialEq, Eq, Structural)]
pub enum Stopped {
    Nothing,
    /// Playing stopped.
    Playing,
    /// Drawing stopped: the strokes drawn so far make the new drawing, if any.
    Drawing,
    /// Recording speech stopped.
    Talking,
    /// Scanning stopped.
    Scanning,
}

/// What stopping `a` stops.
pub open spec fn stop_report(a: EditorAction) -> Stopped {
    match a {
        EditorAction::Playing => Stopped::Playing,
        EditorAction::Recording { .. } => Stopped::Drawing,
        EditorAction::RecordingAudio(_) => Stopped::Talking,
        _ => Stopped::Nothing,
    }
}

/// What the caller has to do after a command.
#[derive(Clone, Debug, PartialEq)]
pub enum EditorEffect {
    Nothing,
    /// Redraw the window.
    Repaint,
    /// Start encoding the animation to a video, in the background.
    StartExport,
    /// Ask for an export of the current document to this path.
    SubmitExport(String),
    /// Start playing the animation and its speech.
    StartPlaying,
    /// Start recording speech.
    StartTalking,
    /// Save the document to this path, in the background.
    SpawnSave(String),
    /// Load the document from this path, in the background.
    SpawnLoad(String),
    /// Ask whether to close without saving.
    ShowUnsavedAlert,
    /// Show that the window closes once background work is done.
    ShowWaitingAlert,
}

/// The answer to a command.
#[derive(Clone, Debug, PartialEq)]
pub struct EditorResponse {
    /// The command was for the editor.
    pub handled: bool,
    /// What the command stopped.
    pub stopped: Stopped,
    pub effect: EditorEffect,
}

/// A command to the editor window.
pub enum EditorCommand<C> {
    /// Add a finished drawing, and select it.
    AddSnippet(SnippetData<C>),
    /// Delete the selected snippet.
    DeleteSnippet,
    /// Add a finished speech recording.
    AddAudioSnippet(TalkSnippet),
    ChooseColor(Color),
    /// Export the animation to a video.
    Export,
    /// Put the mark at the given time, or at the current time.
    SetMark(Option<Time>),
    /// Remove the mark, if there is one.
    ClearMark,
    /// Make the selected drawing disappear at the current time.
    TruncateSnippet,
    /// Warp the selected drawing so that what it shows now is shown at the mark,
    /// and go to the mark.
    LerpSnippet,
    /// Move a snippet in time.
    ShiftSnippet(EditorSnippetId, TimeDiff),
    /// Silence the selected speech between the mark and the current time.
    SilenceAudio,
    /// Cut the selected speech between the mark and the current time.
    SnipAudio,
    Undo,
    Redo,
    Play,
    Draw,
    Talk,
    Stop,
    /// Go to this time, if the editor is idle.
    WarpTimeTo(Time),
    /// Give the selected speech this volume multiplier (the bits of an `f32`);
    /// `increase` tells whether it is louder than before.
    MultiplyVolume { multiplier_bits: u32, increase: bool },
    /// Export the current document to this path. The caller gives the path its
    /// extension (`mp4`) if it has none, as it does for saving (`scb`): how a
    /// path's extension is found depends on the platform.
    ExportCurrent(String),
    /// Save, to the given path or else to the path of the document.
    SaveFile { path: Option<String> },
    /// Load the document at this path.
    OpenFile(String),
    /// The window is asked to close; `changed_since_last_save` tells whether the
    /// document differs from what was last saved.
    CloseWindow { changed_since_last_save: bool },
    /// Loading `path` finished, with its snippets or an error message.
    FinishedLoad { path: String, result: Result<(SnippetsData<C>, TalkSnippets), String> },
    /// Saving to `path` finished, with an error message if it failed.
    FinishedSave { path: String, error: Option<String>, autosave: bool },
    /// A progress report from the video encoder.
    Encoding(EncodingStatus),
    /// A command for someone else.
    Other,
}

/// The command can be carried out on `s`: new snippets get an id, the snippets
/// that are edited exist and their times stay within `i64`, and drawing,
/// playing or talking start from a state that can be stopped.
pub open spec fn editor_command_ok<C>(cmd: EditorCommand<C>, s: SnapshotView<C>) -> bool {
    match cmd {
        EditorCommand::AddSnippet(snip) => s.snippets.last_id < u64::MAX && snip@.wf(),
        EditorCommand::AddAudioSnippet(_) => s.audio_snippets.last_id < u64::MAX,
        EditorCommand::TruncateSnippet => s.selected_snippet matches Some(
            EditorSnippetId::Draw(id),
        ) ==> s.snippets.contains(id.0),
        EditorCommand::LerpSnippet => match (s.mark, s.selected_snippet) {
            (Some(_), Some(EditorSnippetId::Draw(id))) => s.snippets.contains(id.0)
                && s.snippets.snippet(id.0).wf(),
            _ => true,
        },
        EditorCommand::ShiftSnippet(EditorSnippetId::Draw(id), d) => {
            &&& s.snippets.contains(id.0)
            &&& s.snippets.snippet(id.0).wf()
            &&& s.snippets.snippet(id.0).can_shift(d.0 as int)
        },
        EditorCommand::ShiftSnippet(EditorSnippetId::Talk(id), d) => {
            &&& s.audio_snippets.contains(id.number())
            &&& i64::MIN <= s.audio_snippets.snippet(id.number()).start + d.0 <= i64::MAX
        },
        EditorCommand::SilenceAudio | EditorCommand::SnipAudio => match (s.mark, s.selected_snippet) {
            (Some(m), Some(EditorSnippetId::Talk(id))) => {
                let snip = s.audio_snippets.snippet(id.number());
                &&& s.audio_snippets.contains(id.number())
                &&& snip.wf()
                &&& i64::MIN <= m.0 - snip.start <= i64::MAX
                &&& i64::MIN <= s.time.0 - snip.start <= i64::MAX
            },
            _ => true,
        },
        EditorCommand::MultiplyVolume { .. } => s.selected_snippet matches Some(
            EditorSnippetId::Talk(id),
        ) ==> s.audio_snippets.contains(id.number()),
        EditorCommand::Play | EditorCommand::Draw | EditorCommand::Talk => stopped_action(s.action)
            == EditorAction::Idle,
        EditorCommand::FinishedLoad { result: Ok((snippets, audio)), .. } => snippets@.wf()
            && audio@.wf(),
        _ => true,
    }
}

/// The state after an edit that is recorded in the undo history, with its
/// description; nothing if the command is no such edit, or has nothing to act on.
pub open spec fn edited<C>(cmd: EditorCommand<C>, s: SnapshotView<C>) -> Option<
    (SnapshotView<C>, Seq<char>),
> {
    match cmd {
        EditorCommand::AddSnippet(snip) => {
            let id = (s.snippets.last_id + 1) as u64;
            Some(
                (
                    SnapshotView {
                        snippets: SnippetsDataView {
                            last_id: id,
                            snippets: s.snippets.snippets.push((id, snip@)),
                        },
                        selected_snippet: Some(EditorSnippetId::Draw(SnippetId(id))),
                        ..s
                    },
                    "add drawing"@,
                ),
            )
        },
        EditorCommand::DeleteSnippet => match s.selected_snippet {
            Some(EditorSnippetId::Draw(id)) => Some(
                (
                    SnapshotView {
                        snippets: s.snippets.removed(id.0),
                        selected_snippet: None,
                        ..s
                    },
                    "delete drawing"@,
                ),
            ),
            Some(EditorSnippetId::Talk(id)) => Some(
                (
                    SnapshotView {
                        audio_snippets: s.audio_snippets.removed(id.number()),
                        selected_snippet: None,
                        ..s
                    },
                    "delete audio"@,
                ),
            ),
            None => None,
        },
        EditorCommand::AddAudioSnippet(snip) => {
            let id = (s.audio_snippets.last_id + 1) as u64;
            Some(
                (
                    SnapshotView {
                        audio_snippets: TalkSnippetsView {
                            last_id: id,
                            snippets: s.audio_snippets.snippets.push((id, snip@)),
                        },
                        ..s
                    },
                    "add audio"@,
                ),
            )
        },
        EditorCommand::SetMark(t) => Some(
            (
                SnapshotView {
                    mark: Some(
                        match t {
                            Some(t) => t,
                            None => s.time,
                        },
                    ),
                    ..s
                },
                "set mark"@,
            ),
        ),
        EditorCommand::ClearMark => if s.mark is Some {
            Some((SnapshotView { mark: None, ..s }, "clear mark"@))
        } else {
            None
        },
        EditorCommand::TruncateSnippet => match s.selected_snippet {
            Some(EditorSnippetId::Draw(id)) => Some(
                (
                    SnapshotView {
                        snippets: SnippetsDataView {
                            snippets: s.snippets.snippets.update(
                                s.snippets.position_of(id.0),
                                (
                                    id.0,
                                    s.snippets.snippet(id.0).truncated(s.time.0),
                                ),
                            ),
                            ..s.snippets
                        },
                        ..s
                    },
                    "truncate drawing"@,
                ),
            ),
            _ => None,
        },
        EditorCommand::LerpSnippet => match (s.mark, s.selected_snippet) {
            (Some(m), Some(EditorSnippetId::Draw(id))) => {
                let old_snip = s.snippets.snippet(id.0);
                let new_snip = SnippetDataView {
                    lerp_originals: warped_originals(
                        old_snip.lerp_originals,
                        old_snip.lerp_lerped,
                        s.time.0,
                    ),
                    lerp_lerped: warped_lerped(
                        old_snip.lerp_originals,
                        old_snip.lerp_lerped,
                        s.time.0,
                        m.0,
                    ),
                    ..old_snip
                };
                Some(
                    (
                        SnapshotView {
                            snippets: SnippetsDataView {
                                snippets: s.snippets.snippets.update(
                                    s.snippets.position_of(id.0),
                                    (id.0, new_snip),
                                ),
                                ..s.snippets
                            },
                            time: m,
                            ..s
                        },
                        "warp drawing"@,
                    ),
                )
            },
            _ => None,
        },
        EditorCommand::ShiftSnippet(EditorSnippetId::Draw(id), d) => Some(
            (
                SnapshotView {
                    snippets: SnippetsDataView {
                        snippets: s.snippets.snippets.update(
                            s.snippets.position_of(id.0),
                            (id.0, s.snippets.snippet(id.0).shifted(d.0 as int)),
                        ),
                        ..s.snippets
                    },
                    ..s
                },
                "time-shift drawing"@,
            ),
        ),
        EditorCommand::ShiftSnippet(EditorSnippetId::Talk(id), d) => Some(
            (
                SnapshotView {
                    audio_snippets: s.audio_snippets.replaced(
                        id.number(),
                        s.audio_snippets.snippet(id.number()).shifted(d.0 as int),
                    ),
                    ..s
                },
                "time-shift speech"@,
            ),
        ),
        EditorCommand::SilenceAudio => match (s.mark, s.selected_snippet) {
            (Some(m), Some(EditorSnippetId::Talk(id))) => Some(
                (
                    SnapshotView {
                        audio_snippets: s.audio_snippets.replaced(
                            id.number(),
                            s.audio_snippets.snippet(id.number()).silenced(m.0 as int, s.time.0 as int),
                        ),
                        ..s
                    },
                    "silence speech"@,
                ),
            ),
            _ => None,
        },
        EditorCommand::SnipAudio => match (s.mark, s.selected_snippet) {
            (Some(m), Some(EditorSnippetId::Talk(id))) => {
                let snipped = s.audio_snippets.snippet(id.number()).snipped(
                    m.0 as int,
                    s.time.0 as int,
                );
                let audio = if snipped.samples.len() == 0 {
                    s.audio_snippets.removed(id.number())
                } else {
                    s.audio_snippets.replaced(id.number(), snipped)
                };
                Some(
                    (
                        SnapshotView {
                            audio_snippets: audio,
                            selected_snippet: if audio.contains(id.number()) {
                                s.selected_snippet
                            } else {
                                None
                            },
                            ..s
                        },
                        "snip speech"@,
                    ),
                )
            },
            _ => None,
        },
        EditorCommand::MultiplyVolume { multiplier_bits, increase } => match s.selected_snippet {
            Some(EditorSnippetId::Talk(id)) => Some(
                (
                    SnapshotView {
                        audio_snippets: s.audio_snippets.replaced(
                            id.number(),
                            s.audio_snippets.snippet(id.number()).with_multiplier_bits(
                                multiplier_bits,
                            ),
                        ),
                        ..s
                    },
                    if increase {
                        "increase volume"@
                    } else {
                        "decrease volume"@
                    },
                ),
            ),
            _ => None,
        },
        _ => None,
    }
}

/// The state that undoing an edit brings back: the state before it, except
/// that undoing an added snippet goes back to the snippet's start.
pub open spec fn undo_point<C>(cmd: EditorCommand<C>, s: SnapshotView<C>) -> SnapshotView<C> {
    match cmd {
        EditorCommand::AddSnippet(snip) => SnapshotView { time: Time(snip@.lerp_lerped[0]), ..s },
        EditorCommand::AddAudioSnippet(snip) => SnapshotView {
            time: Time(snip@.start as i64),
            ..s
        },
        _ => s,
    }
}

/// `after` is `before` with an action recorded on top, which brings back `undo`
/// when undone and `redo` when redone, and is described by `desc`.
pub open spec fn recorded<C>(
    before: UndoStack<EditorSnapshot<C>>,
    after: UndoStack<EditorSnapshot<C>>,
    undo: SnapshotView<C>,
    redo: SnapshotView<C>,
    desc: Seq<char>,
    transient: bool,
) -> bool {
    let e = after.entries()[0];
    &&& after.undone() == 0
    &&& after.entries().len() > 0
    &&& e.undo_state@ == undo
    &&& e.redo_state@ == redo
    &&& e.description@ == desc
    &&& e.transient == transient
    &&& after.entries() == pushed_history(before.entries().skip(before.undone()), e)
}

/// The history is well formed and every state in it is well formed.
pub open spec fn history_wf<C>(h: UndoStack<EditorSnapshot<C>>) -> bool {
    &&& h.wf()
    &&& forall|i: int|
        0 <= i < h.entries().len() ==> (#[trigger] h.entries()[i]).undo_state@.wf()
            && h.entries()[i].redo_state@.wf()
}

proof fn lemma_recorded_history_wf<C>(
    before: UndoStack<EditorSnapshot<C>>,
    after: UndoStack<EditorSnapshot<C>>,
    undo: SnapshotView<C>,
    redo: SnapshotView<C>,
    desc: Seq<char>,
    transient: bool,
)
    requires
        history_wf(before),
        after.wf(),
        recorded(before, after, undo, redo, desc, transient),
        undo.wf(),
        redo.wf(),
    ensures
        history_wf(after),
{
    let kept = before.entries().skip(before.undone());
    let e = after.entries()[0];
    let base = if e.transient {
        kept
    } else {
        kept.skip(crate::undo::first_permanent(kept))
    };
    crate::undo::lemma_first_permanent_from(kept, 0);
    assert forall|i: int| 0 <= i < after.entries().len() implies (#[trigger] after.entries()[i]).undo_state@.wf()
        && after.entries()[i].redo_state@.wf() by {
        if i > 0 {
            assert(after.entries()[i] == base[i - 1]);
            if e.transient {
                assert(base[i - 1] == before.entries()[before.undone() + i - 1]);
            } else {
                assert(base[i - 1] == before.entries()[before.undone() + crate::undo::first_permanent(kept) + i - 1]);
            }
        }
    }
}

/// Undoing right after a recorded edit brings back the state from before the
/// edit (its undo point), and redoing then brings back the edited state.
pub proof fn law_undo_reverts_editor_edit<C>(
    before: UndoStack<EditorSnapshot<C>>,
    after: UndoStack<EditorSnapshot<C>>,
    undo: SnapshotView<C>,
    redo: SnapshotView<C>,
    desc: Seq<char>,
)
    requires
        recorded(before, after, undo, redo, desc, false),
    ensures
        after.undone() < after.entries().len(),
        after.entries()[after.undone()].undo_state@ == undo,
        after.entries()[after.undone()].redo_state@ == redo,
{
}

/// Warping the selected drawing makes it show at the mark what it showed at the
/// current time, and moves the current time to the mark.
pub proof fn law_warp_shows_current_image_at_mark<C>(s: SnapshotView<C>, m: Time, id: SnippetId)
    requires
        s.wf(),
        s.mark == Some(m),
        s.selected_snippet == Some(EditorSnippetId::Draw(id)),
        s.snippets.contains(id.0),
        s.snippets.snippet(id.0).wf(),
    ensures
        edited(EditorCommand::<C>::LerpSnippet, s) is Some,
        ({
            let e = edited(EditorCommand::<C>::LerpSnippet, s).unwrap().0;
            let old_snip = s.snippets.snippet(id.0);
            let new_snip = e.snippets.snippet(id.0);
            let shown = clamped_map(old_snip.lerp_lerped, old_snip.lerp_originals, s.time.0 as int);
            &&& e.time == m
            &&& new_snip.lerp_originals[0] <= shown <= new_snip.lerp_originals.last()
            &&& map_through(new_snip.lerp_originals, new_snip.lerp_lerped, shown) == m.0
        }),
{
    let e = edited(EditorCommand::<C>::LerpSnippet, s).unwrap().0;
    let old_snip = s.snippets.snippet(id.0);
    let p = s.snippets.position_of(id.0);
    assert(0 <= p < s.snippets.snippets.len() && s.snippets.snippets[p].0 == id.0);
    let q = e.snippets.position_of(id.0);
    assert(e.snippets.snippets[p].0 == id.0);
    assert(0 <= q < e.snippets.snippets.len() && e.snippets.snippets[q].0 == id.0);
    assert(q == p) by {
        if q < p {
            assert(s.snippets.snippets[q].0 < s.snippets.snippets[p].0);
        } else if p < q {
            assert(s.snippets.snippets[p].0 < s.snippets.snippets[q].0);
        }
    }
    law_warped_knots_move_image(old_snip.lerp_originals, old_snip.lerp_lerped, s.time.0, m.0);
}

/// The command may change the palette: choosing a color, or a loaded document.
pub open spec fn changes_palette<C>(cmd: EditorCommand<C>) -> bool {
    cmd is ChooseColor || cmd matches EditorCommand::FinishedLoad { result: Ok(_), .. }
}

/// The command may change the status of background operations.
pub open spec fn changes_status<C>(cmd: EditorCommand<C>) -> bool {
    cmd is SaveFile || cmd is OpenFile || cmd is FinishedLoad || cmd is FinishedSave
        || cmd is Encoding
}

/// The command may change the document's path.
pub open spec fn changes_save_path<C>(cmd: EditorCommand<C>) -> bool {
    cmd is FinishedLoad || cmd is FinishedSave
}

/// Carries out a command of the editor window on `data`, recording edits in
/// `history`. Returns whether the command was for the editor, what it stopped,
/// and what the caller has to do.
#[verifier::rlimit(60)]
pub fn handle_editor_command<C>(
    history: &mut UndoStack<EditorSnapshot<C>>,
    cmd: EditorCommand<C>,
    data: &mut EditorDocument<C>,
) -> (r: EditorResponse)
    requires
        history_wf(*old(history)),
        old(data).wf(),
        editor_command_ok(cmd, old(data).snapshot()),
    ensures
        history_wf(*final(history)),
        final(data).wf(),
        !changes_palette(cmd) ==> final(data).palette == old(data).palette,
        !changes_status(cmd) ==> final(data).status == old(data).status,
        !changes_save_path(cmd) ==> final(data).save_path == old(data).save_path,
        r.handled == match cmd {
            EditorCommand::Other => false,
            EditorCommand::SaveFile { path } => path is Some || old(data).save_path is Some,
            EditorCommand::CloseWindow { .. } => old(data).action != EditorAction::WaitingToExit,
            _ => true,
        },
        // Edits: the new state, recorded in the history.
        edited(cmd, old(data).snapshot()) matches Some((s, desc)) ==> {
            &&& final(data).snapshot() == s
            &&& recorded(
                *old(history),
                *final(history),
                undo_point(cmd, old(data).snapshot()),
                s,
                desc,
                false,
            )
            &&& final(data).palette == old(data).palette
            &&& final(data).status == old(data).status
            &&& final(data).save_path == old(data).save_path
            &&& r.stopped == Stopped::Nothing
            &&& r.effect == EditorEffect::Nothing
        },
        // Everything else.
        edited(cmd, old(data).snapshot()) is None ==> match cmd {
            EditorCommand::ChooseColor(c) => {
                &&& final(data).snapshot() == old(data).snapshot()
                &&& *final(history) == *old(history)
                &&& final(data).palette.selected() == c
                &&& final(data).palette.entries() == old(data).palette.entries()
                &&& final(data).status == old(data).status
                &&& r.effect == EditorEffect::Nothing
            },
            EditorCommand::ExportCurrent(p) => {
                &&& final(data).snapshot() == old(data).snapshot()
                &&& *final(history) == *old(history)
                &&& r.effect matches EditorEffect::SubmitExport(q) && q@ == p@
            },
            EditorCommand::Export => {
                &&& final(data).snapshot() == old(data).snapshot()
                &&& *final(history) == *old(history)
                &&& final(data).status == old(data).status
                &&& r.effect == if old(data).status.in_progress.encoding is Some {
                    EditorEffect::Nothing
                } else {
                    EditorEffect::StartExport
                }
            },
            EditorCommand::Undo => {
                let h = *old(history);
                &&& final(history).entries() == h.entries()
                &&& final(data).palette == old(data).palette
                &&& final(data).status == old(data).status
                &&& r.effect == EditorEffect::Repaint
                &&& if h.undone() < h.entries().len() {
                    &&& final(history).undone() == h.undone() + 1
                    &&& final(data).snapshot() == restored(h.entries()[h.undone()].undo_state@)
                } else {
                    &&& final(history).undone() == h.undone()
                    &&& final(data).snapshot() == old(data).snapshot()
                }
            },
            EditorCommand::Redo => {
                let h = *old(history);
                &&& final(history).entries() == h.entries()
                &&& final(data).palette == old(data).palette
                &&& final(data).status == old(data).status
                &&& r.effect == EditorEffect::Repaint
                &&& if h.undone() > 0 {
                    &&& final(history).undone() == h.undone() - 1
                    &&& final(data).snapshot() == restored(h.entries()[h.undone() - 1].redo_state@)
                } else {
                    &&& final(history).undone() == 0
                    &&& final(data).snapshot() == old(data).snapshot()
                }
            },
            EditorCommand::Play => {
                &&& final(data).snapshot() == SnapshotView {
                    action: EditorAction::Playing,
                    ..old(data).snapshot()
                }
                &&& *final(history) == *old(history)
                &&& r.stopped == stop_report(old(data).action)
                &&& r.effect == EditorEffect::StartPlaying
            },
            EditorCommand::Draw => {
                let before = SnapshotView { action: EditorAction::Idle, ..old(data).snapshot() };
                let after = SnapshotView {
                    action: EditorAction::Recording { paused: true },
                    ..old(data).snapshot()
                };
                &&& final(data).snapshot() == after
                &&& recorded(*old(history), *final(history), before, after, "start drawing"@, true)
                &&& r.stopped == stop_report(old(data).action)
                &&& r.effect == EditorEffect::Nothing
            },
            EditorCommand::Talk => {
                &&& final(data).snapshot() == SnapshotView {
                    action: EditorAction::RecordingAudio(old(data).time),
                    ..old(data).snapshot()
                }
                &&& *final(history) == *old(history)
                &&& r.stopped == stop_report(old(data).action)
                &&& r.effect == EditorEffect::StartTalking
            },
            EditorCommand::Stop => {
                &&& final(data).snapshot() == SnapshotView {
                    action: stopped_action(old(data).action),
                    ..old(data).snapshot()
                }
                &&& *final(history) == *old(history)
                &&& r.stopped == stop_report(old(data).action)
                &&& r.effect == EditorEffect::Nothing
            },
            EditorCommand::WarpTimeTo(t) => {
                &&& final(data).snapshot() == if old(data).action == EditorAction::Idle {
                    SnapshotView { time: t, ..old(data).snapshot() }
                } else {
                    old(data).snapshot()
                }
                &&& *final(history) == *old(history)
                &&& r.effect == EditorEffect::Nothing
            },
            EditorCommand::SaveFile { path } => {
                &&& final(data).snapshot() == old(data).snapshot()
                &&& *final(history) == *old(history)
                &&& match (if path is Some { path } else { old(data).save_path }) {
                    Some(p) => {
                        &&& final(data).status.in_progress.saving matches Some(q) && q@ == p@
                        &&& final(data).status.in_progress.encoding == old(data).status.in_progress.encoding
                        &&& final(data).status.in_progress.loading == old(data).status.in_progress.loading
                        &&& final(data).status.last_finished == old(data).status.last_finished
                        &&& r.effect matches EditorEffect::SpawnSave(q) && q@ == p@
                    },
                    None => {
                        &&& final(data).status == old(data).status
                        &&& r.effect == EditorEffect::Nothing
                    },
                }
            },
            EditorCommand::OpenFile(p) => {
                &&& *final(history) == *old(history)
                &&& if old(data).status.in_progress.loading is Some {
                    &&& final(data).snapshot() == old(data).snapshot()
                    &&& final(data).status == old(data).status
                    &&& r.stopped == Stopped::Nothing
                    &&& r.effect == EditorEffect::Nothing
                } else {
                    &&& final(data).snapshot() == SnapshotView {
                        action: EditorAction::Loading,
                        ..old(data).snapshot()
                    }
                    &&& final(data).status.in_progress.loading == Some(p)
                    &&& final(data).status.in_progress.saving == old(data).status.in_progress.saving
                    &&& final(data).status.in_progress.encoding == old(data).status.in_progress.encoding
                    &&& final(data).status.last_finished == old(data).status.last_finished
                    &&& r.stopped == if old(data).action == EditorAction::Scanning {
                        Stopped::Scanning
                    } else {
                        stop_report(old(data).action)
                    }
                    &&& r.effect matches EditorEffect::SpawnLoad(q) && q@ == p@
                }
            },
            EditorCommand::CloseWindow { changed_since_last_save } => {
                &&& *final(history) == *old(history)
                &&& final(data).status == old(data).status
                &&& if old(data).action == EditorAction::WaitingToExit {
                    &&& final(data).snapshot() == old(data).snapshot()
                    &&& r.effect == EditorEffect::Nothing
                } else if changed_since_last_save {
                    &&& final(data).snapshot() == old(data).snapshot()
                    &&& r.effect == EditorEffect::ShowUnsavedAlert
                } else {
                    &&& final(data).snapshot() == SnapshotView {
                        action: EditorAction::WaitingToExit,
                        ..old(data).snapshot()
                    }
                    &&& r.effect == EditorEffect::ShowWaitingAlert
                }
            },
            EditorCommand::FinishedLoad { path, result } => {
                &&& r.effect == EditorEffect::Nothing
                &&& match result {
                    Ok((snippets, audio)) => {
                        &&& final(data).snapshot() == SnapshotView {
                            snippets: snippets@,
                            audio_snippets: audio@,
                            selected_snippet: None,
                            mark: None,
                            time: Time(0),
                            action: EditorAction::Idle,
                        }
                        &&& final(data).status == empty_status()
                        &&& final(data).save_path == Some(path)
                        &&& final(history).entries().len() == 0
                        &&& final(history).undone() == 0
                    },
                    Err(e) => {
                        &&& final(data).snapshot() == old(data).snapshot()
                        &&& *final(history) == *old(history)
                        &&& final(data).status.in_progress.loading is None
                        &&& final(data).status.in_progress.saving == old(data).status.in_progress.saving
                        &&& final(data).status.in_progress.encoding == old(data).status.in_progress.encoding
                        &&& final(data).status.last_finished == Some(crate::status::FinishedStatus::Error(e))
                        &&& final(data).save_path == old(data).save_path
                    },
                }
            },
            EditorCommand::FinishedSave { path, error, autosave } => {
                &&& final(data).snapshot() == old(data).snapshot()
                &&& *final(history) == *old(history)
                &&& r.effect == EditorEffect::Nothing
                &&& final(data).status.in_progress.saving is None
                &&& final(data).status.in_progress.loading == old(data).status.in_progress.loading
                &&& final(data).status.in_progress.encoding == old(data).status.in_progress.encoding
                &&& match error {
                    None => final(data).status.last_finished matches Some(
                        crate::status::FinishedStatus::Saved { path: p, .. },
                    ) && p@ == path@,
                    Some(e) => final(data).status.last_finished == Some(
                        crate::status::FinishedStatus::Error(e),
                    ),
                }
                &&& final(data).save_path == if !autosave && error is None {
                    Some(path)
                } else {
                    old(data).save_path
                }
            },
            EditorCommand::Encoding(s) => {
                &&& final(data).snapshot() == old(data).snapshot()
                &&& *final(history) == *old(history)
                &&& r.effect == EditorEffect::Nothing
                &&& final(data).status.in_progress.saving == old(data).status.in_progress.saving
                &&& final(data).status.in_progress.loading == old(data).status.in_progress.loading
                &&& match s {
                    EncodingStatus::Encoding { frame, out_of } => {
                        &&& final(data).status.in_progress.encoding == Some((frame, out_of))
                        &&& final(data).status.last_finished == old(data).status.last_finished
                    },
                    EncodingStatus::Finished(p) => {
                        &&& final(data).status.in_progress.encoding is None
                        &&& final(data).status.last_finished matches Some(
                            crate::status::FinishedStatus::Encoded { path: q, .. },
                        ) && q@ == p@
                    },
                    EncodingStatus::Error(m) => {
                        &&& final(data).status.in_progress.encoding is None
                        &&& final(data).status.last_finished matches Some(
                            crate::status::FinishedStatus::Error(q),
                        ) && q@ == m@
                    },
                }
            },
            _ => {
                &&& final(data).snapshot() == old(data).snapshot()
                &&& *final(history) == *old(history)
                &&& final(data).status == old(data).status
                &&& r.effect == EditorEffect::Nothing
            },
        },
{
    let nothing = EditorResponse { handled: true, stopped: Stopped::Nothing, effect: EditorEffect::Nothing };
    match cmd {
        EditorCommand::ExportCurrent(p) => EditorResponse {
            effect: EditorEffect::SubmitExport(p),
            ..nothing
        },
        EditorCommand::AddSnippet(snip) => {
            let prev = data.undo_state();
            let start = snip.start_time();
            let new_snippets = data.snippets.with_new_snippet(snip);
            let id = new_snippets.last_id();
            data.snippets = new_snippets;
            data.selected_snippet = Some(EditorSnippetId::Draw(id));
            let undo = EditorSnapshot { time: Time(start), ..prev };
            record(history, undo, data, "add drawing".to_owned());
            nothing
        },
        EditorCommand::DeleteSnippet => {
            match data.selected_snippet {
                Some(EditorSnippetId::Draw(id)) => {
                    let prev = data.undo_state();
                    data.snippets = data.snippets.without_snippet(id);
                    data.selected_snippet = None;
                    record(history, prev, data, "delete drawing".to_owned());
                },
                Some(EditorSnippetId::Talk(id)) => {
                    let prev = data.undo_state();
                    data.audio_snippets = data.audio_snippets.without_snippet(id);
                    data.selected_snippet = None;
                    record(history, prev, data, "delete audio".to_owned());
                },
                None => {},
            }
            nothing
        },
        EditorCommand::AddAudioSnippet(snip) => {
            let prev = data.undo_state();
            let start = snip.start_time();
            let (new_snippets, _id) = data.audio_snippets.with_new_snippet(snip);
            data.audio_snippets = new_snippets;
            let undo = EditorSnapshot { time: start, ..prev };
            record(history, undo, data, "add audio".to_owned());
            nothing
        },
        EditorCommand::ChooseColor(color) => {
            data.palette.select(&color);
            nothing
        },
        EditorCommand::Export => {
            if data.status.in_progress.encoding.is_some() {
                // Already encoding: no second one.
                nothing
            } else {
                EditorResponse { effect: EditorEffect::StartExport, ..nothing }
            }
        },
        EditorCommand::SetMark(t) => {
            let prev = data.undo_state();
            let time = match t {
                Some(t) => t,
                None => data.time,
            };
            data.mark = Some(time);
            record(history, prev, data, "set mark".to_owned());
            nothing
        },
        EditorCommand::ClearMark => {
            if data.mark.is_some() {
                let prev = data.undo_state();
                data.mark = None;
                record(history, prev, data, "clear mark".to_owned());
            }
            nothing
        },
        EditorCommand::TruncateSnippet => {
            if let Some(EditorSnippetId::Draw(id)) = data.selected_snippet {
                let prev = data.undo_state();
                data.snippets = data.snippets.with_truncated_snippet(id, data.time.0);
                record(history, prev, data, "truncate drawing".to_owned());
            }
            nothing
        },
        EditorCommand::LerpSnippet => {
            if let (Some(mark_time), Some(EditorSnippetId::Draw(id))) = (
                data.mark,
                data.selected_snippet,
            ) {
                let prev = data.undo_state();
                let ghost old_snips = data.snippets@;
                data.snippets = data.snippets.with_new_lerp(id, data.time.0, mark_time.0);
                proof {
                    let new_snip = data.snippets@.snippet(id.0);
                    let old_snip = old_snips.snippet(id.0);
                    assert(new_snip == SnippetDataView {
                        lerp_originals: warped_originals(
                            old_snip.lerp_originals,
                            old_snip.lerp_lerped,
                            prev@.time.0,
                        ),
                        lerp_lerped: warped_lerped(
                            old_snip.lerp_originals,
                            old_snip.lerp_lerped,
                            prev@.time.0,
                            mark_time.0,
                        ),
                        ..old_snip
                    });
                }
                data.time = mark_time;
                record(history, prev, data, "warp drawing".to_owned());
            }
            nothing
        },
        EditorCommand::ShiftSnippet(EditorSnippetId::Draw(id), shift) => {
            let prev = data.undo_state();
            data.snippets = data.snippets.with_shifted_snippet(id, shift.0);
            record(history, prev, data, "time-shift drawing".to_owned());
            nothing
        },
        EditorCommand::ShiftSnippet(EditorSnippetId::Talk(id), shift) => {
            let prev = data.undo_state();
            data.audio_snippets = data.audio_snippets.with_shifted_snippet(id, shift);
            record(history, prev, data, "time-shift speech".to_owned());
            nothing
        },
        EditorCommand::SilenceAudio => {
            if let (Some(mark_time), Some(EditorSnippetId::Talk(id))) = (
                data.mark,
                data.selected_snippet,
            ) {
                let prev = data.undo_state();
                data.audio_snippets =
                    data.audio_snippets.with_silenced_snippet(id, mark_time, data.time);
                record(history, prev, data, "silence speech".to_owned());
            }
            nothing
        },
        EditorCommand::SnipAudio => {
            if let (Some(mark_time), Some(EditorSnippetId::Talk(id))) = (
                data.mark,
                data.selected_snippet,
            ) {
                let prev = data.undo_state();
                data.audio_snippets =
                    data.audio_snippets.with_snipped_snippet(id, mark_time, data.time);
                if !data.audio_snippets.has_snippet(id) {
                    data.selected_snippet = None;
                }
                record(history, prev, data, "snip speech".to_owned());
            }
            nothing
        },
        EditorCommand::MultiplyVolume { multiplier_bits, increase } => {
            if let Some(EditorSnippetId::Talk(id)) = data.selected_snippet {
                let prev = data.undo_state();
                let desc = if increase {
                    "increase volume".to_owned()
                } else {
                    "decrease volume".to_owned()
                };
                data.audio_snippets =
                    data.audio_snippets.with_snippet_multiplier_bits(id, multiplier_bits);
                record(history, prev, data, desc);
            }
            nothing
        },
        EditorCommand::Undo => {
            proof {
                let h = *history;
                if h.undone() < h.entries().len() {
                    assert(h.entries()[h.undone()].undo_state@.wf());
                }
            }
            if let Some(state) = history.undo() {
                data.restore_undo_state(state);
            }
            EditorResponse { effect: EditorEffect::Repaint, ..nothing }
        },
        EditorCommand::Redo => {
            proof {
                let h = *history;
                if h.undone() > 0 {
                    assert(h.entries()[h.undone() - 1].redo_state@.wf());
                }
            }
            if let Some(state) = history.redo() {
                data.restore_undo_state(state);
            }
            EditorResponse { effect: EditorEffect::Repaint, ..nothing }
        },
        EditorCommand::Play => {
            let stopped = stop_current_action(data);
            data.action = EditorAction::Playing;
            EditorResponse { handled: true, stopped, effect: EditorEffect::StartPlaying }
        },
        EditorCommand::Draw => {
            let stopped = stop_current_action(data);
            let prev = data.undo_state();
            data.action = EditorAction::Recording { paused: true };
            let redo = data.undo_state();
            history.push_transient(prev, redo, "start drawing".to_owned());
            proof {
                lemma_recorded_history_wf(
                    *old(history),
                    *history,
                    SnapshotView { action: EditorAction::Idle, ..old(data).snapshot() },
                    data.snapshot(),
                    "start drawing"@,
                    true,
                );
            }
            EditorResponse { handled: true, stopped, effect: EditorEffect::Nothing }
        },
        EditorCommand::Talk => {
            let stopped = stop_current_action(data);
            data.action = EditorAction::RecordingAudio(data.time);
            EditorResponse { handled: true, stopped, effect: EditorEffect::StartTalking }
        },
        EditorCommand::Stop => {
            let stopped = stop_current_action(data);
            EditorResponse { handled: true, stopped, effect: EditorEffect::Nothing }
        },
        EditorCommand::WarpTimeTo(t) => {
            if data.action == EditorAction::Idle {
                data.time = t;
            }
            nothing
        },
        EditorCommand::SaveFile { path } => {
            let chosen = match path {
                Some(p) => Some(p),
                None => match &data.save_path {
                    Some(p) => Some(p.clone()),
                    None => None,
                },
            };
            match chosen {
                Some(p) => {
                    data.status.in_progress.saving = Some(p.clone());
                    EditorResponse { effect: EditorEffect::SpawnSave(p), ..nothing }
                },
                None => EditorResponse { handled: false, ..nothing },
            }
        },
        EditorCommand::OpenFile(p) => {
            if data.status.in_progress.loading.is_some() {
                nothing
            } else {
                let p2 = p.clone();
                data.status.in_progress.loading = Some(p);
                let stopped = if data.action == EditorAction::Scanning {
                    Stopped::Scanning
                } else {
                    stop_current_action(data)
                };
                data.action = EditorAction::Loading;
                EditorResponse { handled: true, stopped, effect: EditorEffect::SpawnLoad(p2) }
            }
        },
        EditorCommand::CloseWindow { changed_since_last_save } => {
            if data.action == EditorAction::WaitingToExit {
                // Not handling the command lets the window close.
                EditorResponse { handled: false, ..nothing }
            } else if changed_since_last_save {
                EditorResponse { effect: EditorEffect::ShowUnsavedAlert, ..nothing }
            } else {
                data.action = EditorAction::WaitingToExit;
                EditorResponse { effect: EditorEffect::ShowWaitingAlert, ..nothing }
            }
        },
        EditorCommand::FinishedLoad { path, result } => {
            match result {
                Ok((snippets, audio)) => {
                    *data = EditorDocument::from_snippets(snippets, audio);
                    data.save_path = Some(path);
                    *history = UndoStack::new();
                },
                Err(e) => {
                    data.status.update_load_status(path, Some(e));
                },
            }
            nothing
        },
        EditorCommand::FinishedSave { path, error, autosave } => {
            let record_path = !autosave && error.is_none();
            let p2 = path.clone();
            data.status.update_save_status(path, error);
            if record_path {
                data.save_path = Some(p2);
            }
            nothing
        },
        EditorCommand::Encoding(s) => {
            data.status.update_encoding_status(&s);
            nothing
        },
        EditorCommand::Other => EditorResponse { handled: false, ..nothing },
    }
}

/// Stops playing, drawing or recording speech, and says which.
fn stop_current_action<C>(data: &mut EditorDocument<C>) -> (r: Stopped)
    ensures
        final(data).snapshot() == (SnapshotView {
            action: stopped_action(old(data).action),
            ..old(data).snapshot()
        }),
        final(data).palette == old(data).palette,
        final(data).status == old(data).status,
        final(data).save_path == old(data).save_path,
        r == stop_report(old(data).action),
{
    match data.action {
        EditorAction::Playing => {
            data.action = EditorAction::Idle;
            Stopped::Playing
        },
        EditorAction::Recording { .. } => {
            data.action = EditorAction::Idle;
            Stopped::Drawing
        },
        EditorAction::RecordingAudio(_) => {
            data.action = EditorAction::Idle;
            Stopped::Talking
        },
        _ => Stopped::Nothing,
    }
}

/// Records an edit: `undo` is the state to bring back when it is undone, the
/// current state the one to bring back when it is redone.
fn record<C>(
    history: &mut UndoStack<EditorSnapshot<C>>,
    undo: EditorSnapshot<C>,
    data: &EditorDocument<C>,
    description: String,
)
    requires
        history_wf(*old(history)),
        undo@.wf(),
        data.wf(),
    ensures
        history_wf(*final(history)),
        recorded(*old(history), *final(history), undo@, data.snapshot(), description@, false),
{
    let ghost u = undo@;
    let redo = data.undo_state();
    history.push(undo, redo, description);
    proof {
        lemma_recorded_history_wf(*old(history), *history, u, data.snapshot(), description@, false);
    }
}

} // verus!
