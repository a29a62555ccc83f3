//! The document of the single-window editor, and how its main window
//! carries out the editing commands: each change is recorded in the undo
//! history, which undo and redo move through.

use std::sync::Arc;
use vstd::prelude::*;

use crate::drawing::{SnippetData, SnippetDataView, SnippetId, SnippetsData, SnippetsDataView};
use crate::keys::{root_key_down_spec, Key, ScanState};
use crate::lerp::{clamped_map, law_warped_knots_move_image, map_through, warped_lerped, warped_originals};
use crate::palette::{Color, PaletteData};
use crate::snapshot_undo::{UndoStack, MAX_UNDO_STACK};
use crate::talk::{TalkSnippet, TalkSnippets, TalkSnippetsView};

verus! {

/// Everything that is drawn and recorded, and where the editor is in time.
pub struct ScribbleState<C> {
    /// The curve being drawn, if any.
    pub new_snippet: Option<Arc<C>>,
    pub snippets: SnippetsData<C>,
    pub audio_snippets: TalkSnippets,
    pub selected_snippet: Option<SnippetId>,
    /// The current time, in microseconds.
    pub time_us: i64,
    /// The timeline mark, if one is set.
    pub mark: Option<i64>,
}

/// The contents of a [`ScribbleState`].
pub struct ScribbleStateView<C> {
    pub new_snippet: Option<C>,
    pub snippets: SnippetsDataView<C>,
    pub audio_snippets: TalkSnippetsView,
    pub selected_snippet: Option<SnippetId>,
    pub time_us: i64,
    pub mark: Option<i64>,
}

impl<C> View for ScribbleState<C> {
    type V = ScribbleStateView<C>;

    open spec fn view(&self) -> ScribbleStateView<C> {
        ScribbleStateView {
            new_snippet: match self.new_snippet {
                Some(c) => Some(*c),
                None => None,
            },
            snippets: self.snippets@,
            audio_snippets: self.audio_snippets@,
            selected_snippet: self.selected_snippet,
            time_us: self.time_us,
            mark: self.mark,
        }
    }
}

impl<C> ScribbleState<C> {
    /// Both collections of snippets are well formed.
    pub open spec fn wf(&self) -> bool {
        self.snippets@.wf() && self.audio_snippets@.wf()
    }

    /// An empty document at time zero.
    pub fn new() -> (r: ScribbleState<C>)
        ensures
            r.wf(),
            r@.new_snippet is None,
            r@.snippets.last_id == 0,
            r@.snippets.snippets.len() == 0,
            r@.audio_snippets.last_id == 0,
            r@.audio_snippets.snippets.len() == 0,
            r@.selected_snippet is None,
            r@.time_us == 0,
            r@.mark is None,
    {
        ScribbleState {
            new_snippet: None,
            snippets: SnippetsData::new(),
            audio_snippets: TalkSnippets::new(),
            selected_snippet: None,
            time_us: 0,
            mark: None,
        }
    }

    /// A document holding the given snippets, at time zero.
    pub fn from_save_file(snippets: SnippetsData<C>, audio_snippets: TalkSnippets) -> (r:
        ScribbleState<C>)
        ensures
            r@.new_snippet is None,
            r@.snippets == snippets@,
            r@.audio_snippets == audio_snippets@,
            r@.selected_snippet is None,
            r@.time_us == 0,
            r@.mark is None,
    {
        ScribbleState {
            new_snippet: None,
            snippets,
            audio_snippets,
            selected_snippet: None,
            time_us: 0,
            mark: None,
        }
    }

    /// The snippets to save.
    pub fn to_save_file(&self) -> (r: (SnippetsData<C>, TalkSnippets))
        ensures
            r.0@ == self@.snippets,
            r.1@ == self@.audio_snippets,
    {
        (self.snippets.clone(), self.audio_snippets.clone())
    }
}

impl<C> Default for ScribbleState<C> {
    fn default() -> (r: ScribbleState<C>)
        ensures
            r.wf(),
            r@.new_snippet is None,
            r@.snippets.last_id == 0,
            r@.snippets.snippets.len() == 0,
            r@.audio_snippets.last_id == 0,
            r@.audio_snippets.snippets.len() == 0,
            r@.selected_snippet is None,
            r@.time_us == 0,
            r@.mark is None,
    {
        ScribbleState::new()
    }
}

impl<C> Clone for ScribbleState<C> {
    fn clone(&self) -> (r: ScribbleState<C>)
        ensures
            r@ == self@,
    {
        let new_snippet = match &self.new_snippet {
            Some(c) => Some(Arc::clone(c)),
            None => None,
        };
        ScribbleState {
            new_snippet,
            snippets: self.snippets.clone(),
            audio_snippets: self.audio_snippets.clone(),
            selected_snippet: self.selected_snippet,
            time_us: self.time_us,
            mark: self.mark,
        }
    }
}

/// A command to the main window of the single-window editor.
pub enum Command<C> {
    /// Add a finished drawing, and select it.
    AddSnippet(SnippetData<C>),
    /// Add a finished speech recording.
    AddAudioSnippet(TalkSnippet),
    /// Draw with this color.
    ChooseColor(Color),
    /// Export the animation to a video.
    Export,
    /// Put the mark at this time.
    SetMark(i64),
    /// Make this snippet disappear at this time.
    TruncateSnippet { id: SnippetId, time: i64 },
    /// Warp this snippet so that what it shows at `from_time` is shown at
    /// `to_time`, and go to `to_time`.
    LerpSnippet { id: SnippetId, from_time: i64, to_time: i64 },
    Undo,
    Redo,
    /// A command for someone else.
    Other,
}

/// What the caller has to do after a command was handled.
#[derive(Clone, Copy, Debug, PartialEq, Eq, Structural)]
pub enum Effect {
    Nothing,
    /// Start encoding the document to a video, in the background.
    StartExport,
    /// Redraw the window.
    Repaint,
}

/// The command can be carried out on `data`: a snippet can be added under a new
/// id, and a snippet to change exists and can be warped.
pub open spec fn command_ok<C>(cmd: Command<C>, data: ScribbleStateView<C>) -> bool {
    match cmd {
        Command::AddSnippet(_) => data.snippets.last_id < u64::MAX,
        Command::AddAudioSnippet(_) => data.audio_snippets.last_id < u64::MAX,
        Command::TruncateSnippet { id, .. } => data.snippets.contains(id.0),
        Command::LerpSnippet { id, .. } => data.snippets.contains(id.0) && data.snippets.snippet(
            id.0,
        ).wf(),
        _ => true,
    }
}

/// `after` is the history `before` with `state` recorded as the current
/// snapshot: undone snapshots are dropped, and the oldest one if there are too many.
pub open spec fn recorded<C>(
    before: UndoStack<ScribbleState<C>>,
    after: UndoStack<ScribbleState<C>>,
    state: ScribbleStateView<C>,
) -> bool {
    let kept = before.states().skip(before.position());
    &&& after.wf()
    &&& after.position() == 0
    &&& after.states().len() == if kept.len() + 1 > MAX_UNDO_STACK {
        MAX_UNDO_STACK as int
    } else {
        (kept.len() + 1) as int
    }
    &&& after.states()[0]@ == state
    &&& forall|i: int| 1 <= i < after.states().len() ==> after.states()[i] == kept[i - 1]
}

/// The document after a command that changes it (and is recorded for undo).
pub open spec fn edited<C>(cmd: Command<C>, data: ScribbleStateView<C>) -> ScribbleStateView<C> {
    match cmd {
        Command::AddSnippet(snip) => {
            let id = (data.snippets.last_id + 1) as u64;
            ScribbleStateView {
                snippets: SnippetsDataView {
                    last_id: id,
                    snippets: data.snippets.snippets.push((id, snip@)),
                },
                selected_snippet: Some(SnippetId(id)),
                ..data
            }
        },
        Command::AddAudioSnippet(snip) => {
            let id = (data.audio_snippets.last_id + 1) as u64;
            ScribbleStateView {
                audio_snippets: TalkSnippetsView {
                    last_id: id,
                    snippets: data.audio_snippets.snippets.push((id, snip@)),
                },
                ..data
            }
        },
        Command::SetMark(time) => ScribbleStateView { mark: Some(time), ..data },
        Command::TruncateSnippet { id, time } => ScribbleStateView {
            snippets: SnippetsDataView {
                snippets: data.snippets.snippets.update(
                    data.snippets.position_of(id.0),
                    (id.0, data.snippets.snippet(id.0).truncated(time)),
                ),
                ..data.snippets
            },
            ..data
        },
        Command::LerpSnippet { id, from_time, to_time } => {
            let old_snip = data.snippets.snippet(id.0);
            let new_snip = SnippetDataView {
                lerp_originals: warped_originals(
                    old_snip.lerp_originals,
                    old_snip.lerp_lerped,
                    from_time,
                ),
                lerp_lerped: warped_lerped(
                    old_snip.lerp_originals,
                    old_snip.lerp_lerped,
                    from_time,
                    to_time,
                ),
                ..old_snip
            };
            ScribbleStateView {
                snippets: SnippetsDataView {
                    snippets: data.snippets.snippets.update(
                        data.snippets.position_of(id.0),
                        (id.0, new_snip),
                    ),
                    ..data.snippets
                },
                time_us: to_time,
                ..data
            }
        },
        _ => data,
    }
}

/// The command handling of the main window of the single-window editor:
/// the undo history of the document, and whether a video is being encoded.
pub struct Root<C> {
    undo: UndoStack<ScribbleState<C>>,
    encoding: bool,
}

impl<C> Root<C> {
    /// The undo history.
    pub closed spec fn history(&self) -> UndoStack<ScribbleState<C>> {
        self.undo
    }

    /// Whether a video is being encoded.
    pub closed spec fn is_encoding(&self) -> bool {
        self.encoding
    }

    /// The history is well formed, and so is every snapshot in it.
    pub open spec fn wf(&self) -> bool {
        &&& self.history().wf()
        &&& forall|i: int|
            0 <= i < self.history().states().len() ==> (#[trigger] self.history().states()[i]).wf()
    }

    /// The main window for the document `initial`, with nothing to undo.
    pub fn new(initial: &ScribbleState<C>) -> (r: Root<C>)
        requires
            initial.wf(),
        ensures
            r.wf(),
            r.history().states().len() == 1,
            r.history().states()[0]@ == initial@,
            r.history().position() == 0,
            !r.is_encoding(),
    {
        Root { undo: UndoStack::new(initial.clone()), encoding: false }
    }

    /// Whether a video is being encoded.
    pub fn encoding(&self) -> (r: bool)
        ensures
            r == self.is_encoding(),
    {
        self.encoding
    }

    /// The encoding that was started has ended.
    pub fn finish_encoding(&mut self)
        ensures
            !final(self).is_encoding(),
            final(self).history() == old(self).history(),
    {
        self.encoding = false;
    }

    /// Carries out a command on the document `data` and the palette. Commands
    /// that change the document are recorded in the undo history; undo and redo
    /// bring back the snapshot before or after. Returns whether the command was
    /// for this window, and what remains to be done.
    pub fn handle_command(
        &mut self,
        cmd: Command<C>,
        data: &mut ScribbleState<C>,
        palette: &mut PaletteData,
    ) -> (r: (bool, Effect))
        requires
            old(self).wf(),
            old(data).wf(),
            command_ok(cmd, old(data)@),
        ensures
            final(self).wf(),
            final(data).wf(),
            r.0 == !(cmd is Other),
            final(palette).entries() == old(palette).entries(),
            cmd is ChooseColor ==> final(palette).selected() == cmd->ChooseColor_0,
            !(cmd is ChooseColor) ==> final(palette).selected() == old(palette).selected(),
            match cmd {
                Command::AddSnippet(_) | Command::AddAudioSnippet(_) | Command::SetMark(_)
                | Command::TruncateSnippet { .. } => {
                    &&& final(data)@ == edited(cmd, old(data)@)
                    &&& recorded(old(self).history(), final(self).history(), final(data)@)
                    &&& final(self).is_encoding() == old(self).is_encoding()
                    &&& r.1 == Effect::Nothing
                },
                Command::LerpSnippet { id, from_time, to_time } => {
                    let old_snip = old(data)@.snippets.snippet(id.0);
                    let new_snip = final(data)@.snippets.snippet(id.0);
                    &&& final(data)@ == ScribbleStateView {
                        snippets: SnippetsDataView {
                            snippets: old(data)@.snippets.snippets.update(
                                old(data)@.snippets.position_of(id.0),
                                (id.0, new_snip),
                            ),
                            ..old(data)@.snippets
                        },
                        time_us: to_time,
                        ..old(data)@
                    }
                    &&& new_snip.curve == old_snip.curve
                    &&& new_snip.times == old_snip.times
                    &&& new_snip.end == old_snip.end
                    &&& new_snip.lerp_originals == crate::lerp::warped_originals(
                        old_snip.lerp_originals,
                        old_snip.lerp_lerped,
                        from_time,
                    )
                    &&& new_snip.lerp_lerped == crate::lerp::warped_lerped(
                        old_snip.lerp_originals,
                        old_snip.lerp_lerped,
                        from_time,
                        to_time,
                    )
                    &&& final(data)@ == edited(cmd, old(data)@)
                    &&& recorded(old(self).history(), final(self).history(), final(data)@)
                    &&& final(self).is_encoding() == old(self).is_encoding()
                    &&& r.1 == Effect::Nothing
                },
                Command::Export => {
                    &&& final(data)@ == old(data)@
                    &&& final(self).history() == old(self).history()
                    &&& final(self).is_encoding()
                    &&& r.1 == if old(self).is_encoding() {
                        Effect::Nothing
                    } else {
                        Effect::StartExport
                    }
                },
                Command::Undo => {
                    let h = old(self).history();
                    &&& final(self).history().states() == h.states()
                    &&& final(self).is_encoding() == old(self).is_encoding()
                    &&& if h.position() + 1 < h.states().len() {
                        &&& final(self).history().position() == h.position() + 1
                        &&& final(data)@ == h.states()[h.position() + 1]@
                        &&& r.1 == Effect::Repaint
                    } else {
                        &&& final(self).history().position() == h.position()
                        &&& final(data)@ == old(data)@
                        &&& r.1 == Effect::Nothing
                    }
                },
                Command::Redo => {
                    let h = old(self).history();
                    &&& final(self).history().states() == h.states()
                    &&& final(self).is_encoding() == old(self).is_encoding()
                    &&& if h.position() > 0 {
                        &&& final(self).history().position() == h.position() - 1
                        &&& final(data)@ == h.states()[h.position() - 1]@
                        &&& r.1 == Effect::Repaint
                    } else {
                        &&& final(self).history().position() == 0
                        &&& final(data)@ == old(data)@
                        &&& r.1 == Effect::Nothing
                    }
                },
                _ => {
                    &&& final(data)@ == old(data)@
                    &&& final(self).history() == old(self).history()
                    &&& final(self).is_encoding() == old(self).is_encoding()
                    &&& r.1 == Effect::Nothing
                },
            },
    {
        match cmd {
            Command::AddSnippet(snip) => {
                let new_snippets = data.snippets.with_new_snippet(snip);
                let new_id = new_snippets.last_id();
                data.snippets = new_snippets;
                data.selected_snippet = Some(new_id);
                self.undo.push(data);
                (true, Effect::Nothing)
            },
            Command::AddAudioSnippet(snip) => {
                let (new_snippets, _id) = data.audio_snippets.with_new_snippet(snip);
                data.audio_snippets = new_snippets;
                self.undo.push(data);
                (true, Effect::Nothing)
            },
            Command::ChooseColor(color) => {
                palette.select(&color);
                (true, Effect::Nothing)
            },
            Command::Export => {
                if self.encoding {
                    // Already encoding: no second one.
                    (true, Effect::Nothing)
                } else {
                    self.encoding = true;
                    (true, Effect::StartExport)
                }
            },
            Command::SetMark(time) => {
                data.mark = Some(time);
                self.undo.push(data);
                (true, Effect::Nothing)
            },
            Command::TruncateSnippet { id, time } => {
                data.snippets = data.snippets.with_truncated_snippet(id, time);
                self.undo.push(data);
                (true, Effect::Nothing)
            },
            Command::LerpSnippet { id, from_time, to_time } => {
                data.snippets = data.snippets.with_new_lerp(id, from_time, to_time);
                data.time_us = to_time;
                self.undo.push(data);
                (true, Effect::Nothing)
            },
            Command::Undo => {
                match self.undo.undo() {
                    Some(state) => {
                        *data = state;
                        (true, Effect::Repaint)
                    },
                    None => (true, Effect::Nothing),
                }
            },
            Command::Redo => {
                match self.undo.redo() {
                    Some(state) => {
                        *data = state;
                        (true, Effect::Repaint)
                    },
                    None => (true, Effect::Nothing),
                }
            },
            Command::Other => (false, Effect::Nothing),
        }
    }
}

/// Undo right after a recorded edit brings back the snapshot that was current
/// before the edit, and redo then brings back the edited document.
pub proof fn law_undo_reverts_edit<C>(
    before: UndoStack<ScribbleState<C>>,
    after: UndoStack<ScribbleState<C>>,
    edited_state: ScribbleStateView<C>,
)
    requires
        before.wf(),
        recorded(before, after, edited_state),
    ensures
        after.position() + 1 < after.states().len(),
        after.states()[after.position() + 1]@ == before.states()[before.position()]@,
        after.states()[after.position()]@ == edited_state,
{
    let kept = before.states().skip(before.position());
    assert(kept.len() >= 1);
    assert(after.states()[1] == kept[0]);
}

/// Warping a drawing makes it show at `to_time` what it showed at `from_time`,
/// and moves the current time to `to_time`.
pub proof fn law_warp_command_moves_image<C>(data: ScribbleStateView<C>, id: SnippetId, from_time: i64, to_time: i64)
    requires
        data.snippets.wf(),
        data.snippets.contains(id.0),
        data.snippets.snippet(id.0).wf(),
    ensures
        ({
            let e = edited(Command::<C>::LerpSnippet { id, from_time, to_time }, data);
            let old_snip = data.snippets.snippet(id.0);
            let new_snip = e.snippets.snippet(id.0);
            let shown = clamped_map(old_snip.lerp_lerped, old_snip.lerp_originals, from_time as int);
            &&& e.time_us == to_time
            &&& new_snip.lerp_originals[0] <= shown <= new_snip.lerp_originals.last()
            &&& map_through(new_snip.lerp_originals, new_snip.lerp_lerped, shown) == to_time
        }),
{
    let e = edited(Command::<C>::LerpSnippet { id, from_time, to_time }, data);
    let old_snip = data.snippets.snippet(id.0);
    let p = data.snippets.position_of(id.0);
    assert(0 <= p < data.snippets.snippets.len() && data.snippets.snippets[p].0 == id.0);
    let q = e.snippets.position_of(id.0);
    assert(e.snippets.snippets[p].0 == id.0);
    assert(0 <= q < e.snippets.snippets.len() && e.snippets.snippets[q].0 == id.0);
    assert(q == p) by {
        if q < p {
            assert(data.snippets.snippets[q].0 < data.snippets.snippets[p].0);
        } else if p < q {
            assert(data.snippets.snippets[p].0 < data.snippets.snippets[q].0);
        }
    }
    law_warped_knots_move_image(old_snip.lerp_originals, old_snip.lerp_lerped, from_time, to_time);
}

/// Pressing `w` with a drawing selected and the mark set asks for the warp that
/// makes the drawing show at the mark what it shows at the current time, and
/// moves the current time to the mark.
pub proof fn law_w_key_warps_current_image_to_mark<C>(
    state: ScanState,
    shift: bool,
    data: ScribbleStateView<C>,
    mark: i64,
    id: SnippetId,
)
    requires
        data.snippets.wf(),
        data.snippets.contains(id.0),
        data.snippets.snippet(id.0).wf(),
    ensures
        ({
            let r = root_key_down_spec(
                state,
                Key::Character('w'),
                shift,
                data.time_us,
                Some(mark),
                Some(id),
            );
            &&& r.command is Lerp
            &&& r.command->Lerp_id == id
            &&& ({
                let e = edited(
                    Command::<C>::LerpSnippet {
                        id,
                        from_time: r.command->Lerp_from_time,
                        to_time: r.command->Lerp_to_time,
                    },
                    data,
                );
                let old_snip = data.snippets.snippet(id.0);
                let new_snip = e.snippets.snippet(id.0);
                let shown = clamped_map(old_snip.lerp_lerped, old_snip.lerp_originals, data.time_us as int);
                &&& e.time_us == mark
                &&& new_snip.lerp_originals[0] <= shown <= new_snip.lerp_originals.last()
                &&& map_through(new_snip.lerp_originals, new_snip.lerp_lerped, shown) == mark
            })
        }),
{
    let r = root_key_down_spec(state, Key::Character('w'), shift, data.time_us, Some(mark), Some(id));
    law_warp_command_moves_image(data, id, r.command->Lerp_from_time, r.command->Lerp_to_time);
}

} // verus!
