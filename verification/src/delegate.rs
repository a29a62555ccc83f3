//! The application's answer to commands that no window handles itself, and to
//! windows being closed.

use crate::app_state::AppState;
use vstd::prelude::*;

verus! {

/// A command that reaches the application, after no window took it.
pub enum AppCommand<E> {
    /// Open a new, empty editor. The new editor's state and the number of the
    /// window that will show it are made ready before the command is handled.
    NewFile { editor: E, window: u64 },
    /// Any other command.
    Other,
}

/// Whether a command was dealt with.
#[derive(Clone, Copy, Debug, PartialEq, Eq, Structural)]
pub enum Handled {
    Yes,
    No,
}

/// The application delegate: opens editors on request and closes them with
/// their windows.
#[derive(Debug, Default)]
pub struct Delegate {}

impl Delegate {
    /// Handles a command: a new file opens an editor in a new window; every
    /// other command is left alone.
    pub fn command<E>(&mut self, cmd: AppCommand<E>, data: &mut AppState<E>) -> (r: Handled)
        requires
            old(data).wf(),
            cmd is NewFile ==> old(data).next_id() < u32::MAX,
        ensures
            final(data).wf(),
            match cmd {
                AppCommand::NewFile { editor, window } => {
                    &&& r == Handled::Yes
                    &&& final(data).next_id() == old(data).next_id() + 1
                    &&& final(data).editors() == old(data).editors().insert(
                        old(data).next_id() as u32,
                        editor,
                    )
                    &&& final(data).windows() == old(data).windows().insert(
                        window,
                        old(data).next_id() as u32,
                    )
                },
                AppCommand::Other => {
                    &&& r == Handled::No
                    &&& final(data).next_id() == old(data).next_id()
                    &&& final(data).editors() == old(data).editors()
                    &&& final(data).windows() == old(data).windows()
                },
            },
    {
        match cmd {
            AppCommand::NewFile { editor, window } => {
                data.add_editor(editor, window);
                Handled::Yes
            },
            AppCommand::Other => Handled::No,
        }
    }

    /// A window was closed: its editor goes with it. Returns whether the window
    /// was known.
    pub fn window_removed<E>(&mut self, window: u64, data: &mut AppState<E>) -> (found: bool)
        requires
            old(data).wf(),
        ensures
            final(data).wf(),
            found == old(data).windows().contains_key(window),
            found ==> final(data).editors() == old(data).editors().remove(
                old(data).windows()[window],
            ),
            !found ==> final(data).editors() == old(data).editors(),
            final(data).windows() == old(data).windows().remove(window),
            final(data).next_id() == old(data).next_id(),
    {
        data.remove_editor(window)
    }
}

} // verus!
