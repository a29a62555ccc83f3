//! The status of the editor's asynchronous operations (saving, loading,
//! encoding), and what the status bar shows about them.

use std::time::Instant;
use vstd::prelude::*;

verus! {

/// Lets [`Instant`] appear in the library's types.
#[verifier::external_type_specification]
#[verifier::external_body]
pub struct ExInstant(Instant);

/// `Instant` is `Copy`, so its `clone` (from `std::time`) returns the same instant.
pub assume_specification[ <Instant as Clone>::clone ](instant: &Instant) -> (r: Instant)
    ensures
        r == *instant,
;

/// The current wall-clock instant, from `std::time::Instant::now`. Nothing is
/// claimed about the value.
#[verifier::external_body]
fn now() -> Instant {
    Instant::now()
}

/// Progress reports from the video encoder.
#[derive(Clone, Debug, PartialEq)]
pub enum EncodingStatus {
    /// Still encoding: `frame` frames are done, out of `out_of`.
    Encoding { frame: u64, out_of: u64 },
    /// Finished encoding successfully, to the given path.
    Finished(String),
    /// Encoding aborted with an error.
    Error(String),
}

/// The operations that are in progress.
#[derive(Clone, Debug, Default)]
pub struct InProgressStatus {
    /// The encoding progress, as frames done and total frames.
    pub encoding: Option<(u64, u64)>,
    /// The path that is being saved to.
    pub saving: Option<String>,
    /// The path that is being loaded from.
    pub loading: Option<String>,
}

/// The outcome of the most recently finished operation.
#[derive(Clone, Debug)]
pub enum FinishedStatus {
    Saved { path: String, time: Instant },
    Loaded { path: String, time: Instant },
    Encoded { path: String, time: Instant },
    Error(String),
}

/// The status of all asynchronous operations.
#[derive(Clone, Debug, Default)]
pub struct AsyncOpsStatus {
    pub in_progress: InProgressStatus,
    pub last_finished: Option<FinishedStatus>,
}

/// What the status bar shows.
#[derive(Clone, Debug, PartialEq)]
pub enum StatusKind {
    /// A progress bar for encoding: `frame` frames done out of `out_of`.
    Encoding { frame: u64, out_of: u64 },
    /// Saving to the given path.
    Saving(String),
    /// Loading from the given path.
    Loading(String),
    /// Saved to the given path.
    Saved(String),
    /// Loaded from the given path.
    Loaded(String),
    /// Encoded to the given path.
    Encoded(String),
    /// The last operation failed with this message.
    Error(String),
    /// Nothing to show.
    Empty,
}

impl AsyncOpsStatus {
    /// Records a progress report from the encoder.
    pub fn update_encoding_status(&mut self, enc_status: &EncodingStatus)
        ensures
            final(self).in_progress.saving == old(self).in_progress.saving,
            final(self).in_progress.loading == old(self).in_progress.loading,
            match enc_status {
                EncodingStatus::Encoding { frame, out_of } => {
                    &&& final(self).in_progress.encoding == Some((*frame, *out_of))
                    &&& final(self).last_finished == old(self).last_finished
                },
                EncodingStatus::Finished(path) => {
                    &&& final(self).in_progress.encoding is None
                    &&& final(self).last_finished matches Some(FinishedStatus::Encoded { path: p, .. })
                        && p@ == path@
                },
                EncodingStatus::Error(s) => {
                    &&& final(self).in_progress.encoding is None
                    &&& final(self).last_finished matches Some(FinishedStatus::Error(e)) && e@
                        == s@
                },
            },
    {
        match enc_status {
            EncodingStatus::Encoding { frame, out_of } => {
                self.in_progress.encoding = Some((*frame, *out_of));
            },
            EncodingStatus::Finished(path) => {
                self.in_progress.encoding = None;
                self.last_finished = Some(
                    FinishedStatus::Encoded { path: path.clone(), time: now() },
                );
            },
            EncodingStatus::Error(s) => {
                self.in_progress.encoding = None;
                self.last_finished = Some(FinishedStatus::Error(s.clone()));
            },
        }
    }

    /// Records that loading from `path` finished, with an error message if it failed.
    pub fn update_load_status(&mut self, path: String, error: Option<String>)
        ensures
            final(self).in_progress.loading is None,
            final(self).in_progress.saving == old(self).in_progress.saving,
            final(self).in_progress.encoding == old(self).in_progress.encoding,
            match error {
                None => final(self).last_finished matches Some(
                    FinishedStatus::Loaded { path: p, .. },
                ) && p == path,
                Some(e) => final(self).last_finished == Some(FinishedStatus::Error(e)),
            },
    {
        self.in_progress.loading = None;
        self.last_finished = match error {
            None => Some(FinishedStatus::Loaded { path, time: now() }),
            Some(e) => Some(FinishedStatus::Error(e)),
        };
    }

    /// Records that saving to `path` finished, with an error message if it failed.
    pub fn update_save_status(&mut self, path: String, error: Option<String>)
        ensures
            final(self).in_progress.saving is None,
            final(self).in_progress.loading == old(self).in_progress.loading,
            final(self).in_progress.encoding == old(self).in_progress.encoding,
            match error {
                None => final(self).last_finished matches Some(
                    FinishedStatus::Saved { path: p, .. },
                ) && p == path,
                Some(e) => final(self).last_finished == Some(FinishedStatus::Error(e)),
            },
    {
        self.in_progress.saving = None;
        self.last_finished = match error {
            None => Some(FinishedStatus::Saved { path, time: now() }),
            Some(e) => Some(FinishedStatus::Error(e)),
        };
    }

    /// What the status bar shows: operations in progress come first (encoding,
    /// then saving, then loading), then the outcome of the last finished one.
    pub fn status_kind(&self) -> (r: StatusKind)
        ensures
            match self.in_progress.encoding {
                Some((frame, out_of)) => r == StatusKind::Encoding { frame, out_of },
                None => match self.in_progress.saving {
                    Some(p) => r matches StatusKind::Saving(q) && q@ == p@,
                    None => match self.in_progress.loading {
                        Some(p) => r matches StatusKind::Loading(q) && q@ == p@,
                        None => match self.last_finished {
                            Some(FinishedStatus::Saved { path, .. }) => r matches StatusKind::Saved(
                                q,
                            ) && q@ == path@,
                            Some(FinishedStatus::Loaded { path, .. }) => r matches StatusKind::Loaded(
                                q,
                            ) && q@ == path@,
                            Some(FinishedStatus::Encoded { path, .. }) => r matches StatusKind::Encoded(
                                q,
                            ) && q@ == path@,
                            Some(FinishedStatus::Error(s)) => r matches StatusKind::Error(q) && q@
                                == s@,
                            None => r == StatusKind::Empty,
                        },
                    },
                },
            },
    {
        if let Some(x) = self.in_progress.encoding {
            StatusKind::Encoding { frame: x.0, out_of: x.1 }
        } else if let Some(path) = &self.in_progress.saving {
            StatusKind::Saving(path.clone())
        } else if let Some(path) = &self.in_progress.loading {
            StatusKind::Loading(path.clone())
        } else if let Some(finished) = &self.last_finished {
            match finished {
                FinishedStatus::Saved { path, .. } => StatusKind::Saved(path.clone()),
                FinishedStatus::Loaded { path, .. } => StatusKind::Loaded(path.clone()),
                FinishedStatus::Encoded { path, .. } => StatusKind::Encoded(path.clone()),
                FinishedStatus::Error(s) => StatusKind::Error(s.clone()),
            }
        } else {
            StatusKind::Empty
        }
    }
}

} // verus!
