//! Verified core of the scribl animation editor: time warping of drawn
//! snippets, recorded speech and its playback, undo history, the registry of
//! open editors, and the small decision functions that drive the editor's
//! buttons and status display.

pub mod time;
pub mod lerp;
pub mod drawing;
pub mod timeline;
pub mod talk;
pub mod playback;
pub mod voice;
pub mod undo;
pub mod snapshot_undo;
pub mod document;
pub mod editor;
pub mod app_state;
pub mod delegate;
pub mod lens;
pub mod settings;
pub mod palette;
pub mod status;
pub mod toggle;
pub mod keys;
pub mod menus;
pub mod config;
pub mod save_format;
