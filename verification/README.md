# scribl

The verified core of scribl, an editor for animated drawings with recorded
speech. The library is written in Verus: its functions carry contracts that
Verus proves. Its one call into `std::time` (`Instant::now`) and the
specification of `Instant::clone` are trusted.

Layout:

- `src/lerp.rs`: piecewise-linear time warps of drawn snippets.
- `src/drawing.rs`, `src/timeline.rs`: drawn snippets and what the timeline shows of them.
- `src/talk.rs`, `src/time.rs`: recorded speech snippets and time conversions.
- `src/playback.rs`: which samples of which speech snippet are played where.
- `src/voice.rs`: smoothing of voice detection in time.
- `src/undo.rs`, `src/snapshot_undo.rs`: undo histories.
- `src/editor.rs`, `src/menus.rs`: the editor window's state, its command
  handling and its Edit menu.
- `src/save_format.rs`: the format version of save files.
- `src/document.rs`, `src/keys.rs`: the editing commands of the single-window
  editor, and what the keys ask for.
- `src/app_state.rs`, `src/delegate.rs`: the registry of open editors and windows.
- `src/status.rs`, `src/toggle.rs`, `src/settings.rs`, `src/palette.rs`,
  `src/config.rs`, `src/lens.rs`: small decisions and data of the user interface.
- `tests/`: tests of the library.
- `app/`: the command-line program around the library (configuration, files,
  audio post-processing and floating-point computations).
