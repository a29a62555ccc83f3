//! What the editor does when a key is pressed or released: scanning through
//! time with the arrow keys, editing commands, and choosing colors and pens.
//!
//! The functions here decide; the caller carries out what they decide (starting
//! and stopping the scan at the speed it uses, sending commands).

use vstd::prelude::*;

use crate::drawing::SnippetId;
use crate::palette::PaletteData;
use crate::settings::PenSize;

verus! {

/// A key, as far as the editor tells keys apart.
#[derive(Clone, Copy, Debug, PartialEq, Eq, Structural)]
pub enum Key {
    ArrowLeft,
    ArrowRight,
    ArrowUp,
    ArrowDown,
    Shift,
    /// A letter or digit key. For [`editor_key_up`] this is the character that the
    /// key types (its first one, if it types more); for [`root_key_down`] it is the
    /// physical key, named by the lower-case character printed on it, whatever the
    /// modifiers (so shift and E together are `Character('e')` with `shift` set).
    Character(char),
    Other,
}

/// The modifier keys held down.
#[derive(Clone, Copy, Debug, PartialEq, Eq, Structural)]
pub struct Mods {
    pub shift: bool,
    pub ctrl: bool,
    pub alt: bool,
}

/// What the editor is doing, as far as the keys are concerned.
#[derive(Clone, Copy, Debug, PartialEq, Eq, Structural)]
pub enum ScanState {
    /// Nothing: scanning may start.
    Idle,
    /// Scanning through time, forwards or backwards.
    Scanning { forward: bool },
    /// Something else (recording, playing, ...).
    Busy,
}

/// Scan through time in this direction, fast or at the normal scanning speed.
#[derive(Clone, Copy, Debug, PartialEq, Eq, Structural)]
pub struct Scan {
    pub forward: bool,
    pub fast: bool,
}

/// A command that a key asks the single-window editor to carry out.
#[derive(Clone, Copy, Debug, PartialEq, Eq, Structural)]
pub enum RootCommand {
    /// Export the animation to a video.
    Export,
    /// Put the mark at this time.
    SetMark(i64),
    /// Truncate this snippet at this time.
    Truncate { id: SnippetId, time: i64 },
    /// Warp this snippet so that what it shows at `from_time` is shown at `to_time`.
    Lerp { id: SnippetId, from_time: i64, to_time: i64 },
    Nothing,
}

/// The answer of the single-window editor to a key.
#[derive(Clone, Copy, Debug, PartialEq, Eq, Structural)]
pub struct RootKeyResponse {
    /// Stop the current scan.
    pub stop_scanning: bool,
    /// Start (or change) a scan.
    pub scan: Option<Scan>,
    /// The command to send.
    pub command: RootCommand,
    /// The key is used up.
    pub handled: bool,
}

/// The arrow key that scans in this direction.
pub open spec fn scan_key(forward: bool) -> Key {
    if forward {
        Key::ArrowRight
    } else {
        Key::ArrowLeft
    }
}

pub open spec fn is_arrow(key: Key) -> bool {
    key == Key::ArrowLeft || key == Key::ArrowRight
}

/// The single-window editor's answer to a key going down, at time `time`,
/// with the timeline mark `mark` and the snippet `selected` selected.
pub open spec fn root_key_down_spec(
    state: ScanState,
    key: Key,
    shift: bool,
    time: i64,
    mark: Option<i64>,
    selected: Option<SnippetId>,
) -> RootKeyResponse {
    let nothing = RootKeyResponse {
        stop_scanning: false,
        scan: None,
        command: RootCommand::Nothing,
        handled: false,
    };
    // Another key than the one that scans stops a scan; an arrow key does nothing else.
    let (stop, scanned) = match state {
        ScanState::Scanning { forward } => (key != scan_key(forward), true),
        _ => (false, false),
    };
    if scanned && is_arrow(key) {
        RootKeyResponse { stop_scanning: stop, handled: true, ..nothing }
    } else if is_arrow(key) {
        RootKeyResponse {
            scan: if state == ScanState::Idle {
                Some(Scan { forward: key == Key::ArrowRight, fast: shift })
            } else {
                None
            },
            handled: true,
            ..nothing
        }
    } else if key == Key::Character('e') {
        RootKeyResponse { stop_scanning: stop, command: RootCommand::Export, handled: scanned, ..nothing }
    } else if key == Key::Character('m') {
        RootKeyResponse {
            stop_scanning: stop,
            command: RootCommand::SetMark(time),
            handled: true,
            ..nothing
        }
    } else if key == Key::Character('t') && selected is Some {
        RootKeyResponse {
            stop_scanning: stop,
            command: RootCommand::Truncate { id: selected->0, time },
            handled: true,
            ..nothing
        }
    } else if key == Key::Character('w') && mark is Some && selected is Some {
        RootKeyResponse {
            stop_scanning: stop,
            command: RootCommand::Lerp { id: selected->0, from_time: time, to_time: mark->0 },
            handled: scanned,
            ..nothing
        }
    } else {
        RootKeyResponse { stop_scanning: stop, handled: scanned, ..nothing }
    }
}

/// The single-window editor's answer to a key going down: while scanning,
/// any key but the scanning arrow stops the scan, and an arrow key does nothing
/// more; otherwise an arrow key starts scanning (fast with shift) if the editor is
/// idle, `e` exports, `m` sets the mark, `t` truncates the selected snippet and
/// `w` warps it to the mark.
pub fn root_key_down(
    state: ScanState,
    key: Key,
    shift: bool,
    time: i64,
    mark: Option<i64>,
    selected: Option<SnippetId>,
) -> (r: RootKeyResponse)
    ensures
        r == root_key_down_spec(state, key, shift, time, mark, selected),
{
    let mut r = RootKeyResponse {
        stop_scanning: false,
        scan: None,
        command: RootCommand::Nothing,
        handled: false,
    };
    if let ScanState::Scanning { forward } = state {
        let direction = if forward {
            Key::ArrowRight
        } else {
            Key::ArrowLeft
        };
        if key != direction {
            r.stop_scanning = true;
        }
        r.handled = true;
        if key == Key::ArrowRight || key == Key::ArrowLeft {
            return r;
        }
    }
    match key {
        Key::ArrowRight | Key::ArrowLeft => {
            if state == ScanState::Idle {
                r.scan = Some(Scan { forward: key == Key::ArrowRight, fast: shift });
            }
            r.handled = true;
        },
        Key::Character('e') => {
            r.command = RootCommand::Export;
        },
        Key::Character('m') => {
            r.command = RootCommand::SetMark(time);
            r.handled = true;
        },
        Key::Character('t') => {
            if let Some(id) = selected {
                r.command = RootCommand::Truncate { id, time };
                r.handled = true;
            }
        },
        Key::Character('w') => {
            if let Some(mark_time) = mark {
                if let Some(id) = selected {
                    r.command = RootCommand::Lerp { id, from_time: time, to_time: mark_time };
                }
            }
        },
        _ => {},
    }
    r
}

/// The single-window editor's answer to a key going up: releasing an arrow
/// key stops a scan. Returns whether to stop scanning and whether the key is used up.
pub fn root_key_up(state: ScanState, key: Key) -> (r: (bool, bool))
    ensures
        r == (if is_arrow(key) {
            (state is Scanning, true)
        } else {
            (false, false)
        }),
{
    match key {
        Key::ArrowRight | Key::ArrowLeft => {
            let scanning = if let ScanState::Scanning { .. } = state {
                true
            } else {
                false
            };
            (scanning, true)
        },
        _ => (false, false),
    }
}

/// What a key asks the editor to do, besides what it does to the palette and pen.
#[derive(Clone, Copy, Debug, PartialEq, Eq, Structural)]
pub enum EditorKeyAction {
    /// Stop scanning.
    StopScanning,
    /// Start or change a scan.
    Scan(Scan),
    /// Select the snippet above the selected one in the timeline.
    SelectSnippetAbove,
    /// Select the snippet below the selected one in the timeline.
    SelectSnippetBelow,
    Nothing,
}

/// The editor's answer to a key going down: while scanning, any key but the
/// scanning arrow or shift stops the scan, and an arrow key does nothing more;
/// otherwise an arrow key starts scanning (fast with shift) if the editor is
/// idle, and shift speeds up a scan. Returns the action and whether the key is
/// used up.
pub fn editor_key_down(state: ScanState, key: Key, mods: Mods) -> (r: (EditorKeyAction, bool))
    ensures
        r == (match state {
            ScanState::Scanning { forward } => if is_arrow(key) {
                (
                    if key != scan_key(forward) {
                        EditorKeyAction::StopScanning
                    } else {
                        EditorKeyAction::Nothing
                    },
                    true,
                )
            } else if key == Key::Shift {
                (EditorKeyAction::Scan(Scan { forward, fast: true }), true)
            } else {
                (EditorKeyAction::StopScanning, true)
            },
            ScanState::Idle => if is_arrow(key) {
                (
                    EditorKeyAction::Scan(Scan { forward: key == Key::ArrowRight, fast: mods.shift }),
                    true,
                )
            } else {
                (EditorKeyAction::Nothing, false)
            },
            ScanState::Busy => (EditorKeyAction::Nothing, is_arrow(key)),
        }),
{
    if let ScanState::Scanning { forward } = state {
        let direction = if forward {
            Key::ArrowRight
        } else {
            Key::ArrowLeft
        };
        let stop = key != direction && key != Key::Shift;
        if key == Key::ArrowRight || key == Key::ArrowLeft {
            let action = if stop {
                EditorKeyAction::StopScanning
            } else {
                EditorKeyAction::Nothing
            };
            return (action, true);
        }
        if stop {
            return (EditorKeyAction::StopScanning, true);
        }
        // The key is shift: scan fast, in the same direction.
        return (EditorKeyAction::Scan(Scan { forward, fast: true }), true);
    }
    match key {
        Key::ArrowRight | Key::ArrowLeft => {
            let action = if state == ScanState::Idle {
                EditorKeyAction::Scan(Scan { forward: key == Key::ArrowRight, fast: mods.shift })
            } else {
                EditorKeyAction::Nothing
            };
            (action, true)
        },
        _ => (EditorKeyAction::Nothing, false),
    }
}

/// The palette position that a digit key selects: `1` the first color, `0` the
/// tenth.
pub open spec fn digit_color_index(c: char) -> int {
    ((c as int - '0' as int) + 9) % 10
}

/// The pen size that a letter key selects.
pub open spec fn letter_pen_size(c: char) -> Option<PenSize> {
    if c == 'q' {
        Some(PenSize::Big)
    } else if c == 'w' {
        Some(PenSize::Medium)
    } else if c == 'e' {
        Some(PenSize::Small)
    } else {
        None
    }
}

/// The editor's answer to a key going up: releasing an arrow key stops a scan,
/// releasing shift slows it down, the up and down arrows select the snippet above
/// or below, a digit (without modifiers) selects a color of the palette, if it has
/// one at that position, and `q`, `w` and `e` select the big, medium and small pen.
/// Returns the action and whether the key is used up.
pub fn editor_key_up(
    state: ScanState,
    key: Key,
    mods: Mods,
    palette: &mut PaletteData,
    pen_size: &mut PenSize,
) -> (r: (EditorKeyAction, bool))
    ensures
        r == (if is_arrow(key) {
            (
                if state is Scanning {
                    EditorKeyAction::StopScanning
                } else {
                    EditorKeyAction::Nothing
                },
                true,
            )
        } else if key == Key::Shift {
            (
                match state {
                    ScanState::Scanning { forward } => EditorKeyAction::Scan(
                        Scan { forward, fast: false },
                    ),
                    _ => EditorKeyAction::Nothing,
                },
                false,
            )
        } else if key == Key::ArrowUp {
            (EditorKeyAction::SelectSnippetAbove, false)
        } else if key == Key::ArrowDown {
            (EditorKeyAction::SelectSnippetBelow, false)
        } else {
            (EditorKeyAction::Nothing, false)
        }),
        final(palette).entries() == old(palette).entries(),
        ({
            let typed = key matches Key::Character(c) && !mods.shift && !mods.ctrl && !mods.alt;
            let c = key->Character_0;
            &&& (typed && '0' <= c <= '9' && digit_color_index(c) < old(palette).entries().len())
                ==> final(palette).selected() == old(palette).entries()[digit_color_index(c)].0
            &&& !(typed && '0' <= c <= '9' && digit_color_index(c) < old(palette).entries().len())
                ==> final(palette).selected() == old(palette).selected()
            &&& (typed && letter_pen_size(c) is Some) ==> *final(pen_size) == letter_pen_size(
                c,
            )->0
            &&& !(typed && letter_pen_size(c) is Some) ==> *final(pen_size) == *old(pen_size)
        }),
{
    match key {
        Key::ArrowRight | Key::ArrowLeft => {
            let action = if let ScanState::Scanning { .. } = state {
                EditorKeyAction::StopScanning
            } else {
                EditorKeyAction::Nothing
            };
            (action, true)
        },
        Key::Shift => {
            let action = if let ScanState::Scanning { forward } = state {
                EditorKeyAction::Scan(Scan { forward, fast: false })
            } else {
                EditorKeyAction::Nothing
            };
            (action, false)
        },
        Key::ArrowUp => (EditorKeyAction::SelectSnippetAbove, false),
        Key::ArrowDown => (EditorKeyAction::SelectSnippetBelow, false),
        Key::Character(c) => {
            if !mods.shift && !mods.ctrl && !mods.alt {
                if '0' <= c && c <= '9' {
                    let num = (c as u32) - ('0' as u32);
                    let idx = ((num + 9) % 10) as usize;
                    // Without a color at that position, nothing changes.
                    let _ = palette.try_select_idx(idx);
                } else if c == 'q' {
                    *pen_size = PenSize::Big;
                } else if c == 'w' {
                    *pen_size = PenSize::Medium;
                } else if c == 'e' {
                    *pen_size = PenSize::Small;
                }
            }
            (EditorKeyAction::Nothing, false)
        },
        _ => (EditorKeyAction::Nothing, false),
    }
}

} // verus!
