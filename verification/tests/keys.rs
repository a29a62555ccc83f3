use scribl::drawing::SnippetId;
use scribl::keys::{
    editor_key_down, editor_key_up, root_key_down, root_key_up, EditorKeyAction, Key, Mods,
    RootCommand, Scan, ScanState,
};
use scribl::palette::{Color, PaletteData};
use scribl::settings::PenSize;

const NO_MODS: Mods = Mods { shift: false, ctrl: false, alt: false };

#[test]
fn root_arrows_scan_when_idle() {
    let r = root_key_down(ScanState::Idle, Key::ArrowRight, true, 0, None, None);
    assert_eq!(r.scan, Some(Scan { forward: true, fast: true }));
    assert!(r.handled);
    assert!(!r.stop_scanning);
    let r = root_key_down(ScanState::Busy, Key::ArrowLeft, false, 0, None, None);
    assert_eq!(r.scan, None);
    assert!(r.handled);
}

#[test]
fn root_keys_while_scanning() {
    let scanning = ScanState::Scanning { forward: true };
    let r = root_key_down(scanning, Key::ArrowRight, false, 0, None, None);
    assert!(!r.stop_scanning);
    assert!(r.handled);
    assert_eq!(r.scan, None);
    let r = root_key_down(scanning, Key::ArrowLeft, false, 0, None, None);
    assert!(r.stop_scanning);
    assert_eq!(r.scan, None);
    let r = root_key_down(scanning, Key::Character('m'), false, 7, None, None);
    assert!(r.stop_scanning);
    assert_eq!(r.command, RootCommand::SetMark(7));
    assert_eq!(root_key_up(scanning, Key::ArrowRight), (true, true));
    assert_eq!(root_key_up(ScanState::Idle, Key::ArrowRight), (false, true));
    assert_eq!(root_key_up(scanning, Key::Character('m')), (false, false));
}

#[test]
fn root_editing_commands() {
    let id = SnippetId(3);
    let r = root_key_down(ScanState::Idle, Key::Character('e'), false, 0, None, None);
    assert_eq!(r.command, RootCommand::Export);
    assert!(!r.handled);
    let r = root_key_down(ScanState::Idle, Key::Character('t'), false, 40, None, Some(id));
    assert_eq!(r.command, RootCommand::Truncate { id, time: 40 });
    assert!(r.handled);
    let r = root_key_down(ScanState::Idle, Key::Character('t'), false, 40, None, None);
    assert_eq!(r.command, RootCommand::Nothing);
    assert!(!r.handled);
    let r = root_key_down(ScanState::Idle, Key::Character('w'), false, 40, Some(10), Some(id));
    assert_eq!(r.command, RootCommand::Lerp { id, from_time: 40, to_time: 10 });
    let r = root_key_down(ScanState::Idle, Key::Character('w'), false, 40, None, Some(id));
    assert_eq!(r.command, RootCommand::Nothing);
}

#[test]
fn editor_scanning_keys() {
    let shift = Mods { shift: true, ctrl: false, alt: false };
    assert_eq!(
        editor_key_down(ScanState::Idle, Key::ArrowLeft, shift),
        (EditorKeyAction::Scan(Scan { forward: false, fast: true }), true)
    );
    let back = ScanState::Scanning { forward: false };
    assert_eq!(editor_key_down(back, Key::ArrowLeft, NO_MODS), (EditorKeyAction::Nothing, true));
    assert_eq!(editor_key_down(back, Key::ArrowRight, NO_MODS), (EditorKeyAction::StopScanning, true));
    assert_eq!(
        editor_key_down(back, Key::Shift, shift),
        (EditorKeyAction::Scan(Scan { forward: false, fast: true }), true)
    );
    assert_eq!(editor_key_down(back, Key::Character('x'), NO_MODS), (EditorKeyAction::StopScanning, true));
    assert_eq!(editor_key_down(ScanState::Busy, Key::ArrowRight, NO_MODS), (EditorKeyAction::Nothing, true));
    assert_eq!(editor_key_down(ScanState::Idle, Key::Shift, shift), (EditorKeyAction::Nothing, false));
}

#[test]
fn editor_key_up_selects_colors_and_pens() {
    let mut palette = PaletteData::default();
    let mut pen = PenSize::Medium;
    let r = editor_key_up(ScanState::Idle, Key::Character('3'), NO_MODS, &mut palette, &mut pen);
    assert_eq!(r, (EditorKeyAction::Nothing, false));
    assert_eq!(*palette.selected_color(), Color::rgb8(248, 151, 31));
    editor_key_up(ScanState::Idle, Key::Character('0'), NO_MODS, &mut palette, &mut pen);
    assert_eq!(*palette.selected_color(), Color::rgb8(214, 210, 196));
    editor_key_up(ScanState::Idle, Key::Character('q'), NO_MODS, &mut palette, &mut pen);
    assert_eq!(pen, PenSize::Big);
    let ctrl = Mods { shift: false, ctrl: true, alt: false };
    editor_key_up(ScanState::Idle, Key::Character('e'), ctrl, &mut palette, &mut pen);
    assert_eq!(pen, PenSize::Big);
    editor_key_up(ScanState::Idle, Key::Character('e'), NO_MODS, &mut palette, &mut pen);
    assert_eq!(pen, PenSize::Small);
}

#[test]
fn editor_key_up_scanning_and_selection() {
    let mut palette = PaletteData::default();
    let mut pen = PenSize::Small;
    let fwd = ScanState::Scanning { forward: true };
    assert_eq!(
        editor_key_up(fwd, Key::ArrowRight, NO_MODS, &mut palette, &mut pen),
        (EditorKeyAction::StopScanning, true)
    );
    assert_eq!(
        editor_key_up(fwd, Key::Shift, NO_MODS, &mut palette, &mut pen),
        (EditorKeyAction::Scan(Scan { forward: true, fast: false }), false)
    );
    assert_eq!(
        editor_key_up(ScanState::Idle, Key::ArrowUp, NO_MODS, &mut palette, &mut pen),
        (EditorKeyAction::SelectSnippetAbove, false)
    );
    assert_eq!(
        editor_key_up(ScanState::Idle, Key::ArrowDown, NO_MODS, &mut palette, &mut pen),
        (EditorKeyAction::SelectSnippetBelow, false)
    );
}

#[test]
fn pen_size_from_settings_is_unchanged_by_other_keys() {
    let mut palette = PaletteData::default();
    let mut pen = PenSize::Small;
    editor_key_up(ScanState::Idle, Key::Other, NO_MODS, &mut palette, &mut pen);
    assert_eq!(pen, PenSize::Small);
    assert_eq!(*palette.selected_color(), Color::rgb8(51, 63, 72));
}

#[test]
fn root_keys_ignore_shift_for_commands() {
    let r = root_key_down(ScanState::Idle, Key::Character('e'), true, 0, None, None);
    assert_eq!(r.command, RootCommand::Export);
}
