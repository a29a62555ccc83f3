use scribl::settings::DenoiseSetting;
use scribl::toggle::{
    button_shade, toggle_event_response, ButtonShade, CurrentAction, PointerEvent, ToggleAction,
    ToggleButtonState,
};

#[test]
fn disabled_buttons() {
    assert!(ToggleButtonState::Disabled.is_disabled());
    assert!(!ToggleButtonState::ToggledOn.is_disabled());
    let r = toggle_event_response(ToggleButtonState::Disabled, PointerEvent::MouseUp, true, true);
    assert_eq!(r.set_active, Some(false));
    assert!(r.request_paint);
    assert_eq!(r.action, ToggleAction::Nothing);
    let r = toggle_event_response(ToggleButtonState::Disabled, PointerEvent::MouseDown, false, true);
    assert_eq!(r.set_active, None);
    assert!(!r.request_paint);
}

#[test]
fn click_toggles() {
    let r = toggle_event_response(ToggleButtonState::ToggledOff, PointerEvent::MouseDown, false, true);
    assert_eq!(r.set_active, Some(true));
    let r = toggle_event_response(ToggleButtonState::ToggledOff, PointerEvent::MouseUp, true, true);
    assert_eq!(r.action, ToggleAction::Toggle);
    assert_eq!(r.set_active, Some(false));
    let r = toggle_event_response(ToggleButtonState::ToggledOn, PointerEvent::MouseUp, true, true);
    assert_eq!(r.action, ToggleAction::Untoggle);
    let r = toggle_event_response(ToggleButtonState::ToggledOn, PointerEvent::MouseUp, true, false);
    assert_eq!(r.action, ToggleAction::Nothing);
    let r = toggle_event_response(ToggleButtonState::ToggledOn, PointerEvent::MouseMoved, true, true);
    assert_eq!(r.set_active, None);
}

#[test]
fn shading() {
    assert_eq!(button_shade(ToggleButtonState::Disabled, true), ButtonShade::Disabled);
    assert_eq!(button_shade(ToggleButtonState::ToggledOn, false), ButtonShade::Raised);
    assert_eq!(button_shade(ToggleButtonState::ToggledOn, true), ButtonShade::Sunken);
    assert_eq!(button_shade(ToggleButtonState::ToggledOff, true), ButtonShade::Raised);
}

#[test]
fn action_buttons() {
    let idle = CurrentAction::Idle;
    assert_eq!(idle.rec_toggle(), ToggleButtonState::ToggledOff);
    assert_eq!(idle.play_toggle(), ToggleButtonState::ToggledOff);
    assert_eq!(idle.rec_audio_toggle(), ToggleButtonState::ToggledOff);
    assert!(idle.is_idle());
    let rec = CurrentAction::RecordingAudio(5);
    assert_eq!(rec.rec_audio_toggle(), ToggleButtonState::ToggledOn);
    assert_eq!(rec.play_toggle(), ToggleButtonState::Disabled);
    assert!(rec.is_ticking());
    let scan = CurrentAction::Scanning((-2.0f64).to_bits());
    assert!(scan.is_scanning());
    assert_eq!(scan.rec_toggle(), ToggleButtonState::Disabled);
    assert!(!scan.is_ticking());
    assert!(CurrentAction::WaitingToRecord.is_waiting_to_record());
    assert!(CurrentAction::Recording.is_recording());
    assert_eq!(CurrentAction::Playing.play_toggle(), ToggleButtonState::ToggledOn);
}

#[test]
fn denoise_settings() {
    assert_eq!(DenoiseSetting::from_config(false, true), DenoiseSetting::DenoiseOff);
    assert_eq!(DenoiseSetting::from_config(true, false), DenoiseSetting::DenoiseOn);
    assert_eq!(DenoiseSetting::from_config(true, true), DenoiseSetting::Vad);
    assert!(!DenoiseSetting::DenoiseOff.remove_noise());
    assert!(DenoiseSetting::Vad.remove_noise());
    assert!(DenoiseSetting::DenoiseOn.disables_vad());
    assert!(!DenoiseSetting::Vad.disables_vad());
}
