//! Toggle buttons: their states, and how they react to the mouse.

use vstd::prelude::*;

verus! {

/// The state of a toggle button.
#[derive(Clone, Copy, Debug, Eq, PartialEq, Structural)]
pub enum ToggleButtonState {
    ToggledOn,
    ToggledOff,
    Disabled,
}

impl ToggleButtonState {
    /// Is the button disabled?
    pub fn is_disabled(&self) -> (r: bool)
        ensures
            r == (*self == ToggleButtonState::Disabled),
    {
        *self == ToggleButtonState::Disabled
    }
}

/// The kinds of pointer events that a toggle button distinguishes.
#[derive(Clone, Copy, Debug, Eq, PartialEq, Structural)]
pub enum PointerEvent {
    MouseDown,
    MouseUp,
    MouseMoved,
    /// Any other event.
    Other,
}

/// The action a toggle button triggers.
#[derive(Clone, Copy, Debug, Eq, PartialEq, Structural)]
pub enum ToggleAction {
    /// Nothing happens.
    Nothing,
    /// The button was clicked while off: run its "toggle" action.
    Toggle,
    /// The button was clicked while on: run its "untoggle" action.
    Untoggle,
}

/// How a toggle button responds to an event.
#[derive(Clone, Copy, Debug, Eq, PartialEq, Structural)]
pub struct ToggleResponse {
    /// The new value of the button's "active" (pressed) flag, if it changes.
    pub set_active: Option<bool>,
    /// Whether the button must be repainted.
    pub request_paint: bool,
    /// The action to run.
    pub action: ToggleAction,
}

/// The response of a toggle button in state `state` to `event`, given whether
/// it is currently active (pressed) and hot (under the pointer).
///
/// A disabled button only releases itself. Otherwise a press activates the
/// button, and a release of an active button deactivates it and, if the pointer
/// is still over the button, toggles it.
pub fn toggle_event_response(
    state: ToggleButtonState,
    event: PointerEvent,
    is_active: bool,
    is_hot: bool,
) -> (r: ToggleResponse)
    ensures
        state is Disabled ==> r == (ToggleResponse {
            set_active: if is_active {
                Some(false)
            } else {
                None
            },
            request_paint: is_active,
            action: ToggleAction::Nothing,
        }),
        !(state is Disabled) && event is MouseDown ==> r == (ToggleResponse {
            set_active: Some(true),
            request_paint: true,
            action: ToggleAction::Nothing,
        }),
        !(state is Disabled) && event is MouseUp ==> r == (ToggleResponse {
            set_active: if is_active {
                Some(false)
            } else {
                None
            },
            request_paint: is_active,
            action: if is_active && is_hot {
                if state is ToggledOn {
                    ToggleAction::Untoggle
                } else {
                    ToggleAction::Toggle
                }
            } else {
                ToggleAction::Nothing
            },
        }),
        !(state is Disabled) && (event is MouseMoved || event is Other) ==> r == (ToggleResponse {
            set_active: None,
            request_paint: false,
            action: ToggleAction::Nothing,
        }),
{
    if state.is_disabled() {
        if is_active {
            return ToggleResponse {
                set_active: Some(false),
                request_paint: true,
                action: ToggleAction::Nothing,
            };
        }
        return ToggleResponse { set_active: None, request_paint: false, action: ToggleAction::Nothing };
    }
    match event {
        PointerEvent::MouseDown => ToggleResponse {
            set_active: Some(true),
            request_paint: true,
            action: ToggleAction::Nothing,
        },
        PointerEvent::MouseUp => {
            if is_active {
                let action = if is_hot {
                    match state {
                        ToggleButtonState::ToggledOn => ToggleAction::Untoggle,
                        ToggleButtonState::ToggledOff => ToggleAction::Toggle,
                        ToggleButtonState::Disabled => ToggleAction::Nothing,
                    }
                } else {
                    ToggleAction::Nothing
                };
                ToggleResponse { set_active: Some(false), request_paint: true, action }
            } else {
                ToggleResponse { set_active: None, request_paint: false, action: ToggleAction::Nothing }
            }
        },
        PointerEvent::MouseMoved => ToggleResponse {
            set_active: None,
            request_paint: false,
            action: ToggleAction::Nothing,
        },
        PointerEvent::Other => ToggleResponse {
            set_active: None,
            request_paint: false,
            action: ToggleAction::Nothing,
        },
    }
}

/// How a toggle button is shaded.
#[derive(Clone, Copy, Debug, Eq, PartialEq, Structural)]
pub enum ButtonShade {
    /// Flat, in the disabled color.
    Disabled,
    /// Light on top, dark at the bottom.
    Raised,
    /// Dark on top, light at the bottom.
    Sunken,
}

/// The shading of a toggle button: a button looks raised when exactly one of
/// "toggled on" and "pressed" holds.
pub fn button_shade(state: ToggleButtonState, is_active: bool) -> (r: ButtonShade)
    ensures
        state is Disabled ==> r == ButtonShade::Disabled,
        !(state is Disabled) ==> r == if (state is ToggledOn) != is_active {
            ButtonShade::Raised
        } else {
            ButtonShade::Sunken
        },
{
    let is_toggled = state == ToggleButtonState::ToggledOn;
    if state.is_disabled() {
        ButtonShade::Disabled
    } else if is_toggled != is_active {
        ButtonShade::Raised
    } else {
        ButtonShade::Sunken
    }
}

/// What the single-window editor is doing.
#[derive(Clone, Copy, Debug, PartialEq, Eq, Structural)]
pub enum CurrentAction {
    /// Drawing was requested; waiting for the first stroke.
    WaitingToRecord,
    /// Drawing an animation while the time is ticking.
    Recording,
    /// Watching the animation.
    Playing,
    /// Recording audio; the argument is the time at which the capture started.
    RecordingAudio(i64),
    /// Fast-forward or reverse. The argument is the bit pattern of the `f64`
    /// speed factor, negative for reverse.
    Scanning(u64),
    /// Doing nothing.
    Idle,
}

impl CurrentAction {
    /// The state of the "record drawing" button: on while drawing, off when idle.
    pub open spec fn rec_button(self) -> ToggleButtonState {
        match self {
            CurrentAction::WaitingToRecord | CurrentAction::Recording => ToggleButtonState::ToggledOn,
            CurrentAction::Idle => ToggleButtonState::ToggledOff,
            _ => ToggleButtonState::Disabled,
        }
    }

    /// The state of the "play" button: on while playing, off when idle.
    pub open spec fn play_button(self) -> ToggleButtonState {
        match self {
            CurrentAction::Playing => ToggleButtonState::ToggledOn,
            CurrentAction::Idle => ToggleButtonState::ToggledOff,
            _ => ToggleButtonState::Disabled,
        }
    }

    /// The state of the "record audio" button: on while recording, off when idle.
    pub open spec fn rec_audio_button(self) -> ToggleButtonState {
        match self {
            CurrentAction::RecordingAudio(_) => ToggleButtonState::ToggledOn,
            CurrentAction::Idle => ToggleButtonState::ToggledOff,
            _ => ToggleButtonState::Disabled,
        }
    }

    /// The state of the "record drawing" button.
    pub fn rec_toggle(&self) -> (r: ToggleButtonState)
        ensures
            r == self.rec_button(),
    {
        match *self {
            CurrentAction::WaitingToRecord => ToggleButtonState::ToggledOn,
            CurrentAction::Recording => ToggleButtonState::ToggledOn,
            CurrentAction::Idle => ToggleButtonState::ToggledOff,
            CurrentAction::Playing => ToggleButtonState::Disabled,
            CurrentAction::Scanning(_) => ToggleButtonState::Disabled,
            CurrentAction::RecordingAudio(_) => ToggleButtonState::Disabled,
        }
    }

    /// The state of the "play" button.
    pub fn play_toggle(&self) -> (r: ToggleButtonState)
        ensures
            r == self.play_button(),
    {
        match *self {
            CurrentAction::WaitingToRecord => ToggleButtonState::Disabled,
            CurrentAction::Recording => ToggleButtonState::Disabled,
            CurrentAction::Scanning(_) => ToggleButtonState::Disabled,
            CurrentAction::Playing => ToggleButtonState::ToggledOn,
            CurrentAction::Idle => ToggleButtonState::ToggledOff,
            CurrentAction::RecordingAudio(_) => ToggleButtonState::Disabled,
        }
    }

    /// The state of the "record audio" button.
    pub fn rec_audio_toggle(&self) -> (r: ToggleButtonState)
        ensures
            r == self.rec_audio_button(),
    {
        match *self {
            CurrentAction::WaitingToRecord => ToggleButtonState::Disabled,
            CurrentAction::Recording => ToggleButtonState::Disabled,
            CurrentAction::Scanning(_) => ToggleButtonState::Disabled,
            CurrentAction::Playing => ToggleButtonState::Disabled,
            CurrentAction::Idle => ToggleButtonState::ToggledOff,
            CurrentAction::RecordingAudio(_) => ToggleButtonState::ToggledOn,
        }
    }

    /// Doing nothing?
    pub fn is_idle(&self) -> (r: bool)
        ensures
            r == (*self is Idle),
    {
        *self == CurrentAction::Idle
    }

    /// Drawing?
    pub fn is_recording(&self) -> (r: bool)
        ensures
            r == (*self is Recording),
    {
        *self == CurrentAction::Recording
    }

    /// Waiting for the first stroke of a drawing?
    pub fn is_waiting_to_record(&self) -> (r: bool)
        ensures
            r == (*self is WaitingToRecord),
    {
        *self == CurrentAction::WaitingToRecord
    }

    /// Is the animation clock running at normal speed?
    pub fn is_ticking(&self) -> (r: bool)
        ensures
            r == (*self is Recording || *self is Playing || *self is RecordingAudio),
    {
        match *self {
            CurrentAction::Recording | CurrentAction::Playing | CurrentAction::RecordingAudio(_) => true,
            _ => false,
        }
    }

    /// Fast-forwarding or reversing?
    pub fn is_scanning(&self) -> (r: bool)
        ensures
            r == (*self is Scanning),
    {
        if let CurrentAction::Scanning(_) = *self {
            true
        } else {
            false
        }
    }
}

/// At most one of the three recording/playing buttons is toggled on, and when
/// one is on, the other two are disabled.
pub proof fn law_one_button_on(a: CurrentAction)
    ensures
        a.rec_button() is ToggledOn ==> a.play_button() is Disabled && a.rec_audio_button() is Disabled,
        a.play_button() is ToggledOn ==> a.rec_button() is Disabled && a.rec_audio_button() is Disabled,
        a.rec_audio_button() is ToggledOn ==> a.rec_button() is Disabled && a.play_button() is Disabled,
        a is Idle <==> (a.rec_button() is ToggledOff && a.play_button() is ToggledOff
            && a.rec_audio_button() is ToggledOff),
{
}

} // verus!
