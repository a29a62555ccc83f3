//! Settings that affect recording, chosen in the editor's tool bar.

use vstd::prelude::*;

verus! {

/// How fast the animation clock runs while drawing.
#[derive(Clone, Copy, Debug, PartialEq, Eq, Structural)]
pub enum RecordingSpeed {
    Paused,
    Slower,
    Slow,
    Normal,
}

/// The size of the pen.
#[derive(Clone, Copy, Debug, PartialEq, Eq, Structural)]
pub enum PenSize {
    Small,
    Medium,
    Big,
}

/// How the recorded speech is cleaned up.
#[derive(Clone, Copy, Debug, PartialEq, Eq, Structural)]
pub enum DenoiseSetting {
    /// Keep the recorded audio as it is.
    DenoiseOff,
    /// Remove noise, but keep every frame.
    DenoiseOn,
    /// Remove noise, and drop the frames where no voice was detected.
    Vad,
}

impl DenoiseSetting {
    /// The setting that the configuration file asks for: `remove_noise` says whether
    /// noise removal is on, and `vad_enabled` whether the voice-detection threshold
    /// is positive.
    pub fn from_config(remove_noise: bool, vad_enabled: bool) -> (r: DenoiseSetting)
        ensures
            !remove_noise ==> r == DenoiseSetting::DenoiseOff,
            remove_noise && !vad_enabled ==> r == DenoiseSetting::DenoiseOn,
            remove_noise && vad_enabled ==> r == DenoiseSetting::Vad,
    {
        if !remove_noise {
            DenoiseSetting::DenoiseOff
        } else if !vad_enabled {
            DenoiseSetting::DenoiseOn
        } else {
            DenoiseSetting::Vad
        }
    }

    /// Whether the audio input should remove noise under this setting.
    pub fn remove_noise(&self) -> (r: bool)
        ensures
            r == !(*self is DenoiseOff),
    {
        match self {
            DenoiseSetting::DenoiseOff => false,
            DenoiseSetting::DenoiseOn => true,
            DenoiseSetting::Vad => true,
        }
    }

    /// Whether this setting turns voice detection off (by zeroing its threshold),
    /// whatever the configuration file says.
    pub fn disables_vad(&self) -> (r: bool)
        ensures
            r == (*self is DenoiseOn),
    {
        match self {
            DenoiseSetting::DenoiseOn => true,
            _ => false,
        }
    }
}

} // verus!
