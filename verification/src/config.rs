//! Defaults of the configuration file.

use vstd::prelude::*;

verus! {

/// The default height of exported videos, in pixels.
pub fn default_video_height() -> (r: u32)
    ensures
        r == 1080,
{
    1080
}

/// By default, noise is removed from recorded speech.
pub fn default_remove_noise() -> (r: bool)
    ensures
        r,
{
    true
}

} // verus!
