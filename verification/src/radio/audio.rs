//! The audio settings of the device.

use crate::radio::audio::volume::Volume;
use vstd::prelude::*;

pub mod eq;
pub mod volume;

verus! {

/// Volume and equalizer.
#[derive(Debug, PartialEq, Eq)]
pub struct Audio {
    pub volume: Volume,
    pub eq: crate::radio::audio::eq::Eq,
}

impl Audio {
    /// The audio settings, of their two parts.
    pub fn new(volume: Volume, eq: crate::radio::audio::eq::Eq) -> (audio: Audio)
        ensures
            audio.volume == volume,
            audio.eq == eq,
    {
        Audio { volume, eq }
    }
}

} // verus!
