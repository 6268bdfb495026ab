//! What is playing.

use vstd::prelude::*;

verus! {

/// What the device shows of what it plays.
#[derive(Debug, PartialEq, Eq)]
pub struct PlayerInfo {
    /// The first line of the display.
    pub name: String,
    /// The second line of the display.
    pub text: String,
    pub album: String,
    pub artist: String,
    /// In milliseconds.
    pub duration: u64,
    pub graphic_uri: String,
}

impl PlayerInfo {
    /// What is playing, as the device reports it.
    pub fn new(
        name: String,
        text: String,
        album: String,
        artist: String,
        duration: u32,
        graphic_uri: String,
    ) -> (info: PlayerInfo)
        ensures
            info == (PlayerInfo {
                name,
                text,
                album,
                artist,
                duration: duration as u64,
                graphic_uri,
            }),
    {
        PlayerInfo { name, text, album, artist, duration: duration as u64, graphic_uri }
    }
}

} // verus!
