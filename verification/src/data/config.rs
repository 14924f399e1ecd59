//! The configuration of the player.

use vstd::prelude::*;

verus! {

/// The configuration: where the music lies.
#[derive(Debug)]
pub struct ConfigData {
    pub music_path: String,
}

impl ConfigData {
    /// The configuration with the given directory of music.
    pub fn new(music_path: String) -> (config: ConfigData)
        ensures
            config.music_path == music_path,
    {
        ConfigData { music_path }
    }
}

} // verus!
