//! What is done with the music that was found on disk.

pub mod music;
