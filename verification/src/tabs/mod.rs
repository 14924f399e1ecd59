//! What the tabs of the player decide, apart from drawing and from sound.

pub mod log;
pub mod manager;
pub mod player;
