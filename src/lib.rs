//! Verified core of a local audio player: the play queue with its cursor,
//! the pause-aware playtime tracker, and the playback engine that drives them.

pub mod error;
pub mod track;
pub mod queue;
pub mod playtime;
pub mod player;
pub mod folder;
pub mod cli;
