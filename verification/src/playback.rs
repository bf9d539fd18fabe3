//! Playback: handing the queue to players and back.

pub mod continuation;
pub mod handoff;
pub mod handoff_laws;
pub mod plex;
pub mod plex_laws;
pub mod plex_queue;
pub mod plex_session;
pub mod start_laws;
pub mod target;
