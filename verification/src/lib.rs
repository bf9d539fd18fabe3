//! The rules of the Rufin music player's core, stated as contracts and proved.

pub mod api;
pub mod artwork;
pub mod connect;
pub mod diagnostics;
pub mod digest;
pub mod metadata;
pub mod paths;
pub mod playback;
pub mod playlist_files;
pub mod playlists;
pub mod radio;
pub mod redaction;
pub mod redaction_laws;
pub mod release_update;
pub mod runtime;
pub mod scrobbling;
pub mod secret_laws;
pub mod sorted;
pub mod text;
pub mod textmap;
