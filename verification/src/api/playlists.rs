//! Playlists and their files over HTTP.

use vstd::prelude::*;

use crate::api::parameters::{bad_request, ApiError};
use crate::playback::target::PlaybackTarget;
use crate::playlist_files::{is_conflict, FileRefusal};
use crate::text::same;

verus! {

/// What is done to the file of a playlist.
pub enum FileAction {
    Save { force: bool },
    Reload { force: bool },
    Unlink,
    Delete,
    Rename { name: String },
    /// The playlist is linked to a file of a source, or of this device.
    Link { source: Option<String>, path: String, force: bool },
}

pub open spec fn file_action_of(
    action: Seq<char>,
    path: Option<String>,
    source: Option<String>,
    force: bool,
) -> Result<FileAction, Seq<char>> {
    if action == "save"@ {
        Ok(FileAction::Save { force })
    } else if action == "reload"@ {
        Ok(FileAction::Reload { force })
    } else if action == "unlink"@ {
        Ok(FileAction::Unlink)
    } else if action == "delete"@ {
        Ok(FileAction::Delete)
    } else if action == "rename"@ {
        match path {
            Some(name) => Ok(FileAction::Rename { name }),
            None => Err("Missing filename"@),
        }
    } else if action == "link"@ {
        match path {
            Some(path) => Ok(FileAction::Link { source, path, force }),
            None => Err("Missing playlist file path"@),
        }
    } else {
        Err("Unknown playlist file action"@)
    }
}

pub fn file_action(
    action: &str,
    path: Option<String>,
    source: Option<String>,
    force: bool,
) -> (result: Result<FileAction, ApiError>)
    ensures
        match file_action_of(action@, path, source, force) {
            Ok(expected) => result == Ok::<FileAction, ApiError>(expected),
            Err(message) => result matches Err(error) && error.status == 400 && error.message@
                == message,
        },
{
    if same(action, "save") {
        Ok(FileAction::Save { force })
    } else if same(action, "reload") {
        Ok(FileAction::Reload { force })
    } else if same(action, "unlink") {
        Ok(FileAction::Unlink)
    } else if same(action, "delete") {
        Ok(FileAction::Delete)
    } else if same(action, "rename") {
        match path {
            Some(name) => Ok(FileAction::Rename { name }),
            None => Err(bad_request("Missing filename")),
        }
    } else if same(action, "link") {
        match path {
            Some(path) => Ok(FileAction::Link { source, path, force }),
            None => Err(bad_request("Missing playlist file path")),
        }
    } else {
        Err(bad_request("Unknown playlist file action"))
    }
}

/// The status with which a failure of a file action is answered: a conflict is told apart, so that
/// the user can settle it.
pub fn failure_status(error: &str) -> (result: u16)
    ensures
        result == if error@ == FileRefusal::LocalConflict.message() || error@
            == FileRefusal::FileConflict.message() {
            409u16
        } else {
            400u16
        },
{
    if is_conflict(error) {
        409
    } else {
        400
    }
}

/// A selection of media by the library's rows.
#[derive(Clone, Copy, Debug, PartialEq, Eq, Structural)]
pub enum MediaSelection {
    Album(i64),
    Artist { id: i64, album_artists: bool },
    Playlist(i64),
    Genre(i64),
    SmartPlaylist(i64),
}

pub open spec fn target_of(selection: MediaSelection) -> PlaybackTarget {
    match selection {
        MediaSelection::Album(id) => PlaybackTarget::AlbumKey(id),
        MediaSelection::Artist { id, album_artists } => PlaybackTarget::ArtistKey(
            id,
            album_artists,
        ),
        MediaSelection::Playlist(id) => PlaybackTarget::Playlist(id),
        MediaSelection::Genre(id) => PlaybackTarget::Genre(id),
        MediaSelection::SmartPlaylist(id) => PlaybackTarget::SmartPlaylist(id),
    }
}

/// What a selection plays.
pub fn selection_target(selection: MediaSelection) -> (result: PlaybackTarget)
    ensures
        result == target_of(selection),
        result.wf(),
{
    match selection {
        MediaSelection::Album(id) => PlaybackTarget::AlbumKey(id),
        MediaSelection::Artist { id, album_artists } => PlaybackTarget::ArtistKey(
            id,
            album_artists,
        ),
        MediaSelection::Playlist(id) => PlaybackTarget::Playlist(id),
        MediaSelection::Genre(id) => PlaybackTarget::Genre(id),
        MediaSelection::SmartPlaylist(id) => PlaybackTarget::SmartPlaylist(id),
    }
}

/// Where a selection looks for its media.
pub enum SelectionScope {
    /// In a source that is named, and there in a folder where one is named.
    Named { source: String, folder: Option<String> },
    /// In the library that is selected.
    Selected,
}

/// What is put into a playlist.
pub enum Selected {
    Uris(Vec<String>),
    Target { target: PlaybackTarget, scope: SelectionScope },
}

/// What is put into a playlist: a selection of the library where there is one, and else the media
/// that are listed.
pub fn selected_uris(
    uris: Vec<String>,
    selection: Option<MediaSelection>,
    source: Option<String>,
    folder: Option<String>,
) -> (result: Selected)
    ensures
        match selection {
            None => result == Selected::Uris(uris),
            Some(selection) => result matches Selected::Target { target, scope }
                && target == target_of(selection) && target.wf() && scope == match source {
                Some(source) => SelectionScope::Named { source, folder },
                None => SelectionScope::Selected,
            },
        },
{
    match selection {
        None => Selected::Uris(uris),
        Some(selection) => Selected::Target {
            target: selection_target(selection),
            scope: match source {
                Some(source) => SelectionScope::Named { source, folder },
                None => SelectionScope::Selected,
            },
        },
    }
}

/// Where the selection for a new playlist looks: in a source of its own, or in that of the
/// playlist.
pub fn create(selection_source: Option<String>, source: Option<String>) -> (result: Option<String>)
    ensures
        result == if selection_source is Some {
            selection_source
        } else {
            source
        },
{
    match selection_source {
        Some(source) => Some(source),
        None => source,
    }
}

/// The selection that a target plays.
pub open spec fn selection_of(target: PlaybackTarget) -> Option<MediaSelection> {
    match target {
        PlaybackTarget::AlbumKey(id) => Some(MediaSelection::Album(id)),
        PlaybackTarget::ArtistKey(id, album_artists) => Some(
            MediaSelection::Artist { id, album_artists },
        ),
        PlaybackTarget::Playlist(id) => Some(MediaSelection::Playlist(id)),
        PlaybackTarget::Genre(id) => Some(MediaSelection::Genre(id)),
        PlaybackTarget::SmartPlaylist(id) => Some(MediaSelection::SmartPlaylist(id)),
        _ => None,
    }
}

/// What is put into a playlist is what was selected.
pub proof fn targets_are_what_was_selected(selection: MediaSelection)
    ensures
        selection_of(target_of(selection)) == Some(selection),
{
}

} // verus!
