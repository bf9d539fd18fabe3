//! Which part of the player owns a playlist, and what a change of one leads to.

use vstd::prelude::*;

verus! {

/// Who keeps a playlist: the library itself, for a source or none, or the source's server.
#[derive(Clone, Copy, Debug, PartialEq, Eq, Structural)]
pub enum PlaylistOwner {
    Local(Option<i64>),
    Server(i64),
}

impl PlaylistOwner {
    pub open spec fn source(self) -> Option<i64> {
        match self {
            PlaylistOwner::Local(key) => key,
            PlaylistOwner::Server(key) => Some(key),
        }
    }

    pub fn source_key(self) -> (result: Option<i64>)
        ensures
            result == self.source(),
    {
        match self {
            PlaylistOwner::Local(key) => key,
            PlaylistOwner::Server(key) => Some(key),
        }
    }
}

/// Playlists of a library of files are kept here, others by their server.
pub fn configured_playlist_owner(file_library: bool, key: i64) -> (result: PlaylistOwner)
    ensures
        result == if file_library {
            PlaylistOwner::Local(Some(key))
        } else {
            PlaylistOwner::Server(key)
        },
{
    if file_library {
        PlaylistOwner::Local(Some(key))
    } else {
        PlaylistOwner::Server(key)
    }
}

/// What the library says of a playlist: whether it exists, and the source's row and identity.
#[derive(Clone, Copy, Debug, PartialEq, Eq, Structural)]
pub struct StoredOwner {
    pub source_key: Option<i64>,
    pub has_identity: bool,
    /// The source holds files rather than being a server.
    pub file_library: bool,
}

/// The owner of a playlist, or why it has none.
pub open spec fn owner_stored(stored: Option<StoredOwner>) -> Result<PlaylistOwner, Seq<char>> {
    match stored {
        None => Err("Playlist no longer exists"@),
        Some(owner) => match (owner.source_key, owner.has_identity) {
            (None, false) => Ok(PlaylistOwner::Local(None)),
            (Some(key), true) => Ok(
                if owner.file_library {
                    PlaylistOwner::Local(Some(key))
                } else {
                    PlaylistOwner::Server(key)
                },
            ),
            _ => Err("Playlist owner is unavailable"@),
        },
    }
}

/// The owner of a playlist.
pub fn playlist_source(stored: Option<StoredOwner>) -> (result: Result<PlaylistOwner, &'static str>)
    ensures
        match owner_stored(stored) {
            Ok(owner) => result matches Ok(target) && target == owner,
            Err(message) => result matches Err(error) && error@ == message,
        },
{
    let owner = match stored {
        Some(owner) => owner,
        None => {
            return Err("Playlist no longer exists");
        },
    };
    match (owner.source_key, owner.has_identity) {
        (None, false) => Ok(PlaylistOwner::Local(None)),
        (Some(key), true) => Ok(configured_playlist_owner(owner.file_library, key)),
        _ => Err("Playlist owner is unavailable"),
    }
}

/// What a change of a playlist leads to.
#[derive(Clone, Copy, Debug, PartialEq, Eq, Structural)]
pub enum Publication {
    Nothing,
    /// The failure is shown.
    Warn,
    /// The scan of the selected source is taken over.
    AcceptScan,
    /// The playlists are announced as changed.
    Announce,
}

/// Decides what follows a change. `result` says whether something changed, or none where it failed;
/// `scanned` whether the source was scanned; `selected` is the source that is shown.
pub fn accept_playlist_result(
    result: Option<bool>,
    scanned: bool,
    source: Option<i64>,
    selected: Option<i64>,
) -> (publication: Publication)
    ensures
        publication == match result {
            None => Publication::Warn,
            Some(false) => Publication::Nothing,
            Some(true) => if scanned && selected is Some && selected == source {
                Publication::AcceptScan
            } else {
                Publication::Announce
            },
        },
{
    match result {
        None => Publication::Warn,
        Some(changed) => {
            if !changed {
                return Publication::Nothing;
            }
            let shown: bool = match (selected, source) {
                (Some(selected), Some(source)) => selected == source,
                _ => false,
            };
            if scanned && shown {
                Publication::AcceptScan
            } else {
                Publication::Announce
            }
        },
    }
}

/// A change of a playlist.
#[derive(Clone, Copy, Debug, PartialEq, Eq, Structural)]
pub enum PlaylistChange {
    Rename,
    Delete,
    RemoveEntries,
    MoveEntry,
}

/// Whether files that no playlist holds any more are looked for: after entries have gone.
pub fn prunes(change: PlaylistChange, result: Option<bool>) -> (prunes: bool)
    ensures
        prunes == (result == Some(true) && (change == PlaylistChange::Delete || change
            == PlaylistChange::RemoveEntries)),
{
    let removes: bool = match change {
        PlaylistChange::Delete | PlaylistChange::RemoveEntries => true,
        PlaylistChange::Rename | PlaylistChange::MoveEntry => false,
    };
    match result {
        Some(changed) => changed && removes,
        None => false,
    }
}

/// The owner of a new playlist, or why there is none.
pub open spec fn owner_created(source_given: bool, cached: Option<i64>, file_library: bool) -> Result<
    PlaylistOwner,
    Seq<char>,
> {
    if !source_given {
        Ok(PlaylistOwner::Local(None))
    } else {
        match cached {
            None => Err("Source access is unavailable"@),
            Some(key) => Ok(
                if file_library {
                    PlaylistOwner::Local(Some(key))
                } else {
                    PlaylistOwner::Server(key)
                },
            ),
        }
    }
}

/// Where a new playlist is kept. `cached` is the row of its source, where the library has one.
pub fn create_playlist(source_given: bool, cached: Option<i64>, file_library: bool) -> (result:
    Result<PlaylistOwner, &'static str>)
    ensures
        match owner_created(source_given, cached, file_library) {
            Ok(owner) => result matches Ok(target) && target == owner,
            Err(message) => result matches Err(error) && error@ == message,
        },
{
    if !source_given {
        return Ok(PlaylistOwner::Local(None));
    }
    match cached {
        Some(key) => Ok(configured_playlist_owner(file_library, key)),
        None => Err("Source access is unavailable"),
    }
}

/// Why tracks could not be added to a playlist.
pub enum AddFailure {
    /// They are of another source than the named one, which the playlist belongs to.
    SourceMismatch(String),
    Other(String),
}

/// What adding tracks leads to.
pub enum Added {
    /// The change is shown as that of any playlist; something changed or did not.
    Accept { changed: bool },
    /// The user is told of the source that the playlist belongs to.
    SourceMismatch(String),
    Warn(String),
}

/// What adding tracks leads to: `result` is the number of tracks that were taken.
pub fn add_playlist_tracks(result: Result<usize, AddFailure>) -> (added: Added)
    ensures
        added == match result {
            Ok(count) => Added::Accept { changed: count > 0 },
            Err(AddFailure::SourceMismatch(source)) => Added::SourceMismatch(source),
            Err(AddFailure::Other(error)) => Added::Warn(error),
        },
{
    match result {
        Ok(count) => Added::Accept { changed: count > 0 },
        Err(AddFailure::SourceMismatch(source)) => Added::SourceMismatch(source),
        Err(AddFailure::Other(error)) => Added::Warn(error),
    }
}

/// What follows a page of an imported playlist's files.
#[derive(Clone, Copy, Debug, PartialEq, Eq, Structural)]
pub enum Enrichment {
    /// No file of the playlist can be read here.
    Nothing,
    /// The files are read through a source of local files; where there is none, one is set up.
    Import { sets_up_source: bool },
    /// The page behind this place is looked at.
    PageAfter(i64),
}

/// Decides what follows a page: `last` is the place of its last file, where it has any.
pub fn enrich_imported_playlist(last: Option<i64>, readable: bool, has_local_source: bool) -> (result:
    Enrichment)
    ensures
        result == match last {
            None => Enrichment::Nothing,
            Some(last) => if readable {
                Enrichment::Import { sets_up_source: !has_local_source }
            } else {
                Enrichment::PageAfter(last)
            },
        },
{
    match last {
        None => Enrichment::Nothing,
        Some(last) => if readable {
            Enrichment::Import { sets_up_source: !has_local_source }
        } else {
            Enrichment::PageAfter(last)
        },
    }
}

/// Whether the selected source shows what pruning changed.
pub fn prune_shows(selected_is_local: bool, changed: bool) -> (result: bool)
    ensures
        result == (selected_is_local && changed),
{
    selected_is_local && changed
}

/// A playlist is found again where it was made: the owner that the library has stored of it is the
/// one that it was created for, the server of its source, or this device for that source or for none.
pub proof fn playlists_are_found_where_they_were_made(
    source: Option<i64>,
    file_library: bool,
    owner: PlaylistOwner,
)
    requires
        owner_created(source is Some, source, file_library) == Ok::<PlaylistOwner, Seq<char>>(owner),
    ensures
        owner.source() == source,
        owner is Server <==> source is Some && !file_library,
        owner_stored(
            Some(
                StoredOwner {
                    source_key: source,
                    has_identity: source is Some,
                    file_library,
                },
            ),
        ) == Ok::<PlaylistOwner, Seq<char>>(owner),
{
}

} // verus!
