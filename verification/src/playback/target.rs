//! Explicit collections as inputs of the queue.

use vstd::prelude::*;
use vstd::string::*;

use crate::playback::plex::QueuePlacement;
use crate::text::{decimal, decimal_text, joined};

verus! {

/// What can be played as a whole. Keys are those of the library's rows.
#[derive(Debug, PartialEq)]
pub enum PlaybackTarget {
    Track(String),
    Album(String),
    AlbumKey(i64),
    Artist(String),
    AlbumArtist(String),
    ArtistKey(i64, bool),
    Genre(i64),
    Mood(i64),
    Playlist(i64),
    SmartPlaylist(i64),
    /// A target that is played as a part of something else.
    Contextual { target: Box<PlaybackTarget>, context_id: String },
}

/// A collection whose tracks are queued.
#[derive(Debug, PartialEq)]
pub enum QueueCollection {
    Album(String),
    AlbumKey(i64),
    Artist { media_uri: String, album_artist: bool },
    ArtistKey { key: i64, album_artist: bool },
    Genre(i64),
    Mood(i64),
    Playlist(i64),
}

/// What the queue is filled with.
#[derive(Debug, PartialEq)]
pub enum QueueInput {
    Uris { order: Vec<String>, context_id: String, source_start: usize },
    Collection { collection: QueueCollection, folder: Option<i64>, context_id: String },
    Smart { key: i64, source: Option<i64>, folder: Option<i64>, now: i64, context_id: String },
}

/// What is played, from which of its entries, and where it goes in the queue.
pub struct PlayRequest {
    pub input: QueueInput,
    pub anchor: usize,
    pub placement: QueuePlacement,
    /// Playback may start anywhere where the queue is shuffled.
    pub shuffled_start: bool,
}

/// Where the media of a target come from.
pub enum MediaUris {
    Known(Vec<String>),
    /// The library lists them.
    Listed(QueueInput),
}

/// A number with its sign.
pub open spec fn signed_decimal(n: i64) -> Seq<char> {
    if n < 0 {
        "-"@ + decimal((-n) as nat)
    } else {
        decimal(n as nat)
    }
}

pub fn signed_text(n: i64) -> (result: String)
    ensures
        result@ == signed_decimal(n),
{
    if n < 0 {
        let size: u64 = if n == i64::MIN {
            0x8000_0000_0000_0000
        } else {
            (-n) as u64
        };
        joined("-", decimal_text(size).as_str())
    } else {
        decimal_text(n as u64)
    }
}

impl PlaybackTarget {
    /// The target itself, without its context.
    pub open spec fn inner(self) -> Self {
        match self {
            PlaybackTarget::Contextual { target, .. } => *target,
            _ => self,
        }
    }

    /// A context stands around a target, not around another context.
    pub open spec fn wf(self) -> bool {
        !(self.inner() is Contextual)
    }

    /// The name of what is played.
    pub open spec fn context(self) -> Seq<char> {
        match self {
            PlaybackTarget::Track(id) => "track:"@ + id@,
            PlaybackTarget::Album(id) => "album:"@ + id@,
            PlaybackTarget::AlbumKey(id) => "album-key:"@ + signed_decimal(id),
            PlaybackTarget::Artist(id) => "artist:"@ + id@,
            PlaybackTarget::AlbumArtist(id) => "album-artist:"@ + id@,
            PlaybackTarget::ArtistKey(id, album_artist) => "artist-key:"@ + signed_decimal(id)
                + ":"@ + (if album_artist {
                "true"@
            } else {
                "false"@
            }),
            PlaybackTarget::Genre(id) => "genre:"@ + signed_decimal(id),
            PlaybackTarget::Mood(id) => "mood:"@ + signed_decimal(id),
            PlaybackTarget::Playlist(id) => "playlist:"@ + signed_decimal(id),
            PlaybackTarget::SmartPlaylist(id) => "smart-playlist:"@ + signed_decimal(id),
            PlaybackTarget::Contextual { context_id, .. } => context_id@,
        }
    }

    pub fn in_context(self, context_id: String) -> (result: Self)
        ensures
            result == (PlaybackTarget::Contextual { target: Box::new(self), context_id }),
            result.inner() == self,
            result.context() == context_id@,
    {
        PlaybackTarget::Contextual { target: Box::new(self), context_id }
    }

    pub fn context_id(&self) -> (result: String)
        ensures
            result@ == self.context(),
    {
        match self {
            PlaybackTarget::Track(id) => joined("track:", id.as_str()),
            PlaybackTarget::Album(id) => joined("album:", id.as_str()),
            PlaybackTarget::AlbumKey(id) => joined("album-key:", signed_text(*id).as_str()),
            PlaybackTarget::Artist(id) => joined("artist:", id.as_str()),
            PlaybackTarget::AlbumArtist(id) => joined("album-artist:", id.as_str()),
            PlaybackTarget::ArtistKey(id, album_artist) => {
                let mut text = joined("artist-key:", signed_text(*id).as_str());
                text.append(":");
                if *album_artist {
                    text.append("true");
                } else {
                    text.append("false");
                }
                text
            },
            PlaybackTarget::Genre(id) => joined("genre:", signed_text(*id).as_str()),
            PlaybackTarget::Mood(id) => joined("mood:", signed_text(*id).as_str()),
            PlaybackTarget::Playlist(id) => joined("playlist:", signed_text(*id).as_str()),
            PlaybackTarget::SmartPlaylist(id) => joined(
                "smart-playlist:",
                signed_text(*id).as_str(),
            ),
            PlaybackTarget::Contextual { context_id, .. } => context_id.clone(),
        }
    }

    /// The collection that a target is, where it is neither a track nor a smart playlist.
    pub open spec fn collection(self) -> Option<QueueCollection> {
        match self {
            PlaybackTarget::Album(uri) => Some(QueueCollection::Album(uri)),
            PlaybackTarget::AlbumKey(key) => Some(QueueCollection::AlbumKey(key)),
            PlaybackTarget::ArtistKey(key, album_artist) => Some(
                QueueCollection::ArtistKey { key, album_artist },
            ),
            PlaybackTarget::Artist(uri) => Some(
                QueueCollection::Artist { media_uri: uri, album_artist: false },
            ),
            PlaybackTarget::AlbumArtist(uri) => Some(
                QueueCollection::Artist { media_uri: uri, album_artist: true },
            ),
            PlaybackTarget::Genre(key) => Some(QueueCollection::Genre(key)),
            PlaybackTarget::Mood(key) => Some(QueueCollection::Mood(key)),
            PlaybackTarget::Playlist(key) => Some(QueueCollection::Playlist(key)),
            _ => None,
        }
    }

    /// The input is the right one for the target.
    pub open spec fn gives(
        self,
        source: Option<i64>,
        folder: Option<i64>,
        now: i64,
        input: QueueInput,
    ) -> bool {
        match self.inner() {
            PlaybackTarget::SmartPlaylist(key) => input matches QueueInput::Smart {
                key: k,
                source: s,
                folder: f,
                now: n,
                context_id,
            } && k == key && s == source && f == folder && n == now && context_id@
                == self.context(),
            PlaybackTarget::Track(uri) => input matches QueueInput::Uris {
                order,
                context_id,
                source_start,
            } && order@ == seq![uri] && context_id@ == self.context() && source_start == 0,
            _ => input matches QueueInput::Collection { collection, folder: f, context_id }
                && self.inner().collection() == Some(collection) && f is None && context_id@
                == self.context(),
        }
    }

    /// What the queue is filled with. A collection is always taken whole; only a smart playlist
    /// looks at the current source and folder, and at the time.
    pub fn queue_input(&self, source: Option<i64>, folder: Option<i64>, now: i64) -> (result:
        QueueInput)
        requires
            self.wf(),
        ensures
            self.gives(source, folder, now, result),
    {
        let context_id = self.context_id();
        let target: &PlaybackTarget = match self {
            PlaybackTarget::Contextual { target, .. } => &**target,
            _ => self,
        };
        let collection = match target {
            PlaybackTarget::SmartPlaylist(key) => {
                return QueueInput::Smart { key: *key, source, folder, now, context_id };
            },
            PlaybackTarget::Track(uri) => {
                let mut order: Vec<String> = Vec::new();
                order.push(uri.clone());
                assert(order@ =~= seq![*uri]);
                return QueueInput::Uris { order, context_id, source_start: 0 };
            },
            PlaybackTarget::Album(uri) => QueueCollection::Album(uri.clone()),
            PlaybackTarget::AlbumKey(key) => QueueCollection::AlbumKey(*key),
            PlaybackTarget::ArtistKey(key, album_artist) => QueueCollection::ArtistKey {
                key: *key,
                album_artist: *album_artist,
            },
            PlaybackTarget::Artist(uri) => QueueCollection::Artist {
                media_uri: uri.clone(),
                album_artist: false,
            },
            PlaybackTarget::AlbumArtist(uri) => QueueCollection::Artist {
                media_uri: uri.clone(),
                album_artist: true,
            },
            PlaybackTarget::Genre(key) => QueueCollection::Genre(*key),
            PlaybackTarget::Mood(key) => QueueCollection::Mood(*key),
            PlaybackTarget::Playlist(key) => QueueCollection::Playlist(*key),
            PlaybackTarget::Contextual { .. } => {
                assert(false);
                QueueCollection::Genre(0)
            },
        };
        QueueInput::Collection { collection, folder: None, context_id }
    }

    /// How the target is played: from its start, which may be anywhere where it is shuffled.
    pub fn play(
        &self,
        source: Option<i64>,
        folder: Option<i64>,
        now: i64,
        placement: QueuePlacement,
    ) -> (result: PlayRequest)
        requires
            self.wf(),
        ensures
            self.gives(source, folder, now, result.input),
            result.anchor == 0,
            result.placement == placement,
            result.shuffled_start,
    {
        PlayRequest {
            input: self.queue_input(source, folder, now),
            anchor: 0,
            placement,
            shuffled_start: true,
        }
    }

    /// Where the media of the target come from: a track is its own, others are for the library to
    /// list.
    pub fn resolve_media_uris(&self, source: Option<i64>, folder: Option<i64>, now: i64) -> (result:
        MediaUris)
        requires
            self.wf(),
        ensures
            match self.inner() {
                PlaybackTarget::Track(uri) => result matches MediaUris::Known(order) && order@
                    == seq![uri],
                _ => result matches MediaUris::Listed(input) && self.gives(
                    source,
                    folder,
                    now,
                    input,
                ),
            },
    {
        match self.queue_input(source, folder, now) {
            QueueInput::Uris { order, .. } => MediaUris::Known(order),
            input => MediaUris::Listed(input),
        }
    }
}

/// Inputs that fill the queue alike.
pub open spec fn same_input(a: QueueInput, b: QueueInput) -> bool {
    match (a, b) {
        (
            QueueInput::Uris { order: x, context_id: c, source_start: s },
            QueueInput::Uris { order: y, context_id: d, source_start: t },
        ) => x@ == y@ && c@ == d@ && s == t,
        (
            QueueInput::Collection { collection: x, folder: f, context_id: c },
            QueueInput::Collection { collection: y, folder: g, context_id: d },
        ) => x == y && f == g && c@ == d@,
        (
            QueueInput::Smart { key: k, source: s, folder: f, now: n, context_id: c },
            QueueInput::Smart { key: l, source: t, folder: g, now: m, context_id: d },
        ) => k == l && s == t && f == g && n == m && c@ == d@,
        _ => false,
    }
}

/// An explicit collection, or a track, is the same whatever source and folder are current, and at
/// every time.
pub proof fn explicit_collections_keep_their_scope(
    target: PlaybackTarget,
    source: Option<i64>,
    folder: Option<i64>,
    now: i64,
    other_source: Option<i64>,
    other_folder: Option<i64>,
    later: i64,
    a: QueueInput,
    b: QueueInput,
)
    requires
        target.wf(),
        !(target.inner() is SmartPlaylist),
        target.gives(source, folder, now, a),
        target.gives(other_source, other_folder, later, b),
    ensures
        same_input(a, b),
{
}

/// The target that plays a collection.
pub open spec fn target_for(collection: QueueCollection) -> PlaybackTarget {
    match collection {
        QueueCollection::Album(uri) => PlaybackTarget::Album(uri),
        QueueCollection::AlbumKey(key) => PlaybackTarget::AlbumKey(key),
        QueueCollection::Artist { media_uri, album_artist: true } => PlaybackTarget::AlbumArtist(
            media_uri,
        ),
        QueueCollection::Artist { media_uri, album_artist: false } => PlaybackTarget::Artist(
            media_uri,
        ),
        QueueCollection::ArtistKey { key, album_artist } => PlaybackTarget::ArtistKey(
            key,
            album_artist,
        ),
        QueueCollection::Genre(key) => PlaybackTarget::Genre(key),
        QueueCollection::Mood(key) => PlaybackTarget::Mood(key),
        QueueCollection::Playlist(key) => PlaybackTarget::Playlist(key),
    }
}

/// What the queue is filled with can be told back to what was to be played: the one track, the
/// collection, or the smart playlist as it is in the current source and folder at the time; and it
/// carries the name of its context.
pub proof fn inputs_are_what_was_to_be_played(
    target: PlaybackTarget,
    source: Option<i64>,
    folder: Option<i64>,
    now: i64,
    input: QueueInput,
)
    requires
        target.wf(),
        target.gives(source, folder, now, input),
    ensures
        match input {
            QueueInput::Uris { order, context_id, source_start } => {
                &&& order@.len() == 1 && target.inner() == PlaybackTarget::Track(order@[0])
                &&& source_start == 0
                &&& context_id@ == target.context()
            },
            QueueInput::Collection { collection, folder: within, context_id } => {
                &&& target.inner() == target_for(collection)
                &&& within is None
                &&& context_id@ == target.context()
            },
            QueueInput::Smart { key, source: from, folder: within, now: at, context_id } => {
                &&& target.inner() == PlaybackTarget::SmartPlaylist(key)
                &&& from == source && within == folder && at == now
                &&& context_id@ == target.context()
            },
        },
{
}

} // verus!
