//! Favorites, radio, random play and covers over HTTP.

use vstd::prelude::*;

use crate::api::listing::{
    earlier, filter, filter_text, number_refusal, number_value, refusal_of, required_text, row_in,
    scope_refusal, scope_where, source_scope, told, Scope,
};
use crate::api::parameters::{bad_request, filled, given, key, number, ApiError, Parameters};
use crate::playback::plex::{QueuePlacement, QueueReorderTarget};
use crate::text::same;

verus! {

/// What can be a favorite.
#[derive(Clone, Copy, Debug, PartialEq, Eq, Structural)]
pub enum FavoriteKind {
    Track,
    Album,
    Artist,
}

pub open spec fn favorite_named(kind: Seq<char>) -> Option<FavoriteKind> {
    if kind == "track"@ {
        Some(FavoriteKind::Track)
    } else if kind == "album"@ {
        Some(FavoriteKind::Album)
    } else if kind == "artist"@ {
        Some(FavoriteKind::Artist)
    } else {
        None
    }
}

pub fn favorite(kind: &str) -> (result: Result<FavoriteKind, ApiError>)
    ensures
        match favorite_named(kind@) {
            Some(kind) => result == Ok::<FavoriteKind, ApiError>(kind),
            None => result matches Err(error) && error.status == 400 && error.message@
                == "Unknown favorite type"@,
        },
{
    if same(kind, "track") {
        Ok(FavoriteKind::Track)
    } else if same(kind, "album") {
        Ok(FavoriteKind::Album)
    } else if same(kind, "artist") {
        Ok(FavoriteKind::Artist)
    } else {
        Err(bad_request("Unknown favorite type"))
    }
}

pub open spec fn placement_named(mode: Seq<char>) -> Option<QueuePlacement> {
    if mode == "replace"@ {
        Some(QueuePlacement::Now)
    } else if mode == "next"@ {
        Some(QueuePlacement::Next)
    } else if mode == "append"@ {
        Some(QueuePlacement::Last)
    } else {
        None
    }
}

fn read_placement(mode: &str) -> (result: Result<QueuePlacement, ApiError>)
    ensures
        match placement_named(mode@) {
            Some(placement) => result == Ok::<QueuePlacement, ApiError>(placement),
            None => result matches Err(error) && error.status == 400 && error.message@
                == "Queue mode must be replace, append or next"@,
        },
{
    if same(mode, "replace") {
        Ok(QueuePlacement::Now)
    } else if same(mode, "next") {
        Ok(QueuePlacement::Next)
    } else if same(mode, "append") {
        Ok(QueuePlacement::Last)
    } else {
        Err(bad_request("Queue mode must be replace, append or next"))
    }
}

/// Where the tracks of a radio go: they replace the queue unless something else is asked for.
pub fn radio(mode: Option<&str>) -> (result: Result<QueuePlacement, ApiError>)
    ensures
        match mode {
            None => result == Ok::<QueuePlacement, ApiError>(QueuePlacement::Now),
            Some(mode) => match placement_named(mode@) {
                Some(placement) => result == Ok::<QueuePlacement, ApiError>(placement),
                None => result matches Err(error) && error.status == 400 && error.message@
                    == "Queue mode must be replace, append or next"@,
            },
        },
{
    match mode {
        None => Ok(QueuePlacement::Now),
        Some(mode) => read_placement(mode),
    }
}

/// A random play: where it looks, where its tracks go, and how many there are at most.
#[derive(Clone, Copy, Debug, PartialEq, Eq, Structural)]
pub struct RandomPlay {
    pub scope: Scope,
    pub placement: QueuePlacement,
    pub requested: usize,
}

/// What a random play is, or why it is refused.
pub open spec fn random_play(
    scope: Result<Scope, (u16, Seq<char>)>,
    mode: Seq<char>,
    count: usize,
) -> Result<RandomPlay, (u16, Seq<char>)> {
    match scope {
        Err(refused) => Err(refused),
        Ok(scope) => match placement_named(mode) {
            Some(placement) => Ok(
                RandomPlay {
                    scope,
                    placement,
                    requested: if count > 500 {
                        500
                    } else {
                        count
                    },
                },
            ),
            None => Err((400, "Queue mode must be replace, append or next"@)),
        },
    }
}

/// Reads a random play, from what a lookup of its scope gave.
pub fn random(scope: Result<Scope, ApiError>, mode: &str, count: usize) -> (result: Result<
    RandomPlay,
    ApiError,
>)
    ensures
        told(result) == random_play(told(scope), mode@, count),
{
    let scope: Scope = match scope {
        Ok(scope) => scope,
        Err(error) => {
            return Err(error);
        },
    };
    match read_placement(mode) {
        Ok(placement) => Ok(
            RandomPlay {
                scope,
                placement,
                requested: if count > 500 {
                    500
                } else {
                    count
                },
            },
        ),
        Err(error) => Err(error),
    }
}

/// The genres that a random play can be limited to.
pub struct GenrePage {
    pub scope: Scope,
    pub filter: String,
    pub offset: usize,
    pub limit: usize,
}

/// Reads a request for the genres of random plays, from what a lookup of its scope gave.
pub fn random_settings(parameters: &Parameters, scope: Result<Scope, ApiError>) -> (result: Result<
    GenrePage,
    ApiError,
>)
    requires
        parameters.wf(),
    ensures
        refusal_of(told(result)) == earlier(
            refusal_of(told(scope)),
            number_refusal(parameters@, "offset"@),
        ),
        result matches Ok(page) ==> page.scope == scope->Ok_0 && page.filter@ == filter_text(
            parameters@,
        ) && page.offset == number_value(parameters@, "offset"@, 0) && page.limit == 64,
{
    let scope: Scope = match scope {
        Ok(scope) => scope,
        Err(error) => {
            return Err(error);
        },
    };
    match number(parameters, "offset", 0) {
        Ok(offset) => Ok(GenrePage { scope, filter: filter(parameters), offset, limit: 64 }),
        Err(error) => Err(error),
    }
}

/// Where reordered entries go: before one, or to the end.
pub fn reorder_target(before: Option<String>) -> (result: QueueReorderTarget)
    ensures
        result == match before {
            Some(id) => QueueReorderTarget::Before(id),
            None => QueueReorderTarget::End,
        },
{
    match before {
        Some(id) => QueueReorderTarget::Before(id),
        None => QueueReorderTarget::End,
    }
}

/// Whose cover is asked for.
pub enum CoverOf {
    Playlist(i64),
    SmartPlaylist { id: i64, source: Option<i64> },
    Artist(String),
    Album(String),
    Track(String),
}

/// The parameter that names the playlist whose cover is asked for.
pub open spec fn cover_key(p: Map<Seq<char>, String>) -> Seq<char> {
    if given(p, "playlist"@) is None && given(p, "smart_playlist"@) is Some {
        "smart_playlist"@
    } else {
        "playlist"@
    }
}

/// Whose cover is asked for: that of a playlist where one is named. Otherwise the kind of the
/// entity behind the URI decides.
pub open spec fn cover_of(
    p: Map<Seq<char>, String>,
    id: Result<i64, (u16, Seq<char>)>,
    scope: Result<Scope, (u16, Seq<char>)>,
    kind: Option<Seq<char>>,
) -> Result<CoverOf, (u16, Seq<char>)> {
    if given(p, "playlist"@) is Some {
        match id {
            Ok(id) => Ok(CoverOf::Playlist(id)),
            Err(refused) => Err(refused),
        }
    } else if given(p, "smart_playlist"@) is Some {
        match (scope_refusal(p, "source"@, scope), id) {
            (Some(refused), _) => Err(refused),
            (None, Err(refused)) => Err(refused),
            (None, Ok(id)) => Ok(
                CoverOf::SmartPlaylist { id, source: source_scope(p, scope).source },
            ),
        }
    } else if !filled(p, "uri"@) {
        Err((400, "uri"@ + " is required"@))
    } else if kind == Some("artist"@) {
        Ok(CoverOf::Artist(p["uri"@]))
    } else if kind == Some("album"@) {
        Ok(CoverOf::Album(p["uri"@]))
    } else {
        Ok(CoverOf::Track(p["uri"@]))
    }
}

/// Decides whose cover is asked for, from what the key of a playlist says, what a lookup of the
/// scope gave and what the URI names.
pub fn cover(
    parameters: &Parameters,
    id: Result<i64, ApiError>,
    scope: Result<Scope, ApiError>,
    kind: Option<&str>,
) -> (result: Result<CoverOf, ApiError>)
    requires
        parameters.wf(),
    ensures
        told(result) == cover_of(
            parameters@,
            told(id),
            told(scope),
            match kind {
                Some(kind) => Some(kind@),
                None => None,
            },
        ),
{
    if parameters.contains("playlist") {
        return match id {
            Ok(id) => Ok(CoverOf::Playlist(id)),
            Err(error) => Err(error),
        };
    }
    if parameters.contains("smart_playlist") {
        let found: Scope = match scope_where(parameters, "source", scope) {
            Ok(scope) => scope,
            Err(error) => {
                return Err(error);
            },
        };
        return match id {
            Ok(id) => Ok(CoverOf::SmartPlaylist { id, source: found.source }),
            Err(error) => Err(error),
        };
    }
    let uri: String = match required_text(parameters, "uri") {
        Ok(uri) => uri,
        Err(error) => {
            return Err(error);
        },
    };
    match kind {
        Some(kind) => if same(kind, "artist") {
            Ok(CoverOf::Artist(uri))
        } else if same(kind, "album") {
            Ok(CoverOf::Album(uri))
        } else {
            Ok(CoverOf::Track(uri))
        },
        None => Ok(CoverOf::Track(uri)),
    }
}

/// Decides whose cover is asked for, from what a lookup of the scope gave and what the URI names.
pub fn artwork(parameters: &Parameters, scope: Result<Scope, ApiError>, kind: Option<&str>) -> (result:
    Result<CoverOf, ApiError>)
    requires
        parameters.wf(),
    ensures
        told(result) == cover_of(
            parameters@,
            row_in(parameters@, cover_key(parameters@)),
            told(scope),
            match kind {
                Some(kind) => Some(kind@),
                None => None,
            },
        ),
{
    let named: &str = if !parameters.contains("playlist") && parameters.contains("smart_playlist") {
        "smart_playlist"
    } else {
        "playlist"
    };
    cover(parameters, key(parameters, named), scope, kind)
}

/// The cover of a playlist: its own, or that of the first track that has one.
pub fn playlist_cover(own: Option<Vec<u8>>, representative: Option<Vec<u8>>) -> (result: Option<
    Vec<u8>,
>)
    ensures
        result == if own is Some {
            own
        } else {
            representative
        },
{
    match own {
        Some(own) => Some(own),
        None => representative,
    }
}

/// Where the lyrics of the current track stand.
#[derive(Clone, Copy, Debug, PartialEq, Eq, Structural)]
pub enum LyricsState {
    Cleared,
    Loading,
    /// The lyrics were looked for, and there are none.
    Missing,
    Instrumental,
    Document,
}

impl LyricsState {
    pub open spec fn label(self) -> Seq<char> {
        match self {
            LyricsState::Cleared => "empty"@,
            LyricsState::Loading => "loading"@,
            LyricsState::Missing => "empty"@,
            LyricsState::Instrumental => "instrumental"@,
            LyricsState::Document => "ready"@,
        }
    }

    /// The state that clients are told.
    pub fn name(self) -> (result: &'static str)
        ensures
            result@ == self.label(),
    {
        match self {
            LyricsState::Cleared => "empty",
            LyricsState::Loading => "loading",
            LyricsState::Missing => "empty",
            LyricsState::Instrumental => "instrumental",
            LyricsState::Document => "ready",
        }
    }

    /// Whether the entry that the lyrics are for is named.
    pub fn names_entry(self) -> (result: bool)
        ensures
            result == (self != LyricsState::Cleared),
    {
        self != LyricsState::Cleared
    }
}

/// The size in which lyrics are shown.
pub fn lyrics_font_size(chosen: Option<u32>) -> (result: u32)
    ensures
        result == match chosen {
            Some(size) => size,
            None => 19,
        },
{
    match chosen {
        Some(size) => size,
        None => 19,
    }
}

/// Whose names are shown for a track: its artists, or those of its album where it has none.
pub fn shows_album_artists(artists: usize) -> (result: bool)
    ensures
        result == (artists == 0),
{
    artists == 0
}

} // verus!
