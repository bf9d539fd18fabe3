//! What pages of the library hold: each request gets what it names.

use vstd::prelude::*;
use vstd::string::*;

use crate::api::catalog::{
    album_sort_of, artist_sort_of, list_sort_of, AlbumSort, ArtistSort, ListSort,
};
use crate::api::listing::{Listing, PageKind, PageRequest, Scope};
use crate::api::media::{
    cover_of, favorite_named, random_play, CoverOf, FavoriteKind, RandomPlay,
};
use crate::api::parameters::{given, ApiError, number_in, track_sort_of, TrackSort};
use crate::api::pins::{badge_of, is_shown, pins_shown, PinFacts, PinKind, SourceEntry};
use crate::api::queue::{
    entry_sort_of, plans, EntrySort, MediaKind, QueuePlan, QueueRequest, QueueSelection,
};
use crate::playback::plex::QueuePlacement;

verus! {

/// The name of an order of tracks.
pub open spec fn track_sort_name(sort: TrackSort) -> Seq<char> {
    match sort {
        TrackSort::Title => "title"@,
        TrackSort::TrackNumber => "track_number"@,
        TrackSort::Artist => "artist"@,
        TrackSort::AlbumArtist => "album_artist"@,
        TrackSort::Album => "album"@,
        TrackSort::Year => "year"@,
        TrackSort::ReleaseDate => "release_date"@,
        TrackSort::DateAdded => "date_added"@,
        TrackSort::LastPlayed => "last_played"@,
        TrackSort::PlayCount => "play_count"@,
        TrackSort::UserRating => "rating"@,
        TrackSort::Genre => "genre"@,
        TrackSort::Bpm => "bpm"@,
        TrackSort::Duration => "duration"@,
        TrackSort::Favorite => "favorite"@,
    }
}

/// The name of an order of albums.
pub open spec fn album_sort_name(sort: AlbumSort) -> Seq<char> {
    match sort {
        AlbumSort::Title => "title"@,
        AlbumSort::AlbumArtist => "album_artist"@,
        AlbumSort::Year => "year"@,
        AlbumSort::ReleaseDate => "release_date"@,
        AlbumSort::DateAdded => "date_added"@,
        AlbumSort::LastPlayed => "last_played"@,
        AlbumSort::PlayCount => "play_count"@,
        AlbumSort::Rating => "rating"@,
        AlbumSort::TrackCount => "track_count"@,
        AlbumSort::Duration => "duration"@,
        AlbumSort::Favorite => "favorite"@,
    }
}

/// The name of an order of artists.
pub open spec fn artist_sort_name(sort: ArtistSort) -> Seq<char> {
    match sort {
        ArtistSort::Title => "title"@,
        ArtistSort::AlbumCount => "album_count"@,
        ArtistSort::TrackCount => "track_count"@,
        ArtistSort::LastPlayed => "last_played"@,
        ArtistSort::PlayCount => "play_count"@,
        ArtistSort::Rating => "rating"@,
        ArtistSort::Favorite => "favorite"@,
    }
}

/// The name of an order of playlists.
pub open spec fn list_sort_name(sort: ListSort) -> Seq<char> {
    match sort {
        ListSort::Position => "position"@,
        ListSort::Title => "title"@,
        ListSort::TrackCount => "track_count"@,
        ListSort::Duration => "duration"@,
    }
}

/// The name of an order of a playlist's entries.
pub open spec fn entry_sort_name(sort: EntrySort) -> Seq<char> {
    match sort {
        EntrySort::Position => "position"@,
        EntrySort::Title => "title"@,
        EntrySort::Artist => "artist"@,
        EntrySort::Album => "album"@,
    }
}

/// An order is the one that is named, and every name of an order is known.
pub proof fn orders_are_those_that_were_named(
    value: Seq<char>,
    track: TrackSort,
    album: AlbumSort,
    artist: ArtistSort,
    list: ListSort,
    entry: EntrySort,
)
    ensures
        track_sort_of(value) matches Some(sort) ==> value == track_sort_name(sort),
        track_sort_of(track_sort_name(track)) is Some,
        album_sort_of(value) matches Some(sort) ==> value == album_sort_name(sort),
        album_sort_of(album_sort_name(album)) is Some,
        artist_sort_of(value) matches Some(sort) ==> value == artist_sort_name(sort),
        artist_sort_of(artist_sort_name(artist)) is Some,
        list_sort_of(value) matches Some(sort) ==> value == list_sort_name(sort),
        list_sort_of(list_sort_name(list)) is Some,
        entry_sort_of(value) matches Some(sort) ==> value == entry_sort_name(sort),
        entry_sort_of(entry_sort_name(entry)) is Some,
{
}

/// The order of a page is the one that the request names, where it names one.
pub open spec fn ordered_by(p: Map<Seq<char>, String>, name: Seq<char>) -> bool {
    given(p, "sort"@) matches Some(text) ==> text == name
}

/// A page lists what its kind says: the tracks of the source or the row that the request names, or
/// the albums, artists or playlists, in the order that it names.
pub proof fn pages_list_what_was_asked_for(
    kind: PageKind,
    p: Map<Seq<char>, String>,
    id: Result<i64, (u16, Seq<char>)>,
    scope: Result<Scope, (u16, Seq<char>)>,
    page: PageRequest,
)
    requires
        kind.refusal(p, id, scope) is None,
        kind.asks_for(p, id, scope, page),
    ensures
        match page.list {
            Listing::Tracks { source, folder, sort } => kind == PageKind::Tracks && given(
                p,
                "source"@,
            ) == Some(source@) && (match folder {
                Some(folder) => given(p, "folder"@) == Some(folder@),
                None => given(p, "folder"@) is None,
            }) && ordered_by(p, track_sort_name(sort)),
            Listing::Albums { sort } => kind == PageKind::Albums && ordered_by(
                p,
                album_sort_name(sort),
            ),
            Listing::AlbumTracks { album, sort } => kind == PageKind::AlbumTracks && id == Ok::<
                i64,
                (u16, Seq<char>),
            >(album) && ordered_by(p, track_sort_name(sort)),
            Listing::Artists { album_artists, sort } => kind == PageKind::Artists && ordered_by(
                p,
                artist_sort_name(sort),
            ) && (album_artists <==> given(p, "album_artists"@) == Some("true"@)),
            Listing::ArtistTracks { artist, album_artists, sort } => kind == PageKind::ArtistTracks
                && id == Ok::<i64, (u16, Seq<char>)>(artist) && ordered_by(
                p,
                track_sort_name(sort),
            ) && (album_artists <==> given(p, "album_artists"@) == Some("true"@)),
            Listing::GenreTracks { genre, sort } => kind == PageKind::GenreTracks && id == Ok::<
                i64,
                (u16, Seq<char>),
            >(genre) && ordered_by(p, track_sort_name(sort)),
            Listing::SmartPlaylists { sort } => kind == PageKind::SmartPlaylists && ordered_by(
                p,
                list_sort_name(sort),
            ),
            Listing::SmartTracks { playlist } => kind == PageKind::SmartTracks && id == Ok::<
                i64,
                (u16, Seq<char>),
            >(playlist),
            Listing::Playlists { sort } => kind == PageKind::Playlists && ordered_by(
                p,
                list_sort_name(sort),
            ),
            Listing::Entries { playlist, sort } => kind == PageKind::Entries && id == Ok::<
                i64,
                (u16, Seq<char>),
            >(playlist) && ordered_by(p, entry_sort_name(sort)),
            Listing::Folders { parent } => kind == PageKind::Folders && (match parent {
                Some(parent) => given(p, "parent"@) == Some(parent@),
                None => given(p, "parent"@) is None,
            }),
        },
{
}

/// A page starts where the request says, at the start where it does not, and is filtered by the text
/// that it gives; it looks only where the request names a place, and then there.
pub proof fn pages_start_where_they_were_asked_to(
    kind: PageKind,
    p: Map<Seq<char>, String>,
    id: Result<i64, (u16, Seq<char>)>,
    scope: Result<Scope, (u16, Seq<char>)>,
    page: PageRequest,
)
    requires
        kind.refusal(p, id, scope) is None,
        kind.asks_for(p, id, scope, page),
    ensures
        given(p, "offset"@) is None ==> page.offset == 0,
        given(p, "offset"@) matches Some(text) ==> (number_in(text, usize::MAX as nat) matches Ok(
            number,
        ) && page.offset == number),
        given(p, "limit"@) matches Some(text) ==> (number_in(text, usize::MAX as nat) matches Ok(
            number,
        ) && page.limit <= number),
        given(p, "q"@) matches Some(text) ==> page.filter@ == text,
        given(p, "q"@) is None ==> page.filter@.len() == 0,
        page.descending ==> given(p, "descending"@) == Some("true"@),
        page.favorites ==> given(p, "favorites"@) == Some("true"@),
        page.scope.folder is Some ==> (scope matches Ok(found) && found.folder
            == page.scope.folder),
        page.scope.source is Some ==> (scope matches Ok(found) && found.source
            == page.scope.source),
{
    reveal_strlit("");
}

/// The rows that a page shows of a list.
pub open spec fn rows_of(rows: Seq<int>, page: PageRequest) -> Seq<int> {
    rows.subrange(
        if page.offset < rows.len() {
            page.offset as int
        } else {
            rows.len() as int
        },
        if page.offset + page.limit < rows.len() {
            page.offset + page.limit
        } else {
            rows.len() as int
        },
    )
}

/// A page that starts where another ends goes on with the next row: together they show what one page
/// of both lengths would.
pub proof fn pages_follow_each_other(rows: Seq<int>, first: PageRequest, second: PageRequest)
    requires
        second.offset == first.offset + first.limit,
    ensures
        rows_of(rows, first) + rows_of(rows, second) == rows.subrange(
            if first.offset < rows.len() {
                first.offset as int
            } else {
                rows.len() as int
            },
            if second.offset + second.limit < rows.len() {
                second.offset + second.limit
            } else {
                rows.len() as int
            },
        ),
{
    assert(rows_of(rows, first) + rows_of(rows, second) =~= rows.subrange(
        if first.offset < rows.len() {
            first.offset as int
        } else {
            rows.len() as int
        },
        if second.offset + second.limit < rows.len() {
            second.offset + second.limit
        } else {
            rows.len() as int
        },
    ));
}

/// What can be a favorite is what was named.
pub proof fn favorites_are_those_that_were_named(kind: Seq<char>)
    ensures
        match favorite_named(kind) {
            Some(FavoriteKind::Track) => kind == "track"@,
            Some(FavoriteKind::Album) => kind == "album"@,
            Some(FavoriteKind::Artist) => kind == "artist"@,
            None => kind != "track"@ && kind != "album"@ && kind != "artist"@,
        },
{
}

/// A queue of entries once tracks were added to it.
pub open spec fn added(
    queue: Seq<int>,
    current: int,
    tracks: Seq<int>,
    placement: QueuePlacement,
) -> Seq<int> {
    match placement {
        QueuePlacement::Now | QueuePlacement::Replace => tracks,
        QueuePlacement::Next => queue.take(current + 1) + tracks + queue.skip(current + 1),
        QueuePlacement::Last => queue + tracks,
    }
}

/// The tracks of a radio or a random play take the place of the queue, come right behind the current
/// entry or behind all, as the mode says; there are never more of them than asked for, nor than five
/// hundred, and they are looked for where the request says.
pub proof fn random_tracks_go_where_they_were_asked_to(
    scope: Result<Scope, (u16, Seq<char>)>,
    mode: Seq<char>,
    count: usize,
    play: RandomPlay,
    queue: Seq<int>,
    current: int,
    tracks: Seq<int>,
)
    requires
        random_play(scope, mode, count) == Ok::<RandomPlay, (u16, Seq<char>)>(play),
        0 <= current < queue.len(),
    ensures
        scope == Ok::<Scope, (u16, Seq<char>)>(play.scope),
        play.requested <= count && play.requested <= 500,
        count <= 500 ==> play.requested == count,
        mode == "replace"@ || mode == "next"@ || mode == "append"@,
        mode == "replace"@ ==> added(queue, current, tracks, play.placement) == tracks,
        mode == "next"@ ==> added(queue, current, tracks, play.placement) == queue.take(current + 1)
            + tracks + queue.skip(current + 1),
        mode == "append"@ ==> added(queue, current, tracks, play.placement) == queue + tracks,
{
    reveal_strlit("replace");
    reveal_strlit("next");
    reveal_strlit("append");
    assert("replace"@[0] == 'r' && "next"@[0] == 'n' && "append"@[0] == 'a');
}

/// The cover is that of what the request names: the playlist, the smart playlist in its source, or
/// the item behind the URI, by its kind.
pub proof fn covers_are_those_of_what_was_named(
    p: Map<Seq<char>, String>,
    id: Result<i64, (u16, Seq<char>)>,
    scope: Result<Scope, (u16, Seq<char>)>,
    kind: Option<Seq<char>>,
)
    ensures
        cover_of(p, id, scope, kind) matches Ok(cover) ==> match cover {
            CoverOf::Playlist(row) => given(p, "playlist"@) is Some && id == Ok::<
                i64,
                (u16, Seq<char>),
            >(row),
            CoverOf::SmartPlaylist { id: row, source } => given(p, "smart_playlist"@) is Some
                && id == Ok::<i64, (u16, Seq<char>)>(row) && (given(p, "source"@) is None ==> source
                is None) && (given(p, "source"@) is Some ==> scope is Ok && source
                == scope->Ok_0.source),
            CoverOf::Artist(uri) => given(p, "uri"@) == Some(uri@) && kind == Some("artist"@),
            CoverOf::Album(uri) => given(p, "uri"@) == Some(uri@) && kind == Some("album"@),
            CoverOf::Track(uri) => given(p, "uri"@) == Some(uri@) && kind != Some("artist"@) && kind
                != Some("album"@),
        },
{
}

/// The pins that are shown are those whose item is still there, each at its place and in the order of
/// the pins: none is left out and none is shown twice.
pub proof fn pins_are_shown_in_their_order(pins: Seq<PinFacts>, sources: Seq<SourceEntry>, i: int, j: int)
    requires
        pins.len() <= usize::MAX,
    ensures
        0 <= i < j < pins_shown(pins, sources).len() ==> pins_shown(pins, sources)[i].pin
            < pins_shown(pins, sources)[j].pin,
        0 <= i < pins_shown(pins, sources).len() ==> {
            let item = pins_shown(pins, sources)[i];
            &&& item.pin < pins.len()
            &&& is_shown(pins[item.pin as int])
            &&& item.badge == badge_of(pins[item.pin as int], sources)
        },
        0 <= j < pins.len() && is_shown(pins[j]) ==> exists|k: int|
            0 <= k < pins_shown(pins, sources).len() && (#[trigger] pins_shown(pins, sources)[k]).pin
                == j,
    decreases pins.len(),
{
    if pins.len() > 0 {
        let init = pins.drop_last();
        let before = pins_shown(init, sources);
        let all = pins_shown(pins, sources);
        pins_are_shown_in_their_order(init, sources, i, j);
        if 0 <= j < init.len() && is_shown(pins[j]) {
            assert(init[j] == pins[j]);
            let k = choose|k: int|
                0 <= k < before.len() && (#[trigger] pins_shown(init, sources)[k]).pin == j;
            assert(all[k].pin == j);
        }
        if j == init.len() && is_shown(pins[j]) {
            assert(all[all.len() - 1].pin == j);
        }
        if 0 <= i < before.len() {
            assert(init[before[i].pin as int] == pins[before[i].pin as int]);
            assert(all[i] == before[i]);
        }
        if 0 <= i < j && j == before.len() {
            pins_are_shown_in_their_order(init, sources, i, 0);
        }
    }
}

/// A pin is shown only where its item is found; albums, artists and genres are found only within their
/// source, and only playlists carry the mark of where they come from.
pub proof fn lost_pins_are_hidden(facts: PinFacts, sources: Seq<SourceEntry>)
    ensures
        is_shown(facts) ==> facts.row_found,
        is_shown(facts) && !facts.source_found ==> facts.kind == PinKind::Playlist || facts.kind
            == PinKind::SmartPlaylist,
        facts.row_found && facts.source_found ==> is_shown(facts),
        badge_of(facts, sources) is Some <==> facts.kind == PinKind::Playlist || facts.kind
            == PinKind::SmartPlaylist,
{
}

/// The order of what is queued is the one that the selection names, where it names one; else tracks
/// of an artist and of a source come by their titles, those of other collections by their numbers,
/// and the entries of a playlist as they stand in it.
pub proof fn queued_tracks_come_in_the_order_that_is_named(
    result: Result<QueuePlan, ApiError>,
    path: Seq<char>,
    mode: Seq<char>,
    selection: QueueSelection,
    before: Option<String>,
    after: Option<String>,
    fault: Option<Seq<char>>,
)
    requires
        plans(result, path, None, mode, selection, before, after, fault),
        result is Ok,
    ensures
        match result->Ok_0.request {
            QueueRequest::Collection { kind, sort, .. } => {
                &&& selection.sort matches Some(name) ==> name@ == track_sort_name(sort)
                &&& selection.sort is None ==> sort == if kind == MediaKind::Artist {
                    TrackSort::Title
                } else {
                    TrackSort::TrackNumber
                }
            },
            QueueRequest::Source { sort, .. } => {
                &&& selection.sort matches Some(name) ==> name@ == track_sort_name(sort)
                &&& selection.sort is None ==> sort == TrackSort::Title
            },
            QueueRequest::Playlist { sort, .. } => {
                &&& selection.sort matches Some(name) ==> name@ == entry_sort_name(sort)
                &&& selection.sort is None ==> sort == EntrySort::Position
            },
            _ => true,
        },
{
    reveal_strlit("title");
    reveal_strlit("track_number");
    reveal_strlit("position");
    assert("title"@.len() == 5 && "track_number"@.len() == 12 && "position"@.len() == 8);
}

} // verus!
