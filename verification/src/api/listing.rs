//! The pages of the library that clients ask for: what is listed, in which order, and how much.

use vstd::prelude::*;

use crate::api::catalog::{
    album_sort, album_sort_of, artist_sort, artist_sort_of, blocks_shown, home_blocks,
    list_sort_of, playlist_sort, smart_playlist_sort, AlbumSort, ArtistSort, HomeBlock, ListSort,
};
use crate::api::parameters::{
    bad_request, boolean, filled, given, json_integer, key, key_in, limit, number, number_in,
    required, track_sort, track_sort_of, ApiError, Parameters, TrackSort,
};
use crate::api::queue::{entry_sort, entry_sort_of, EntrySort};

verus! {

/// What a page lists.
#[allow(inconsistent_fields)]
pub enum Listing {
    /// The tracks of a source, or of one of its folders.
    Tracks { source: String, folder: Option<String>, sort: TrackSort },
    Albums { sort: AlbumSort },
    AlbumTracks { album: i64, sort: TrackSort },
    Artists { album_artists: bool, sort: ArtistSort },
    ArtistTracks { artist: i64, album_artists: bool, sort: TrackSort },
    GenreTracks { genre: i64, sort: TrackSort },
    SmartPlaylists { sort: ListSort },
    SmartTracks { playlist: i64 },
    Playlists { sort: ListSort },
    Entries { playlist: i64, sort: EntrySort },
    /// The folders below a named one, or else below that of the scope.
    Folders { parent: Option<String> },
}

/// Where a page looks, as the library knows it: everywhere, in a source or in a folder.
#[derive(Clone, Copy, Debug, PartialEq, Eq, Structural)]
pub struct Scope {
    pub source: Option<i64>,
    pub folder: Option<i64>,
}

/// A page that is asked for.
pub struct PageRequest {
    pub list: Listing,
    pub scope: Scope,
    /// Only what holds this text is listed.
    pub filter: String,
    pub favorites: bool,
    pub descending: bool,
    pub offset: usize,
    pub limit: usize,
}

/// A result with the status and the message of its refusal.
pub open spec fn told<T>(result: Result<T, ApiError>) -> Result<T, (u16, Seq<char>)> {
    match result {
        Ok(value) => Ok(value),
        Err(error) => Err((error.status, error.message@)),
    }
}

/// The status and the message of a refusal.
pub open spec fn refusal_of<T>(result: Result<T, (u16, Seq<char>)>) -> Option<(u16, Seq<char>)> {
    match result {
        Ok(_) => None,
        Err(refused) => Some(refused),
    }
}

/// What is wrong first.
pub open spec fn earlier(
    a: Option<(u16, Seq<char>)>,
    b: Option<(u16, Seq<char>)>,
) -> Option<(u16, Seq<char>)> {
    if a is Some {
        a
    } else {
        b
    }
}

/// What is wrong with a number of the request.
pub open spec fn number_refusal(parameters: Map<Seq<char>, String>, key: Seq<char>) -> Option<
    (u16, Seq<char>),
> {
    match given(parameters, key) {
        None => None,
        Some(text) => match number_in(text, usize::MAX as nat) {
            Ok(_) => None,
            Err(error) => Some((400, error.message())),
        },
    }
}

/// A number of the request, or the default.
pub open spec fn number_value(
    parameters: Map<Seq<char>, String>,
    key: Seq<char>,
    default: int,
) -> int {
    match given(parameters, key) {
        None => default,
        Some(text) => number_in(text, usize::MAX as nat)->Ok_0 as int,
    }
}

/// How much is asked for, but no more than the most that is served at once.
pub open spec fn limit_value(parameters: Map<Seq<char>, String>, default: int, most: int) -> int {
    let asked = number_value(parameters, "limit"@, default);
    if asked < most {
        asked
    } else {
        most
    }
}

/// What is wrong with the place of a page.
pub open spec fn place_refusal(parameters: Map<Seq<char>, String>) -> Option<(u16, Seq<char>)> {
    earlier(number_refusal(parameters, "offset"@), number_refusal(parameters, "limit"@))
}

/// What is wrong with a flag of the request.
pub open spec fn flag_refusal(parameters: Map<Seq<char>, String>, key: Seq<char>) -> Option<
    (u16, Seq<char>),
> {
    match given(parameters, key) {
        None => None,
        Some(text) => if text == "true"@ || text == "false"@ {
            None
        } else {
            Some((400, "provided string was not `true` or `false`"@))
        },
    }
}

pub open spec fn flag_value(parameters: Map<Seq<char>, String>, key: Seq<char>) -> bool {
    given(parameters, key) == Some("true"@)
}

/// The order that is asked for, or the usual one.
pub open spec fn order_text(parameters: Map<Seq<char>, String>, usual: Seq<char>) -> Seq<char> {
    match given(parameters, "sort"@) {
        None => usual,
        Some(text) => text,
    }
}

/// What is wrong with an order that is not among those there are.
pub open spec fn order_refusal<T>(
    order: Option<T>,
    message: Seq<char>,
) -> Option<(u16, Seq<char>)> {
    match order {
        Some(_) => None,
        None => Some((400, message)),
    }
}

pub open spec fn filter_text(parameters: Map<Seq<char>, String>) -> Seq<char> {
    match given(parameters, "q"@) {
        None => ""@,
        Some(text) => text,
    }
}

/// What is wrong with a text that must be there.
pub open spec fn text_refusal(parameters: Map<Seq<char>, String>, key: Seq<char>) -> Option<
    (u16, Seq<char>),
> {
    if filled(parameters, key) {
        None
    } else {
        Some((400, key + " is required"@))
    }
}

/// The page is the one that the parameters ask for.
pub open spec fn page_is(
    page: PageRequest,
    list: Listing,
    scope: Scope,
    parameters: Map<Seq<char>, String>,
    favorites: bool,
    descending: bool,
    limit: int,
) -> bool {
    &&& page.list == list
    &&& page.scope == scope
    &&& page.filter@ == filter_text(parameters)
    &&& page.favorites == favorites
    &&& page.descending == descending
    &&& page.offset == number_value(parameters, "offset"@, 0)
    &&& page.limit == limit
}

/// What a lookup of the scope gives, from what the library says of the source and of the folder.
pub open spec fn scope_in(
    parameters: Map<Seq<char>, String>,
    source: Result<Option<i64>, String>,
    folder: Result<Option<i64>, String>,
) -> Result<Scope, (u16, Seq<char>)> {
    if !filled(parameters, "source"@) {
        Err((400, "source"@ + " is required"@))
    } else {
        match source {
            Err(message) => Err((500, message@)),
            Ok(None) => Err((400, "Source not found"@)),
            Ok(Some(source)) => if given(parameters, "folder"@) is None {
                Ok(Scope { source: Some(source), folder: None })
            } else {
                match folder {
                    Err(message) => Err((500, message@)),
                    Ok(None) => Err((400, "Folder not found"@)),
                    Ok(Some(folder)) => Ok(Scope { source: Some(source), folder: Some(folder) }),
                }
            },
        }
    }
}

/// The scope that a request names, from what the library says of its source and of its folder.
/// A folder that is not named is not asked about.
pub fn scope(
    parameters: &Parameters,
    source: Result<Option<i64>, String>,
    folder: Result<Option<i64>, String>,
) -> (result: Result<Scope, ApiError>)
    requires
        parameters.wf(),
    ensures
        told(result) == scope_in(parameters@, source, folder),
{
    if let Err(error) = required(parameters, "source") {
        return Err(error);
    }
    let source: i64 = match source {
        Ok(Some(source)) => source,
        Ok(None) => {
            return Err(bad_request("Source not found"));
        },
        Err(message) => {
            return Err(ApiError { status: 500, message });
        },
    };
    if !parameters.contains("folder") {
        return Ok(Scope { source: Some(source), folder: None });
    }
    match folder {
        Ok(Some(folder)) => Ok(Scope { source: Some(source), folder: Some(folder) }),
        Ok(None) => Err(bad_request("Folder not found")),
        Err(message) => Err(ApiError { status: 500, message }),
    }
}

/// A page of whatever is found everywhere.
pub open spec fn everywhere() -> Scope {
    Scope { source: None, folder: None }
}

/// The scope of a page that looks in a folder only where one is named: its source is that of what
/// is listed.
pub open spec fn folder_scope(
    parameters: Map<Seq<char>, String>,
    scope: Result<Scope, (u16, Seq<char>)>,
) -> Scope {
    if given(parameters, "folder"@) is Some {
        Scope { source: None, folder: scope->Ok_0.folder }
    } else {
        everywhere()
    }
}

/// The scope of a page that looks in a source only where one is named.
pub open spec fn source_scope(
    parameters: Map<Seq<char>, String>,
    scope: Result<Scope, (u16, Seq<char>)>,
) -> Scope {
    if given(parameters, "source"@) is Some {
        scope->Ok_0
    } else {
        everywhere()
    }
}

/// What is wrong with a scope that counts only where a parameter is given.
pub open spec fn scope_refusal(
    parameters: Map<Seq<char>, String>,
    key: Seq<char>,
    scope: Result<Scope, (u16, Seq<char>)>,
) -> Option<(u16, Seq<char>)> {
    if given(parameters, key) is Some {
        refusal_of(scope)
    } else {
        None
    }
}

pub(crate) fn scope_where(
    parameters: &Parameters,
    key: &str,
    scope: Result<Scope, ApiError>,
) -> (result:
    Result<Scope, ApiError>)
    requires
        parameters.wf(),
    ensures
        refusal_of(told(result)) == scope_refusal(parameters@, key@, told(scope)),
        result matches Ok(found) ==> found == if given(parameters@, key@) is Some {
            scope->Ok_0
        } else {
            everywhere()
        },
{
    if parameters.contains(key) {
        scope
    } else {
        Ok(Scope { source: None, folder: None })
    }
}

fn order<'a>(parameters: &'a Parameters, usual: &'a str) -> (result: &'a str)
    requires
        parameters.wf(),
    ensures
        result@ == order_text(parameters@, usual@),
{
    match parameters.get("sort") {
        Some(text) => text.as_str(),
        None => usual,
    }
}

fn sort_given<'a>(parameters: &'a Parameters) -> (result: Option<&'a str>)
    requires
        parameters.wf(),
    ensures
        match result {
            Some(text) => given(parameters@, "sort"@) == Some(text@),
            None => given(parameters@, "sort"@) is None,
        },
{
    match parameters.get("sort") {
        Some(text) => Some(text.as_str()),
        None => None,
    }
}

pub(crate) fn filter(parameters: &Parameters) -> (result: String)
    requires
        parameters.wf(),
    ensures
        result@ == filter_text(parameters@),
{
    match parameters.get("q") {
        Some(text) => text.clone(),
        None => "".to_owned(),
    }
}

fn place(parameters: &Parameters, default: usize, most: usize) -> (result: Result<
    (usize, usize),
    ApiError,
>)
    requires
        parameters.wf(),
    ensures
        refusal_of(told(result)) == place_refusal(parameters@),
        result matches Ok((offset, limit)) ==> offset == number_value(parameters@, "offset"@, 0)
            && limit == limit_value(parameters@, default as int, most as int),
{
    let offset: usize = match number(parameters, "offset", 0) {
        Ok(offset) => offset,
        Err(error) => {
            return Err(error);
        },
    };
    match limit(parameters, default, most) {
        Ok(limit) => Ok((offset, limit)),
        Err(error) => Err(error),
    }
}

fn flag(parameters: &Parameters, key: &str) -> (result: Result<bool, ApiError>)
    requires
        parameters.wf(),
    ensures
        refusal_of(told(result)) == flag_refusal(parameters@, key@),
        result matches Ok(value) ==> value == flag_value(parameters@, key@),
{
    proof {
        reveal_strlit("true");
        reveal_strlit("false");
        assert("true"@.len() != "false"@.len());
    }
    boolean(parameters, key)
}

/// The text of a parameter that must be there, to keep.
pub(crate) fn required_text(parameters: &Parameters, key: &str) -> (result: Result<
    String,
    ApiError,
>)
    requires
        parameters.wf(),
    ensures
        refusal_of(told(result)) == text_refusal(parameters@, key@),
        result matches Ok(text) ==> text == parameters@[key@],
{
    match required(parameters, key) {
        Ok(_) => match text_at(parameters, key) {
            Some(text) => Ok(text),
            None => Ok("".to_owned()),
        },
        Err(error) => Err(error),
    }
}

fn text_at(parameters: &Parameters, key: &str) -> (result: Option<String>)
    requires
        parameters.wf(),
    ensures
        result == if parameters@.dom().contains(key@) {
            Some(parameters@[key@])
        } else {
            None
        },
{
    match parameters.get(key) {
        Some(text) => Some(text.clone()),
        None => None,
    }
}

pub open spec fn tracks_refusal(p: Map<Seq<char>, String>) -> Option<(u16, Seq<char>)> {
    earlier(
        place_refusal(p),
        earlier(
            text_refusal(p, "source"@),
            earlier(
                flag_refusal(p, "favorites"@),
                earlier(
                    order_refusal(track_sort_of(order_text(p, "title"@)), "Unknown track sort"@),
                    flag_refusal(p, "descending"@),
                ),
            ),
        ),
    )
}

pub open spec fn tracks_page(p: Map<Seq<char>, String>, page: PageRequest) -> bool {
    let list = Listing::Tracks {
        source: p["source"@],
        folder: if p.dom().contains("folder"@) {
            Some(p["folder"@])
        } else {
            None
        },
        sort: track_sort_of(order_text(p, "title"@))->0,
    };
    page_is(
        page,
        list,
        everywhere(),
        p,
        flag_value(p, "favorites"@),
        flag_value(p, "descending"@),
        limit_value(p, 100, 256),
    )
}

/// The tracks of a source that a request asks for.
pub fn tracks(parameters: &Parameters) -> (result: Result<PageRequest, ApiError>)
    requires
        parameters.wf(),
    ensures
        refusal_of(told(result)) == tracks_refusal(parameters@),
        result matches Ok(page) ==> tracks_page(parameters@, page),
{
    let (offset, limit): (usize, usize) = match place(parameters, 100, 256) {
        Ok(place) => place,
        Err(error) => {
            return Err(error);
        },
    };
    let source: String = match required_text(parameters, "source") {
        Ok(source) => source,
        Err(error) => {
            return Err(error);
        },
    };
    let favorites: bool = match flag(parameters, "favorites") {
        Ok(value) => value,
        Err(error) => {
            return Err(error);
        },
    };
    let sort: TrackSort = match track_sort(order(parameters, "title")) {
        Ok(sort) => sort,
        Err(error) => {
            return Err(error);
        },
    };
    let descending: bool = match flag(parameters, "descending") {
        Ok(value) => value,
        Err(error) => {
            return Err(error);
        },
    };
    Ok(
        PageRequest {
            list: Listing::Tracks { source, folder: text_at(parameters, "folder"), sort },
            scope: Scope { source: None, folder: None },
            filter: filter(parameters),
            favorites,
            descending,
            offset,
            limit,
        },
    )
}

pub open spec fn albums_refusal(
    p: Map<Seq<char>, String>,
    scope: Result<Scope, (u16, Seq<char>)>,
) -> Option<(u16, Seq<char>)> {
    earlier(
        place_refusal(p),
        earlier(
            flag_refusal(p, "descending"@),
            earlier(
                flag_refusal(p, "favorites"@),
                earlier(
                    refusal_of(scope),
                    order_refusal(album_sort_of(order_text(p, "title"@)), "Unknown album sort"@),
                ),
            ),
        ),
    )
}

pub open spec fn albums_page(
    p: Map<Seq<char>, String>,
    scope: Result<Scope, (u16, Seq<char>)>,
    page: PageRequest,
) -> bool {
    let list = Listing::Albums { sort: album_sort_of(order_text(p, "title"@))->0 };
    page_is(
        page,
        list,
        scope->Ok_0,
        p,
        flag_value(p, "favorites"@),
        flag_value(p, "descending"@),
        limit_value(p, 100, 128),
    )
}

/// The albums that a request asks for.
pub fn albums(
    parameters: &Parameters,
    scope: Result<Scope, ApiError>,
) -> (result: Result<PageRequest, ApiError>)
    requires
        parameters.wf(),
    ensures
        refusal_of(told(result)) == albums_refusal(parameters@, told(scope)),
        result matches Ok(page) ==> albums_page(parameters@, told(scope), page),
{
    let (offset, limit): (usize, usize) = match place(parameters, 100, 128) {
        Ok(place) => place,
        Err(error) => {
            return Err(error);
        },
    };
    let descending: bool = match flag(parameters, "descending") {
        Ok(value) => value,
        Err(error) => {
            return Err(error);
        },
    };
    let favorites: bool = match flag(parameters, "favorites") {
        Ok(value) => value,
        Err(error) => {
            return Err(error);
        },
    };
    let scope: Scope = match scope {
        Ok(scope) => scope,
        Err(error) => {
            return Err(error);
        },
    };
    let sort: AlbumSort = match album_sort(sort_given(parameters)) {
        Ok(sort) => sort,
        Err(error) => {
            return Err(error);
        },
    };
    Ok(
        PageRequest {
            list: Listing::Albums { sort },
            scope,
            filter: filter(parameters),
            favorites,
            descending,
            offset,
            limit,
        },
    )
}

pub open spec fn album_tracks_refusal(
    p: Map<Seq<char>, String>,
    id: Result<i64, (u16, Seq<char>)>,
    scope: Result<Scope, (u16, Seq<char>)>,
) -> Option<(u16, Seq<char>)> {
    earlier(
        place_refusal(p),
        earlier(
            flag_refusal(p, "descending"@),
            earlier(
                flag_refusal(p, "favorites"@),
                earlier(
                    refusal_of(id),
                    earlier(
                        scope_refusal(p, "folder"@, scope),
                        order_refusal(
                            track_sort_of(order_text(p, "track_number"@)),
                            "Unknown track sort"@,
                        ),
                    ),
                ),
            ),
        ),
    )
}

pub open spec fn album_tracks_page(
    p: Map<Seq<char>, String>,
    id: Result<i64, (u16, Seq<char>)>,
    scope: Result<Scope, (u16, Seq<char>)>,
    page: PageRequest,
) -> bool {
    let list = Listing::AlbumTracks {
        album: id->Ok_0,
        sort: track_sort_of(order_text(p, "track_number"@))->0,
    };
    page_is(
        page,
        list,
        folder_scope(p, scope),
        p,
        flag_value(p, "favorites"@),
        flag_value(p, "descending"@),
        limit_value(p, 100, 128),
    )
}

/// The tracks of an album that a request asks for, from what its key says.
pub fn album_tracks(
    parameters: &Parameters,
    id: Result<i64, ApiError>,
    scope: Result<Scope, ApiError>,
) -> (result: Result<PageRequest, ApiError>)
    requires
        parameters.wf(),
    ensures
        refusal_of(told(result)) == album_tracks_refusal(parameters@, told(id), told(scope)),
        result matches Ok(page) ==> album_tracks_page(parameters@, told(id), told(scope), page),
{
    let (offset, limit): (usize, usize) = match place(parameters, 100, 128) {
        Ok(place) => place,
        Err(error) => {
            return Err(error);
        },
    };
    let descending: bool = match flag(parameters, "descending") {
        Ok(value) => value,
        Err(error) => {
            return Err(error);
        },
    };
    let favorites: bool = match flag(parameters, "favorites") {
        Ok(value) => value,
        Err(error) => {
            return Err(error);
        },
    };
    let key: i64 = match id {
        Ok(key) => key,
        Err(error) => {
            return Err(error);
        },
    };
    let found: Scope = match scope_where(parameters, "folder", scope) {
        Ok(scope) => scope,
        Err(error) => {
            return Err(error);
        },
    };
    let sort: TrackSort = match track_sort(order(parameters, "track_number")) {
        Ok(sort) => sort,
        Err(error) => {
            return Err(error);
        },
    };
    Ok(
        PageRequest {
            list: Listing::AlbumTracks { album: key, sort },
            scope: Scope { source: None, folder: found.folder },
            filter: filter(parameters),
            favorites,
            descending,
            offset,
            limit,
        },
    )
}

pub open spec fn artists_refusal(
    p: Map<Seq<char>, String>,
    scope: Result<Scope, (u16, Seq<char>)>,
) -> Option<(u16, Seq<char>)> {
    earlier(
        refusal_of(scope),
        earlier(
            order_refusal(artist_sort_of(order_text(p, "title"@)), "Unknown artist sort"@),
            earlier(
                place_refusal(p),
                earlier(
                    flag_refusal(p, "album_artists"@),
                    earlier(flag_refusal(p, "favorites"@), flag_refusal(p, "descending"@)),
                ),
            ),
        ),
    )
}

pub open spec fn artists_page(
    p: Map<Seq<char>, String>,
    scope: Result<Scope, (u16, Seq<char>)>,
    page: PageRequest,
) -> bool {
    let list = Listing::Artists {
        album_artists: flag_value(p, "album_artists"@),
        sort: artist_sort_of(order_text(p, "title"@))->0,
    };
    page_is(
        page,
        list,
        scope->Ok_0,
        p,
        flag_value(p, "favorites"@),
        flag_value(p, "descending"@),
        limit_value(p, 48, 128),
    )
}

/// The artists that a request asks for.
pub fn artists(
    parameters: &Parameters,
    scope: Result<Scope, ApiError>,
) -> (result: Result<PageRequest, ApiError>)
    requires
        parameters.wf(),
    ensures
        refusal_of(told(result)) == artists_refusal(parameters@, told(scope)),
        result matches Ok(page) ==> artists_page(parameters@, told(scope), page),
{
    let scope: Scope = match scope {
        Ok(scope) => scope,
        Err(error) => {
            return Err(error);
        },
    };
    let sort: ArtistSort = match artist_sort(sort_given(parameters)) {
        Ok(sort) => sort,
        Err(error) => {
            return Err(error);
        },
    };
    let (offset, limit): (usize, usize) = match place(parameters, 48, 128) {
        Ok(place) => place,
        Err(error) => {
            return Err(error);
        },
    };
    let album_artists: bool = match flag(parameters, "album_artists") {
        Ok(value) => value,
        Err(error) => {
            return Err(error);
        },
    };
    let favorites: bool = match flag(parameters, "favorites") {
        Ok(value) => value,
        Err(error) => {
            return Err(error);
        },
    };
    let descending: bool = match flag(parameters, "descending") {
        Ok(value) => value,
        Err(error) => {
            return Err(error);
        },
    };
    Ok(
        PageRequest {
            list: Listing::Artists { album_artists, sort },
            scope,
            filter: filter(parameters),
            favorites,
            descending,
            offset,
            limit,
        },
    )
}

pub open spec fn artist_tracks_refusal(
    p: Map<Seq<char>, String>,
    id: Result<i64, (u16, Seq<char>)>,
    scope: Result<Scope, (u16, Seq<char>)>,
) -> Option<(u16, Seq<char>)> {
    earlier(
        scope_refusal(p, "folder"@, scope),
        earlier(
            refusal_of(id),
            earlier(
                flag_refusal(p, "album_artists"@),
                earlier(
                    place_refusal(p),
                    earlier(
                        order_refusal(
                            track_sort_of(order_text(p, "title"@)),
                            "Unknown track sort"@,
                        ),
                        earlier(flag_refusal(p, "descending"@), flag_refusal(p, "favorites"@)),
                    ),
                ),
            ),
        ),
    )
}

pub open spec fn artist_tracks_page(
    p: Map<Seq<char>, String>,
    id: Result<i64, (u16, Seq<char>)>,
    scope: Result<Scope, (u16, Seq<char>)>,
    page: PageRequest,
) -> bool {
    let list = Listing::ArtistTracks {
        artist: id->Ok_0,
        album_artists: flag_value(p, "album_artists"@),
        sort: track_sort_of(order_text(p, "title"@))->0,
    };
    page_is(
        page,
        list,
        folder_scope(p, scope),
        p,
        flag_value(p, "favorites"@),
        flag_value(p, "descending"@),
        limit_value(p, 48, 256),
    )
}

/// The tracks of an artist that a request asks for, from what its key says.
pub fn artist_tracks(
    parameters: &Parameters,
    id: Result<i64, ApiError>,
    scope: Result<Scope, ApiError>,
) -> (result: Result<PageRequest, ApiError>)
    requires
        parameters.wf(),
    ensures
        refusal_of(told(result)) == artist_tracks_refusal(parameters@, told(id), told(scope)),
        result matches Ok(page) ==> artist_tracks_page(parameters@, told(id), told(scope), page),
{
    let found: Scope = match scope_where(parameters, "folder", scope) {
        Ok(scope) => scope,
        Err(error) => {
            return Err(error);
        },
    };
    let key: i64 = match id {
        Ok(key) => key,
        Err(error) => {
            return Err(error);
        },
    };
    let album_artists: bool = match flag(parameters, "album_artists") {
        Ok(value) => value,
        Err(error) => {
            return Err(error);
        },
    };
    let (offset, limit): (usize, usize) = match place(parameters, 48, 256) {
        Ok(place) => place,
        Err(error) => {
            return Err(error);
        },
    };
    let sort: TrackSort = match track_sort(order(parameters, "title")) {
        Ok(sort) => sort,
        Err(error) => {
            return Err(error);
        },
    };
    let descending: bool = match flag(parameters, "descending") {
        Ok(value) => value,
        Err(error) => {
            return Err(error);
        },
    };
    let favorites: bool = match flag(parameters, "favorites") {
        Ok(value) => value,
        Err(error) => {
            return Err(error);
        },
    };
    Ok(
        PageRequest {
            list: Listing::ArtistTracks { artist: key, album_artists, sort },
            scope: Scope { source: None, folder: found.folder },
            filter: filter(parameters),
            favorites,
            descending,
            offset,
            limit,
        },
    )
}

pub open spec fn genre_tracks_refusal(
    p: Map<Seq<char>, String>,
    id: Result<i64, (u16, Seq<char>)>,
    scope: Result<Scope, (u16, Seq<char>)>,
) -> Option<(u16, Seq<char>)> {
    earlier(
        scope_refusal(p, "folder"@, scope),
        earlier(
            refusal_of(id),
            earlier(
                order_refusal(track_sort_of(order_text(p, "title"@)), "Unknown track sort"@),
                earlier(flag_refusal(p, "descending"@), place_refusal(p)),
            ),
        ),
    )
}

pub open spec fn genre_tracks_page(
    p: Map<Seq<char>, String>,
    id: Result<i64, (u16, Seq<char>)>,
    scope: Result<Scope, (u16, Seq<char>)>,
    page: PageRequest,
) -> bool {
    let list = Listing::GenreTracks {
        genre: id->Ok_0,
        sort: track_sort_of(order_text(p, "title"@))->0,
    };
    page_is(
        page,
        list,
        folder_scope(p, scope),
        p,
        false,
        flag_value(p, "descending"@),
        limit_value(p, 48, 256),
    )
}

/// The tracks of a genre that a request asks for, from what its key says.
pub fn genre_tracks(
    parameters: &Parameters,
    id: Result<i64, ApiError>,
    scope: Result<Scope, ApiError>,
) -> (result: Result<PageRequest, ApiError>)
    requires
        parameters.wf(),
    ensures
        refusal_of(told(result)) == genre_tracks_refusal(parameters@, told(id), told(scope)),
        result matches Ok(page) ==> genre_tracks_page(parameters@, told(id), told(scope), page),
{
    let found: Scope = match scope_where(parameters, "folder", scope) {
        Ok(scope) => scope,
        Err(error) => {
            return Err(error);
        },
    };
    let key: i64 = match id {
        Ok(key) => key,
        Err(error) => {
            return Err(error);
        },
    };
    let sort: TrackSort = match track_sort(order(parameters, "title")) {
        Ok(sort) => sort,
        Err(error) => {
            return Err(error);
        },
    };
    let descending: bool = match flag(parameters, "descending") {
        Ok(value) => value,
        Err(error) => {
            return Err(error);
        },
    };
    let (offset, limit): (usize, usize) = match place(parameters, 48, 256) {
        Ok(place) => place,
        Err(error) => {
            return Err(error);
        },
    };
    Ok(
        PageRequest {
            list: Listing::GenreTracks { genre: key, sort },
            scope: Scope { source: None, folder: found.folder },
            filter: filter(parameters),
            favorites: false,
            descending,
            offset,
            limit,
        },
    )
}

pub open spec fn smart_playlists_refusal(
    p: Map<Seq<char>, String>,
    scope: Result<Scope, (u16, Seq<char>)>,
) -> Option<(u16, Seq<char>)> {
    earlier(
        scope_refusal(p, "source"@, scope),
        earlier(
            order_refusal(list_sort_of(order_text(p, "position"@)), "Unknown smart playlist sort"@),
            earlier(place_refusal(p), flag_refusal(p, "descending"@)),
        ),
    )
}

pub open spec fn smart_playlists_page(
    p: Map<Seq<char>, String>,
    scope: Result<Scope, (u16, Seq<char>)>,
    page: PageRequest,
) -> bool {
    let list = Listing::SmartPlaylists { sort: list_sort_of(order_text(p, "position"@))->0 };
    page_is(
        page,
        list,
        source_scope(p, scope),
        p,
        false,
        flag_value(p, "descending"@),
        limit_value(p, 48, 64),
    )
}

/// The smart playlists that a request asks for.
pub fn smart_playlists(
    parameters: &Parameters,
    scope: Result<Scope, ApiError>,
) -> (result: Result<PageRequest, ApiError>)
    requires
        parameters.wf(),
    ensures
        refusal_of(told(result)) == smart_playlists_refusal(parameters@, told(scope)),
        result matches Ok(page) ==> smart_playlists_page(parameters@, told(scope), page),
{
    let found: Scope = match scope_where(parameters, "source", scope) {
        Ok(scope) => scope,
        Err(error) => {
            return Err(error);
        },
    };
    let sort: ListSort = match smart_playlist_sort(sort_given(parameters)) {
        Ok(sort) => sort,
        Err(error) => {
            return Err(error);
        },
    };
    let (offset, limit): (usize, usize) = match place(parameters, 48, 64) {
        Ok(place) => place,
        Err(error) => {
            return Err(error);
        },
    };
    let descending: bool = match flag(parameters, "descending") {
        Ok(value) => value,
        Err(error) => {
            return Err(error);
        },
    };
    Ok(
        PageRequest {
            list: Listing::SmartPlaylists { sort },
            scope: found,
            filter: filter(parameters),
            favorites: false,
            descending,
            offset,
            limit,
        },
    )
}

pub open spec fn smart_tracks_refusal(
    p: Map<Seq<char>, String>,
    id: Result<i64, (u16, Seq<char>)>,
    scope: Result<Scope, (u16, Seq<char>)>,
) -> Option<(u16, Seq<char>)> {
    earlier(scope_refusal(p, "source"@, scope), earlier(place_refusal(p), refusal_of(id)))
}

pub open spec fn smart_tracks_page(
    p: Map<Seq<char>, String>,
    id: Result<i64, (u16, Seq<char>)>,
    scope: Result<Scope, (u16, Seq<char>)>,
    page: PageRequest,
) -> bool {
    let list = Listing::SmartTracks { playlist: id->Ok_0 };
    page_is(page, list, source_scope(p, scope), p, false, false, limit_value(p, 48, 256))
}

/// The tracks of a smart playlist that a request asks for, from what its key says.
pub fn smart_tracks(
    parameters: &Parameters,
    id: Result<i64, ApiError>,
    scope: Result<Scope, ApiError>,
) -> (result: Result<PageRequest, ApiError>)
    requires
        parameters.wf(),
    ensures
        refusal_of(told(result)) == smart_tracks_refusal(parameters@, told(id), told(scope)),
        result matches Ok(page) ==> smart_tracks_page(parameters@, told(id), told(scope), page),
{
    let found: Scope = match scope_where(parameters, "source", scope) {
        Ok(scope) => scope,
        Err(error) => {
            return Err(error);
        },
    };
    let (offset, limit): (usize, usize) = match place(parameters, 48, 256) {
        Ok(place) => place,
        Err(error) => {
            return Err(error);
        },
    };
    let key: i64 = match id {
        Ok(key) => key,
        Err(error) => {
            return Err(error);
        },
    };
    Ok(
        PageRequest {
            list: Listing::SmartTracks { playlist: key },
            scope: found,
            filter: filter(parameters),
            favorites: false,
            descending: false,
            offset,
            limit,
        },
    )
}

pub open spec fn playlists_refusal(
    p: Map<Seq<char>, String>,
    scope: Result<Scope, (u16, Seq<char>)>,
) -> Option<(u16, Seq<char>)> {
    earlier(
        scope_refusal(p, "source"@, scope),
        earlier(
            order_refusal(list_sort_of(order_text(p, "position"@)), "Unknown playlist sort"@),
            earlier(place_refusal(p), flag_refusal(p, "descending"@)),
        ),
    )
}

pub open spec fn playlists_page(
    p: Map<Seq<char>, String>,
    scope: Result<Scope, (u16, Seq<char>)>,
    page: PageRequest,
) -> bool {
    let list = Listing::Playlists { sort: list_sort_of(order_text(p, "position"@))->0 };
    page_is(
        page,
        list,
        source_scope(p, scope),
        p,
        false,
        flag_value(p, "descending"@),
        limit_value(p, 100, 128),
    )
}

/// The playlists that a request asks for.
pub fn playlists(
    parameters: &Parameters,
    scope: Result<Scope, ApiError>,
) -> (result: Result<PageRequest, ApiError>)
    requires
        parameters.wf(),
    ensures
        refusal_of(told(result)) == playlists_refusal(parameters@, told(scope)),
        result matches Ok(page) ==> playlists_page(parameters@, told(scope), page),
{
    let found: Scope = match scope_where(parameters, "source", scope) {
        Ok(scope) => scope,
        Err(error) => {
            return Err(error);
        },
    };
    let sort: ListSort = match playlist_sort(sort_given(parameters)) {
        Ok(sort) => sort,
        Err(error) => {
            return Err(error);
        },
    };
    let (offset, limit): (usize, usize) = match place(parameters, 100, 128) {
        Ok(place) => place,
        Err(error) => {
            return Err(error);
        },
    };
    let descending: bool = match flag(parameters, "descending") {
        Ok(value) => value,
        Err(error) => {
            return Err(error);
        },
    };
    Ok(
        PageRequest {
            list: Listing::Playlists { sort },
            scope: found,
            filter: filter(parameters),
            favorites: false,
            descending,
            offset,
            limit,
        },
    )
}

pub open spec fn entries_refusal(
    p: Map<Seq<char>, String>,
    id: Result<i64, (u16, Seq<char>)>,
    scope: Result<Scope, (u16, Seq<char>)>,
) -> Option<(u16, Seq<char>)> {
    earlier(
        refusal_of(id),
        earlier(
            order_refusal(
                entry_sort_of(order_text(p, "position"@)),
                "Unknown playlist entry sort"@,
            ),
            earlier(
                scope_refusal(p, "folder"@, scope),
                earlier(place_refusal(p), flag_refusal(p, "descending"@)),
            ),
        ),
    )
}

pub open spec fn entries_page(
    p: Map<Seq<char>, String>,
    id: Result<i64, (u16, Seq<char>)>,
    scope: Result<Scope, (u16, Seq<char>)>,
    page: PageRequest,
) -> bool {
    let list = Listing::Entries {
        playlist: id->Ok_0,
        sort: entry_sort_of(order_text(p, "position"@))->0,
    };
    page_is(
        page,
        list,
        folder_scope(p, scope),
        p,
        false,
        flag_value(p, "descending"@),
        limit_value(p, 100, 256),
    )
}

/// The entries of a playlist that a request asks for, from what its key says.
pub fn entries(
    parameters: &Parameters,
    id: Result<i64, ApiError>,
    scope: Result<Scope, ApiError>,
) -> (result: Result<PageRequest, ApiError>)
    requires
        parameters.wf(),
    ensures
        refusal_of(told(result)) == entries_refusal(parameters@, told(id), told(scope)),
        result matches Ok(page) ==> entries_page(parameters@, told(id), told(scope), page),
{
    let key: i64 = match id {
        Ok(key) => key,
        Err(error) => {
            return Err(error);
        },
    };
    let sort: EntrySort = match entry_sort(order(parameters, "position")) {
        Ok(sort) => sort,
        Err(error) => {
            return Err(error);
        },
    };
    let found: Scope = match scope_where(parameters, "folder", scope) {
        Ok(scope) => scope,
        Err(error) => {
            return Err(error);
        },
    };
    let (offset, limit): (usize, usize) = match place(parameters, 100, 256) {
        Ok(place) => place,
        Err(error) => {
            return Err(error);
        },
    };
    let descending: bool = match flag(parameters, "descending") {
        Ok(value) => value,
        Err(error) => {
            return Err(error);
        },
    };
    Ok(
        PageRequest {
            list: Listing::Entries { playlist: key, sort },
            scope: Scope { source: None, folder: found.folder },
            filter: filter(parameters),
            favorites: false,
            descending,
            offset,
            limit,
        },
    )
}

pub open spec fn folders_refusal(
    p: Map<Seq<char>, String>,
    scope: Result<Scope, (u16, Seq<char>)>,
) -> Option<(u16, Seq<char>)> {
    earlier(place_refusal(p), refusal_of(scope))
}

pub open spec fn folders_page(
    p: Map<Seq<char>, String>,
    scope: Result<Scope, (u16, Seq<char>)>,
    page: PageRequest,
) -> bool {
    let list = Listing::Folders {
        parent: if p.dom().contains("parent"@) {
            Some(p["parent"@])
        } else {
            None
        },
    };
    page_is(page, list, scope->Ok_0, p, false, false, limit_value(p, 100, 128))
}

/// The folders that a request asks for.
pub fn folders(
    parameters: &Parameters,
    scope: Result<Scope, ApiError>,
) -> (result: Result<PageRequest, ApiError>)
    requires
        parameters.wf(),
    ensures
        refusal_of(told(result)) == folders_refusal(parameters@, told(scope)),
        result matches Ok(page) ==> folders_page(parameters@, told(scope), page),
{
    let (offset, limit): (usize, usize) = match place(parameters, 100, 128) {
        Ok(place) => place,
        Err(error) => {
            return Err(error);
        },
    };
    let scope: Scope = match scope {
        Ok(scope) => scope,
        Err(error) => {
            return Err(error);
        },
    };
    Ok(
        PageRequest {
            list: Listing::Folders { parent: text_at(parameters, "parent") },
            scope,
            filter: filter(parameters),
            favorites: false,
            descending: false,
            offset,
            limit,
        },
    )
}

/// A kind of page.
#[derive(Clone, Copy, Debug, PartialEq, Eq, Structural)]
pub enum PageKind {
    Tracks,
    Albums,
    AlbumTracks,
    Artists,
    ArtistTracks,
    GenreTracks,
    SmartPlaylists,
    SmartTracks,
    Playlists,
    Entries,
    Folders,
}

impl PageKind {
    /// The name under which the rows of a page are answered.
    pub open spec fn rows(self) -> Seq<char> {
        match self {
            PageKind::Albums => "albums"@,
            PageKind::Artists => "artists"@,
            PageKind::SmartPlaylists => "smart_playlists"@,
            PageKind::Playlists => "playlists"@,
            PageKind::Entries => "entries"@,
            PageKind::Folders => "folders"@,
            _ => "tracks"@,
        }
    }

    pub fn field(self) -> (result: &'static str)
        ensures
            result@ == self.rows(),
    {
        match self {
            PageKind::Albums => "albums",
            PageKind::Artists => "artists",
            PageKind::SmartPlaylists => "smart_playlists",
            PageKind::Playlists => "playlists",
            PageKind::Entries => "entries",
            PageKind::Folders => "folders",
            _ => "tracks",
        }
    }

    /// Whether the answer says where its page stands.
    pub fn tells_place(self) -> (result: bool)
        ensures
            result == (self != PageKind::GenreTracks),
    {
        self != PageKind::GenreTracks
    }

    /// The status with which a failure of the library is answered.
    pub fn failure_status(self) -> (result: u16)
        ensures
            result == if self == PageKind::Tracks || self == PageKind::AlbumTracks {
                400u16
            } else {
                500u16
            },
    {
        match self {
            PageKind::Tracks | PageKind::AlbumTracks => 400,
            _ => 500,
        }
    }

    /// Whether a scope is looked up: for some pages always, for others where the request names a
    /// folder or a source.
    pub open spec fn scoped(self, p: Map<Seq<char>, String>) -> bool {
        match self {
            PageKind::Tracks => false,
            PageKind::Albums | PageKind::Artists | PageKind::Folders => true,
            PageKind::AlbumTracks
            | PageKind::ArtistTracks
            | PageKind::GenreTracks
            | PageKind::Entries => given(p, "folder"@) is Some,
            PageKind::SmartPlaylists | PageKind::SmartTracks | PageKind::Playlists => given(
                p,
                "source"@,
            ) is Some,
        }
    }

    pub fn needs_scope(self, parameters: &Parameters) -> (result: bool)
        requires
            parameters.wf(),
        ensures
            result == self.scoped(parameters@),
    {
        match self {
            PageKind::Tracks => false,
            PageKind::Albums | PageKind::Artists | PageKind::Folders => true,
            PageKind::AlbumTracks
            | PageKind::ArtistTracks
            | PageKind::GenreTracks
            | PageKind::Entries => parameters.contains("folder"),
            PageKind::SmartPlaylists | PageKind::SmartTracks | PageKind::Playlists => {
                parameters.contains("source")
            },
        }
    }

    /// Why a request for a page of this kind is refused.
    pub open spec fn refusal(
        self,
        p: Map<Seq<char>, String>,
        id: Result<i64, (u16, Seq<char>)>,
        scope: Result<Scope, (u16, Seq<char>)>,
    ) -> Option<(u16, Seq<char>)> {
        match self {
            PageKind::Tracks => tracks_refusal(p),
            PageKind::Albums => albums_refusal(p, scope),
            PageKind::AlbumTracks => album_tracks_refusal(p, id, scope),
            PageKind::Artists => artists_refusal(p, scope),
            PageKind::ArtistTracks => artist_tracks_refusal(p, id, scope),
            PageKind::GenreTracks => genre_tracks_refusal(p, id, scope),
            PageKind::SmartPlaylists => smart_playlists_refusal(p, scope),
            PageKind::SmartTracks => smart_tracks_refusal(p, id, scope),
            PageKind::Playlists => playlists_refusal(p, scope),
            PageKind::Entries => entries_refusal(p, id, scope),
            PageKind::Folders => folders_refusal(p, scope),
        }
    }

    /// The page is the one of this kind that a request asks for.
    pub open spec fn asks_for(
        self,
        p: Map<Seq<char>, String>,
        id: Result<i64, (u16, Seq<char>)>,
        scope: Result<Scope, (u16, Seq<char>)>,
        page: PageRequest,
    ) -> bool {
        match self {
            PageKind::Tracks => tracks_page(p, page),
            PageKind::Albums => albums_page(p, scope, page),
            PageKind::AlbumTracks => album_tracks_page(p, id, scope, page),
            PageKind::Artists => artists_page(p, scope, page),
            PageKind::ArtistTracks => artist_tracks_page(p, id, scope, page),
            PageKind::GenreTracks => genre_tracks_page(p, id, scope, page),
            PageKind::SmartPlaylists => smart_playlists_page(p, scope, page),
            PageKind::SmartTracks => smart_tracks_page(p, id, scope, page),
            PageKind::Playlists => playlists_page(p, scope, page),
            PageKind::Entries => entries_page(p, id, scope, page),
            PageKind::Folders => folders_page(p, scope, page),
        }
    }

    /// Reads a request for a page of this kind, from what its key says and what a lookup of its
    /// scope gave. Pages without a key or a scope leave them aside.
    pub fn page(
        self,
        parameters: &Parameters,
        id: Result<i64, ApiError>,
        scope: Result<Scope, ApiError>,
    ) -> (result: Result<PageRequest, ApiError>)
        requires
            parameters.wf(),
        ensures
            refusal_of(told(result)) == self.refusal(parameters@, told(id), told(scope)),
            result matches Ok(page) ==> self.asks_for(parameters@, told(id), told(scope), page),
    {
        match self {
            PageKind::Tracks => tracks(parameters),
            PageKind::Albums => albums(parameters, scope),
            PageKind::AlbumTracks => album_tracks(parameters, id, scope),
            PageKind::Artists => artists(parameters, scope),
            PageKind::ArtistTracks => artist_tracks(parameters, id, scope),
            PageKind::GenreTracks => genre_tracks(parameters, id, scope),
            PageKind::SmartPlaylists => smart_playlists(parameters, scope),
            PageKind::SmartTracks => smart_tracks(parameters, id, scope),
            PageKind::Playlists => playlists(parameters, scope),
            PageKind::Entries => entries(parameters, id, scope),
            PageKind::Folders => folders(parameters, scope),
        }
    }

    /// Reads a request for a page of this kind, from what a lookup of its scope gave.
    pub fn read(self, parameters: &Parameters, scope: Result<Scope, ApiError>) -> (result: Result<
        PageRequest,
        ApiError,
    >)
        requires
            parameters.wf(),
        ensures
            refusal_of(told(result)) == self.refusal(
                parameters@,
                row_in(parameters@, "id"@),
                told(scope),
            ),
            result matches Ok(page) ==> self.asks_for(
                parameters@,
                row_in(parameters@, "id"@),
                told(scope),
                page,
            ),
    {
        self.page(parameters, key(parameters, "id"), scope)
    }
}

/// The row of the library that a parameter names.
pub open spec fn row_in(p: Map<Seq<char>, String>, name: Seq<char>) -> Result<
    i64,
    (u16, Seq<char>),
> {
    match key_in(p, name, json_integer(p[name]@)) {
        Ok(id) => Ok(id),
        Err(message) => Err((400, message)),
    }
}

/// The most that pages of a kind hold.
pub open spec fn most(kind: PageKind) -> int {
    match kind {
        PageKind::SmartPlaylists => 64,
        PageKind::Albums
        | PageKind::AlbumTracks
        | PageKind::Artists
        | PageKind::Playlists
        | PageKind::Folders => 128,
        _ => 256,
    }
}

/// No request makes a page hold more than the most of its kind.
pub proof fn pages_are_bounded(
    kind: PageKind,
    p: Map<Seq<char>, String>,
    id: Result<i64, (u16, Seq<char>)>,
    scope: Result<Scope, (u16, Seq<char>)>,
    page: PageRequest,
)
    requires
        kind.asks_for(p, id, scope, page),
    ensures
        page.limit <= most(kind),
{
}

/// A scope that was not asked for changes nothing.
pub proof fn unasked_scopes_are_ignored(
    kind: PageKind,
    p: Map<Seq<char>, String>,
    id: Result<i64, (u16, Seq<char>)>,
    a: Result<Scope, (u16, Seq<char>)>,
    b: Result<Scope, (u16, Seq<char>)>,
    page: PageRequest,
)
    requires
        !kind.scoped(p),
    ensures
        kind.refusal(p, id, a) == kind.refusal(p, id, b),
        kind.asks_for(p, id, a, page) == kind.asks_for(p, id, b, page),
{
}

/// The folder below which folders are listed, from what the library says of a named one.
pub fn folder_parent(
    named: bool,
    found: Result<Option<i64>, String>,
    scope: Scope,
) -> (result: Result<Option<i64>, ApiError>)
    ensures
        told(result) == if !named {
            Ok::<Option<i64>, (u16, Seq<char>)>(scope.folder)
        } else {
            match found {
                Err(message) => Err((500, message@)),
                Ok(None) => Err((400, "Folder not found"@)),
                Ok(Some(folder)) => Ok(Some(folder)),
            }
        },
{
    if !named {
        return Ok(scope.folder);
    }
    match found {
        Ok(Some(folder)) => Ok(Some(folder)),
        Ok(None) => Err(bad_request("Folder not found")),
        Err(message) => Err(ApiError { status: 500, message }),
    }
}

/// What the home page shows, and where it looks.
pub struct HomeRequest {
    pub scope: Scope,
    pub blocks: Vec<HomeBlock>,
}

/// The home page that is asked for, from what a lookup of its scope gave and from what the block
/// that is asked for says.
pub fn home(
    scope: Result<Scope, ApiError>,
    wanted: Option<Result<HomeBlock, String>>,
    configured: &Vec<HomeBlock>,
) -> (result: Result<HomeRequest, ApiError>)
    ensures
        refusal_of(told(result)) == earlier(
            refusal_of(told(scope)),
            match wanted {
                Some(Err(message)) => Some((400u16, message@)),
                _ => None,
            },
        ),
        result matches Ok(page) ==> page.scope == scope->Ok_0 && page.blocks@ == blocks_shown(
            configured@,
            match wanted {
                Some(Ok(block)) => Some(block),
                _ => None,
            },
        ),
{
    let scope: Scope = match scope {
        Ok(scope) => scope,
        Err(error) => {
            return Err(error);
        },
    };
    let block: Option<HomeBlock> = match wanted {
        Some(Ok(block)) => Some(block),
        Some(Err(message)) => {
            return Err(ApiError { status: 400, message });
        },
        None => None,
    };
    Ok(HomeRequest { scope, blocks: home_blocks(configured, block) })
}

} // verus!
