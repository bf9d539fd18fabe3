//! The queue over HTTP: what is shown of it, and what is put into it.

use vstd::prelude::*;
use vstd::string::*;

use crate::api::form::{collect_parameters, form_decoded, last_values, parse_form, texts_of};
use crate::api::parameters::{
    bad_request, given, track_sort, track_sort_of, ApiError, Parameters, TrackSort,
};
use crate::playback::plex::QueueReorderTarget;
use crate::text::{chars_of, matches_at, matches_here, part, same, shown, string_of};

verus! {

/// The part of the queue that is shown: rows `start` up to `end` of those at hand, the first of
/// which is the entry `offset` of the queue.
#[derive(Clone, Copy, Debug, PartialEq, Eq, Structural)]
pub struct QueueSlice {
    pub start: usize,
    pub end: usize,
    pub offset: usize,
}

/// The first row that is shown: half of the limit before the current one, as far as that leaves
/// rows to show.
pub open spec fn slice_start(rows: int, current: int, limit: int) -> int {
    let half = limit / 2;
    let wanted = if current < half {
        0
    } else {
        current - half
    };
    let last = if rows < limit {
        0
    } else {
        rows - limit
    };
    if wanted < last {
        wanted
    } else {
        last
    }
}

/// The row behind the last one that is shown.
pub open spec fn slice_end(rows: int, current: int, limit: int) -> int {
    let start = slice_start(rows, current, limit);
    if start + limit < rows {
        start + limit
    } else {
        rows
    }
}

/// The place of the first shown row in the queue, when the current entry has the given index.
pub open spec fn slice_offset(rows: int, current: int, index: int, limit: int) -> int {
    (if index < current {
        0
    } else {
        index - current
    }) + slice_start(rows, current, limit)
}

pub open spec fn or_zero(n: Option<usize>) -> int {
    match n {
        Some(n) => n as int,
        None => 0,
    }
}

/// Chooses the part of the queue around the current entry. `position` is the place of the current
/// entry among the rows at hand, `current_index` its place in the queue.
pub fn queue_slice(
    rows: usize,
    position: Option<usize>,
    current_index: Option<usize>,
    limit: usize,
) -> (result: QueueSlice)
    requires
        position matches Some(position) ==> position < rows,
        or_zero(current_index) + rows <= usize::MAX,
    ensures
        result.start == slice_start(rows as int, or_zero(position), limit as int),
        result.end == slice_end(rows as int, or_zero(position), limit as int),
        result.offset == slice_offset(
            rows as int,
            or_zero(position),
            or_zero(current_index),
            limit as int,
        ),
{
    let current: usize = match position {
        Some(position) => position,
        None => 0,
    };
    let wanted: usize = current.saturating_sub(limit / 2);
    let last: usize = rows.saturating_sub(limit);
    let start: usize = if wanted < last {
        wanted
    } else {
        last
    };
    let end: usize = if rows - start <= limit {
        rows
    } else {
        start + limit
    };
    let index: usize = match current_index {
        Some(index) => index,
        None => 0,
    };
    QueueSlice { start, end, offset: index.saturating_sub(current) + start }
}

/// The shown part is within the rows, no longer than asked for, and as long as the rows allow; it
/// shows the current entry, and counts its rows from where they stand in the queue.
pub proof fn slices_show_the_current_entry(rows: int, current: int, index: int, limit: int)
    requires
        0 <= current < rows,
        0 < limit,
        current <= index,
    ensures
        0 <= slice_start(rows, current, limit) <= current < slice_end(rows, current, limit)
            <= rows,
        slice_end(rows, current, limit) - slice_start(rows, current, limit) == if rows < limit {
            rows
        } else {
            limit
        },
        slice_offset(rows, current, index, limit) + (current - slice_start(rows, current, limit))
            == index,
{
}

/// What a queue request names.
#[derive(Clone, Copy, Debug, PartialEq, Eq, Structural)]
pub enum MediaKind {
    Track,
    Album,
    Playlist,
    Artist,
    Genre,
    SmartPlaylist,
    Source,
    Unknown,
}

pub open spec fn kind_named(name: Seq<char>) -> MediaKind {
    if name == "track"@ {
        MediaKind::Track
    } else if name == "album"@ {
        MediaKind::Album
    } else if name == "playlist"@ {
        MediaKind::Playlist
    } else if name == "artist"@ {
        MediaKind::Artist
    } else if name == "genre"@ {
        MediaKind::Genre
    } else if name == "smart-playlist"@ {
        MediaKind::SmartPlaylist
    } else if name == "source"@ {
        MediaKind::Source
    } else {
        MediaKind::Unknown
    }
}

pub fn media_kind(name: &str) -> (result: MediaKind)
    ensures
        result == kind_named(name@),
{
    if same(name, "track") {
        MediaKind::Track
    } else if same(name, "album") {
        MediaKind::Album
    } else if same(name, "playlist") {
        MediaKind::Playlist
    } else if same(name, "artist") {
        MediaKind::Artist
    } else if same(name, "genre") {
        MediaKind::Genre
    } else if same(name, "smart-playlist") {
        MediaKind::SmartPlaylist
    } else if same(name, "source") {
        MediaKind::Source
    } else {
        MediaKind::Unknown
    }
}

/// What a request selects. Identities are texts of JSON.
pub struct QueueSelection {
    pub kind: Option<String>,
    pub uris: Option<Vec<String>>,
    pub id: Option<String>,
    pub source: Option<String>,
    pub folder: Option<String>,
    pub q: Option<String>,
    pub sort: Option<String>,
    pub descending: Option<bool>,
    pub favorites: Option<bool>,
    pub album_artists: Option<bool>,
    pub anchor_uri: Option<String>,
    pub anchor_entry: Option<String>,
}

/// The name of what a path asks for.
pub open spec fn path_kind(path: Seq<char>) -> Seq<char> {
    if matches_at(path, 0, "/api/queue/"@) {
        path.skip("/api/queue/"@.len() as int)
    } else {
        "track"@
    }
}

fn kind_in_path(path: &str) -> (result: String)
    ensures
        result@ == path_kind(path@),
{
    let chars = chars_of(path);
    let prefix = chars_of("/api/queue/");
    if matches_here(&chars, 0, &prefix) {
        let rest = part(&chars, prefix.len(), chars.len());
        assert(rest@ =~= path_kind(path@));
        string_of(&rest)
    } else {
        "track".to_owned()
    }
}

/// The parameters of the page that a form came from.
pub fn return_parameters(form_return: &str) -> (result: Parameters)
    ensures
        result.wf(),
        texts_of(result@) == last_values(
            form_decoded(
                if matches_at(form_return@, 0, "/?"@) {
                    vstd::utf8::encode_utf8(form_return@.skip("/?"@.len() as int))
                } else {
                    vstd::utf8::encode_utf8(""@)
                },
            ),
        ),
{
    let chars = chars_of(form_return);
    let prefix = chars_of("/?");
    let query = if matches_here(&chars, 0, &prefix) {
        let rest = part(&chars, prefix.len(), chars.len());
        assert(rest@ =~= form_return@.skip("/?"@.len() as int));
        string_of(&rest)
    } else {
        "".to_owned()
    };
    let pairs = parse_form(query.as_str().as_bytes());
    collect_parameters(pairs)
}

/// The page of a browser.
pub open spec fn page_view(parameters: Map<Seq<char>, String>) -> Seq<char> {
    match given(parameters, "view"@) {
        Some(view) => view,
        None => "home"@,
    }
}

/// A page that lists tracks, of which one can be played with the others around it.
pub open spec fn lists_tracks(view: Seq<char>) -> bool {
    view == "tracks"@ || view == "favorites"@ || view == "album"@ || view == "artist"@ || view
        == "genre"@ || view == "playlist"@ || view == "smart-playlist"@
}

fn is_track_list(view: &str) -> (result: bool)
    ensures
        result == lists_tracks(view@),
{
    same(view, "tracks") || same(view, "favorites") || same(view, "album") || same(view, "artist")
        || same(view, "genre") || same(view, "playlist") || same(view, "smart-playlist")
}

/// The value of a parameter, or what is there already.
pub open spec fn given_or(
    parameters: Map<Seq<char>, String>,
    key: Seq<char>,
    other: Option<String>,
) -> Option<String> {
    if parameters.dom().contains(key) {
        Some(parameters[key])
    } else {
        other
    }
}

/// The first of some texts.
pub open spec fn first_uri(uris: Option<Vec<String>>) -> Option<String> {
    match uris {
        Some(uris) => if uris@.len() > 0 {
            Some(uris@[0])
        } else {
            None
        },
        None => None,
    }
}

/// A single track of a page becomes the page's whole list, anchored at the track.
pub open spec fn widened(selection: QueueSelection, parameters: Map<Seq<char>, String>) -> (
    QueueSelection
) {
    let view = page_view(parameters);
    QueueSelection {
        anchor_uri: first_uri(selection.uris),
        anchor_entry: if view == "playlist"@ {
            selection.id
        } else {
            selection.anchor_entry
        },
        source: given_or(parameters, "source"@, selection.source),
        folder: given_or(parameters, "folder"@, selection.folder),
        q: given_or(parameters, "q"@, selection.q),
        sort: given_or(parameters, "sort"@, selection.sort),
        id: given_or(parameters, "id"@, selection.id),
        favorites: Some(view == "favorites"@),
        descending: Some(given(parameters, "descending"@) == Some("true"@)),
        ..selection
    }
}

/// The list that a page shows.
pub open spec fn widened_kind(view: Seq<char>) -> MediaKind {
    if view == "tracks"@ || view == "favorites"@ {
        MediaKind::Source
    } else {
        kind_named(view)
    }
}

/// A form asks to play one track of a list from there on.
pub open spec fn widens(
    form: Option<Map<Seq<char>, String>>,
    mode: Seq<char>,
    selection: QueueSelection,
) -> bool {
    form matches Some(parameters) && mode == "replace"@ && shown(selection.kind) == Some("track"@)
        && lists_tracks(page_view(parameters))
}

fn take_parameter(parameters: &Parameters, key: &str, other: Option<String>) -> (result: Option<
    String,
>)
    requires
        parameters.wf(),
    ensures
        result == given_or(parameters@, key@, other),
{
    match parameters.get(key) {
        Some(text) => Some(text.clone()),
        None => other,
    }
}

fn view_name(parameters: &Parameters) -> (result: String)
    requires
        parameters.wf(),
    ensures
        result@ == page_view(parameters@),
{
    match parameters.get("view") {
        Some(view) => view.clone(),
        None => "home".to_owned(),
    }
}

fn copy_first(uris: &Option<Vec<String>>) -> (result: Option<String>)
    ensures
        result == first_uri(*uris),
{
    match uris {
        Some(uris) => if uris.len() > 0 {
            Some(uris[0].clone())
        } else {
            None
        },
        None => None,
    }
}

fn widen(selection: QueueSelection, parameters: &Parameters) -> (result: QueueSelection)
    requires
        parameters.wf(),
    ensures
        result == widened(selection, parameters@),
{
    let view = view_name(parameters);
    let mut selection = selection;
    selection.anchor_uri = copy_first(&selection.uris);
    if same(view.as_str(), "playlist") {
        selection.anchor_entry = match &selection.id {
            Some(id) => Some(id.clone()),
            None => None,
        };
    }
    selection.source = take_parameter(parameters, "source", selection.source);
    selection.folder = take_parameter(parameters, "folder", selection.folder);
    selection.q = take_parameter(parameters, "q", selection.q);
    selection.sort = take_parameter(parameters, "sort", selection.sort);
    selection.id = take_parameter(parameters, "id", selection.id);
    selection.favorites = Some(same(view.as_str(), "favorites"));
    selection.descending = Some(
        match parameters.get("descending") {
            Some(text) => same(text.as_str(), "true"),
            None => false,
        },
    );
    selection
}

/// A folder of a source.
pub struct FolderScope {
    pub source: String,
    pub folder: String,
}

/// How the entries of a playlist are ordered.
#[derive(Clone, Copy, Debug, PartialEq, Eq, Structural)]
pub enum EntrySort {
    Position,
    Title,
    Artist,
    Album,
}

pub open spec fn entry_sort_of(value: Seq<char>) -> Option<EntrySort> {
    if value == "position"@ {
        Some(EntrySort::Position)
    } else if value == "title"@ {
        Some(EntrySort::Title)
    } else if value == "artist"@ {
        Some(EntrySort::Artist)
    } else if value == "album"@ {
        Some(EntrySort::Album)
    } else {
        None
    }
}

pub fn entry_sort(value: &str) -> (result: Result<EntrySort, ApiError>)
    ensures
        match entry_sort_of(value@) {
            Some(sort) => result == Ok::<EntrySort, ApiError>(sort),
            None => result matches Err(error) && error.status == 400 && error.message@
                == "Unknown playlist entry sort"@,
        },
{
    if same(value, "position") {
        Ok(EntrySort::Position)
    } else if same(value, "title") {
        Ok(EntrySort::Title)
    } else if same(value, "artist") {
        Ok(EntrySort::Artist)
    } else if same(value, "album") {
        Ok(EntrySort::Album)
    } else {
        Err(bad_request("Unknown playlist entry sort"))
    }
}

/// What the queue is filled with.
#[allow(inconsistent_fields)]
pub enum QueueRequest {
    Uris { order: Vec<String> },
    /// An album, an artist or a genre.
    Collection {
        kind: MediaKind,
        id: String,
        album_artists: bool,
        scope: Option<FolderScope>,
        filter: Option<String>,
        sort: TrackSort,
        descending: bool,
        anchor_uri: Option<String>,
    },
    Playlist {
        id: String,
        scope: Option<FolderScope>,
        filter: Option<String>,
        sort: EntrySort,
        descending: bool,
        anchor_entry: Option<String>,
        anchor_uri: Option<String>,
    },
    Smart {
        id: String,
        source: Option<String>,
        scope: Option<FolderScope>,
        filter: Option<String>,
        anchor_uri: Option<String>,
    },
    Source {
        source: String,
        folder: Option<String>,
        favorites: bool,
        filter: Option<String>,
        sort: TrackSort,
        descending: bool,
        anchor_uri: Option<String>,
    },
}

/// Where the tracks go.
pub enum QueuePlace {
    Replace,
    Append,
    Next,
    Insert(QueueReorderTarget),
}

/// How a queue request is carried out.
pub struct QueuePlan {
    pub request: QueueRequest,
    pub place: QueuePlace,
    /// Playback may start anywhere in the list where it is shuffled.
    pub shuffled_start: bool,
}

pub open spec fn drop_target(before: Option<String>, after: Option<String>) -> QueueReorderTarget {
    match (before, after) {
        (Some(id), _) => QueueReorderTarget::Before(id),
        (None, Some(id)) => QueueReorderTarget::After(id),
        (None, None) => QueueReorderTarget::End,
    }
}

pub fn queue_drop_target(before: Option<String>, after: Option<String>) -> (result:
    QueueReorderTarget)
    ensures
        result == drop_target(before, after),
{
    match before {
        Some(id) => QueueReorderTarget::Before(id),
        None => match after {
            Some(id) => QueueReorderTarget::After(id),
            None => QueueReorderTarget::End,
        },
    }
}

/// The order that is asked for, or the usual one.
pub open spec fn sort_text(sort: Option<String>, usual: Seq<char>) -> Seq<char> {
    match sort {
        Some(sort) => sort@,
        None => usual,
    }
}

pub open spec fn is_on(flag: Option<bool>) -> bool {
    flag == Some(true)
}

/// The folder that a selection is limited to; a selection of a source names it itself.
pub open spec fn scope_of(kind: MediaKind, selection: QueueSelection) -> Option<FolderScope> {
    if kind != MediaKind::Source && selection.folder is Some {
        Some(FolderScope { source: selection.source->0, folder: selection.folder->0 })
    } else {
        None
    }
}

/// The usual order of a collection's tracks.
pub open spec fn usual_sort(kind: MediaKind) -> Seq<char> {
    if kind == MediaKind::Artist {
        "title"@
    } else {
        "track_number"@
    }
}

/// Why a selection of a kind cannot be queued.
pub open spec fn request_error(kind: MediaKind, selection: QueueSelection) -> Option<Seq<char>> {
    match kind {
        MediaKind::Track => if selection.uris is None {
            Some("missing field `uris`"@)
        } else {
            None
        },
        MediaKind::Album | MediaKind::Artist | MediaKind::Genre => if selection.id is None {
            Some("missing field `id`"@)
        } else if track_sort_of(sort_text(selection.sort, usual_sort(kind))) is None {
            Some("Unknown track sort"@)
        } else {
            None
        },
        MediaKind::Playlist => if selection.id is None {
            Some("missing field `id`"@)
        } else if entry_sort_of(sort_text(selection.sort, "position"@)) is None {
            Some("Unknown playlist entry sort"@)
        } else {
            None
        },
        MediaKind::SmartPlaylist => if selection.id is None {
            Some("missing field `id`"@)
        } else {
            None
        },
        MediaKind::Source => if selection.source is None {
            Some("missing field `source`"@)
        } else if track_sort_of(sort_text(selection.sort, "title"@)) is None {
            Some("Unknown track sort"@)
        } else {
            None
        },
        MediaKind::Unknown => Some("Unknown media kind"@),
    }
}

/// What a selection of a kind puts into the queue.
pub open spec fn request_of(kind: MediaKind, selection: QueueSelection) -> QueueRequest {
    match kind {
        MediaKind::Track => QueueRequest::Uris { order: selection.uris->0 },
        MediaKind::Playlist => QueueRequest::Playlist {
            id: selection.id->0,
            scope: scope_of(kind, selection),
            filter: selection.q,
            sort: entry_sort_of(sort_text(selection.sort, "position"@))->0,
            descending: is_on(selection.descending),
            anchor_entry: selection.anchor_entry,
            anchor_uri: selection.anchor_uri,
        },
        MediaKind::SmartPlaylist => QueueRequest::Smart {
            id: selection.id->0,
            source: selection.source,
            scope: scope_of(kind, selection),
            filter: selection.q,
            anchor_uri: selection.anchor_uri,
        },
        MediaKind::Source => QueueRequest::Source {
            source: selection.source->0,
            folder: selection.folder,
            favorites: is_on(selection.favorites),
            filter: selection.q,
            sort: track_sort_of(sort_text(selection.sort, "title"@))->0,
            descending: is_on(selection.descending),
            anchor_uri: selection.anchor_uri,
        },
        _ => QueueRequest::Collection {
            kind,
            id: selection.id->0,
            album_artists: is_on(selection.album_artists),
            scope: scope_of(kind, selection),
            filter: selection.q,
            sort: track_sort_of(sort_text(selection.sort, usual_sort(kind)))->0,
            descending: is_on(selection.descending),
            anchor_uri: selection.anchor_uri,
        },
    }
}

fn flag(value: Option<bool>) -> (result: bool)
    ensures
        result == is_on(value),
{
    match value {
        Some(value) => value,
        None => false,
    }
}

fn chosen_sort(sort: &Option<String>, usual: &str) -> (result: Result<TrackSort, ApiError>)
    ensures
        match track_sort_of(sort_text(*sort, usual@)) {
            Some(chosen) => result == Ok::<TrackSort, ApiError>(chosen),
            None => result matches Err(error) && error.status == 400 && error.message@
                == "Unknown track sort"@,
        },
{
    match sort {
        Some(sort) => track_sort(sort.as_str()),
        None => track_sort(usual),
    }
}

fn make_scope(kind: MediaKind, selection: &QueueSelection) -> (result: Result<
    Option<FolderScope>,
    ApiError,
>)
    ensures
        if kind != MediaKind::Source && selection.folder is Some && selection.source is None {
            result matches Err(error) && error.status == 400 && error.message@
                == "source is required with folder"@
        } else {
            result == Ok::<Option<FolderScope>, ApiError>(scope_of(kind, *selection))
        },
{
    if kind == MediaKind::Source {
        return Ok(None);
    }
    match &selection.folder {
        None => Ok(None),
        Some(folder) => match &selection.source {
            Some(source) => Ok(
                Some(FolderScope { source: source.clone(), folder: folder.clone() }),
            ),
            None => Err(bad_request("source is required with folder")),
        },
    }
}

fn make_request(kind: MediaKind, selection: QueueSelection, scope: Option<FolderScope>) -> (result:
    Result<QueueRequest, ApiError>)
    requires
        scope == scope_of(kind, selection),
    ensures
        match request_error(kind, selection) {
            None => result == Ok::<QueueRequest, ApiError>(request_of(kind, selection)),
            Some(message) => result matches Err(error) && error.status == 400 && error.message@
                == message,
        },
{
    match kind {
        MediaKind::Unknown => Err(bad_request("Unknown media kind")),
        MediaKind::Track => match selection.uris {
            Some(order) => Ok(QueueRequest::Uris { order }),
            None => Err(bad_request("missing field `uris`")),
        },
        MediaKind::Playlist => match selection.id {
            None => Err(bad_request("missing field `id`")),
            Some(id) => {
                let sort = match &selection.sort {
                    Some(sort) => entry_sort(sort.as_str()),
                    None => entry_sort("position"),
                };
                match sort {
                    Err(error) => Err(error),
                    Ok(sort) => Ok(
                        QueueRequest::Playlist {
                            id,
                            scope,
                            filter: selection.q,
                            sort,
                            descending: flag(selection.descending),
                            anchor_entry: selection.anchor_entry,
                            anchor_uri: selection.anchor_uri,
                        },
                    ),
                }
            },
        },
        MediaKind::SmartPlaylist => match selection.id {
            None => Err(bad_request("missing field `id`")),
            Some(id) => Ok(
                QueueRequest::Smart {
                    id,
                    source: selection.source,
                    scope,
                    filter: selection.q,
                    anchor_uri: selection.anchor_uri,
                },
            ),
        },
        MediaKind::Source => match selection.source {
            None => Err(bad_request("missing field `source`")),
            Some(source) => match chosen_sort(&selection.sort, "title") {
                Err(error) => Err(error),
                Ok(sort) => Ok(
                    QueueRequest::Source {
                        source,
                        folder: selection.folder,
                        favorites: flag(selection.favorites),
                        filter: selection.q,
                        sort,
                        descending: flag(selection.descending),
                        anchor_uri: selection.anchor_uri,
                    },
                ),
            },
        },
        MediaKind::Album => collection_request(kind, selection, scope),
        MediaKind::Artist => collection_request(kind, selection, scope),
        MediaKind::Genre => collection_request(kind, selection, scope),
    }
}

fn collection_request(
    kind: MediaKind,
    selection: QueueSelection,
    scope: Option<FolderScope>,
) -> (result: Result<QueueRequest, ApiError>)
    requires
        scope == scope_of(kind, selection),
        kind == MediaKind::Album || kind == MediaKind::Artist || kind == MediaKind::Genre,
    ensures
        match request_error(kind, selection) {
            None => result == Ok::<QueueRequest, ApiError>(request_of(kind, selection)),
            Some(message) => result matches Err(error) && error.status == 400 && error.message@
                == message,
        },
{
    let usual: &str = if kind == MediaKind::Artist {
        "title"
    } else {
        "track_number"
    };
    match selection.id {
        None => Err(bad_request("missing field `id`")),
        Some(id) => match chosen_sort(&selection.sort, usual) {
            Err(error) => Err(error),
            Ok(sort) => Ok(
                QueueRequest::Collection {
                    kind,
                    id,
                    album_artists: flag(selection.album_artists),
                    scope,
                    filter: selection.q,
                    sort,
                    descending: flag(selection.descending),
                    anchor_uri: selection.anchor_uri,
                },
            ),
        },
    }
}

/// The mode of a queue request.
pub open spec fn is_mode(mode: Seq<char>) -> bool {
    mode == "replace"@ || mode == "append"@ || mode == "next"@ || mode == "insert"@
}

pub open spec fn place_of(mode: Seq<char>, before: Option<String>, after: Option<String>) -> QueuePlace {
    if mode == "insert"@ {
        QueuePlace::Insert(drop_target(before, after))
    } else if mode == "replace"@ {
        QueuePlace::Replace
    } else if mode == "append"@ {
        QueuePlace::Append
    } else {
        QueuePlace::Next
    }
}

/// The selection that counts: widened where one track of a page is to be played.
pub open spec fn effective_selection(
    form: Option<Map<Seq<char>, String>>,
    mode: Seq<char>,
    selection: QueueSelection,
) -> QueueSelection {
    if widens(form, mode, selection) {
        widened(selection, form->0)
    } else {
        selection
    }
}

/// The kind that counts: the path's, unless a form names one.
pub open spec fn effective_kind(
    path: Seq<char>,
    form: Option<Map<Seq<char>, String>>,
    mode: Seq<char>,
    selection: QueueSelection,
) -> MediaKind {
    if widens(form, mode, selection) {
        widened_kind(page_view(form->0))
    } else if form is Some && selection.kind is Some {
        kind_named(selection.kind->0@)
    } else {
        kind_named(path_kind(path))
    }
}

/// What `serde_json` says of a text that is not JSON, or nothing of one that is.
pub uninterp spec fn json_fault(text: Seq<char>) -> Option<Seq<char>>;

/// `serde_json::from_str` for `serde_json::Value`: whether a text is JSON, and if not, why, is a
/// function of the text.
#[verifier::external_body]
fn json_error(text: &str) -> (result: Option<String>)
    ensures
        match result {
            Some(message) => json_fault(text@) == Some(message@),
            None => json_fault(text@) is None,
        },
{
    serde_json::from_str::<serde_json::Value>(text).err().map(|error| error.to_string())
}

/// What is wrong with the identity of the page that a form came from.
pub open spec fn page_fault(form: Option<Map<Seq<char>, String>>) -> Option<Seq<char>> {
    match form {
        Some(parameters) => match given(parameters, "id"@) {
            Some(text) => json_fault(text),
            None => None,
        },
        None => None,
    }
}

/// The message with which a queue request is refused. `fault` is what is wrong with the identity of
/// the page; it counts where a track is played with the page's list.
pub open spec fn queue_error(
    path: Seq<char>,
    form: Option<Map<Seq<char>, String>>,
    mode: Seq<char>,
    selection: QueueSelection,
    fault: Option<Seq<char>>,
) -> Option<Seq<char>> {
    let kind = effective_kind(path, form, mode, selection);
    let chosen = effective_selection(form, mode, selection);
    if widens(form, mode, selection) && fault is Some {
        fault
    } else if kind != MediaKind::Source && chosen.folder is Some && chosen.source is None {
        Some("source is required with folder"@)
    } else if !is_mode(mode) {
        Some("Queue mode must be replace, append, next or insert"@)
    } else {
        request_error(kind, chosen)
    }
}

/// The result is the plan for a queue request, or the message with which it is refused.
pub open spec fn plans(
    result: Result<QueuePlan, ApiError>,
    path: Seq<char>,
    form: Option<Map<Seq<char>, String>>,
    mode: Seq<char>,
    selection: QueueSelection,
    before: Option<String>,
    after: Option<String>,
    fault: Option<Seq<char>>,
) -> bool {
    let kind = effective_kind(path, form, mode, selection);
    let chosen = effective_selection(form, mode, selection);
    match queue_error(path, form, mode, selection, fault) {
        None => result == Ok::<QueuePlan, ApiError>(
            QueuePlan {
                request: request_of(kind, chosen),
                place: place_of(mode, before, after),
                shuffled_start: kind != MediaKind::Track && chosen.anchor_uri is None
                    && chosen.anchor_entry is None,
            },
        ),
        Some(message) => result matches Err(error) && error.status == 400 && error.message@
            == message,
    }
}

/// The parameters of the page that a form came from.
pub open spec fn page_of(form: Option<Parameters>) -> Option<Map<Seq<char>, String>> {
    match form {
        Some(parameters) => Some(parameters@),
        None => None,
    }
}

/// Plans a queue request. `form` holds the parameters of the page that a form came from.
pub fn queue_play(
    path: &str,
    form: &Option<Parameters>,
    mode: &str,
    selection: QueueSelection,
    before: Option<String>,
    after: Option<String>,
) -> (result: Result<QueuePlan, ApiError>)
    requires
        form matches Some(parameters) ==> parameters.wf(),
    ensures
        plans(
            result,
            path@,
            page_of(*form),
            mode@,
            selection,
            before,
            after,
            page_fault(page_of(*form)),
        ),
{
    let fault: Option<String> = match form {
        Some(parameters) => match parameters.get("id") {
            Some(text) => json_error(text.as_str()),
            None => None,
        },
        None => None,
    };
    queue_plan(path, form, mode, selection, before, after, fault)
}

/// Plans a queue request, from what is wrong with the identity of the page that a form came from.
pub fn queue_plan(
    path: &str,
    form: &Option<Parameters>,
    mode: &str,
    selection: QueueSelection,
    before: Option<String>,
    after: Option<String>,
    fault: Option<String>,
) -> (result: Result<QueuePlan, ApiError>)
    requires
        form matches Some(parameters) ==> parameters.wf(),
    ensures
        plans(
            result,
            path@,
            page_of(*form),
            mode@,
            selection,
            before,
            after,
            shown(fault),
        ),
{
    let mut kind: MediaKind = media_kind(kind_in_path(path).as_str());
    let mut chosen = selection;
    if let Some(parameters) = form {
        let mut track: bool = false;
        if let Some(name) = &chosen.kind {
            kind = media_kind(name.as_str());
            track = same(name.as_str(), "track");
        }
        let view = view_name(parameters);
        if track && same(mode, "replace") && is_track_list(view.as_str()) {
            if let Some(message) = fault {
                return Err(ApiError { status: 400, message });
            }
            chosen = widen(chosen, parameters);
            kind = if same(view.as_str(), "tracks") || same(view.as_str(), "favorites") {
                MediaKind::Source
            } else {
                media_kind(view.as_str())
            };
        }
    }
    let scope = match make_scope(kind, &chosen) {
        Ok(scope) => scope,
        Err(error) => {
            return Err(error);
        },
    };
    let shuffled_start: bool = kind != MediaKind::Track && chosen.anchor_uri.is_none()
        && chosen.anchor_entry.is_none();
    let place = if same(mode, "insert") {
        QueuePlace::Insert(queue_drop_target(before, after))
    } else if same(mode, "replace") {
        QueuePlace::Replace
    } else if same(mode, "append") {
        QueuePlace::Append
    } else if same(mode, "next") {
        QueuePlace::Next
    } else {
        return Err(bad_request("Queue mode must be replace, append, next or insert"));
    };
    match make_request(kind, chosen, scope) {
        Ok(request) => Ok(QueuePlan { request, place, shuffled_start }),
        Err(error) => Err(error),
    }
}

/// Playing one track of a page plays the page's whole list, with the page's source, filter and
/// order, and starts at that track.
pub proof fn tracks_play_with_their_page(
    path: Seq<char>,
    parameters: Map<Seq<char>, String>,
    selection: QueueSelection,
    uris: Vec<String>,
)
    requires
        selection.kind matches Some(kind) && kind@ == "track"@,
        selection.uris == Some(uris),
        uris@.len() > 0,
        lists_tracks(page_view(parameters)),
        parameters.dom().contains("source"@),
    ensures
        ({
            let chosen = effective_selection(Some(parameters), "replace"@, selection);
            &&& chosen.anchor_uri == Some(uris@[0])
            &&& chosen.source == Some(parameters["source"@])
            &&& chosen.q == given_or(parameters, "q"@, selection.q)
            &&& chosen.sort == given_or(parameters, "sort"@, selection.sort)
            &&& effective_kind(path, Some(parameters), "replace"@, selection) != MediaKind::Track
            &&& effective_kind(path, Some(parameters), "replace"@, selection) != MediaKind::Unknown
        }),
{
    reveal_strlit("track");
    reveal_strlit("album");
    reveal_strlit("artist");
    reveal_strlit("genre");
    reveal_strlit("playlist");
    reveal_strlit("smart-playlist");
    reveal_strlit("tracks");
    reveal_strlit("favorites");
    let view = page_view(parameters);
    assert("album"@.len() == 5 && "album"@[1] == 'l');
    assert("track"@.len() == 5 && "track"@[1] == 'r');
    assert("genre"@.len() == 5 && "genre"@[1] == 'e');
    assert("artist"@.len() == 6);
    assert("playlist"@.len() == 8);
    assert("smart-playlist"@.len() == 14);
}

/// Where an entry stands in a queue.
pub open spec fn entry_at(queue: Seq<Seq<char>>, id: Seq<char>) -> int {
    choose|i: int| 0 <= i < queue.len() && #[trigger] queue[i] == id
}

/// The queue with the tracks put in at a place.
pub open spec fn put_in(queue: Seq<Seq<char>>, at: int, tracks: Seq<Seq<char>>) -> Seq<Seq<char>> {
    queue.take(at) + tracks + queue.skip(at)
}

/// A queue of entries, the current one among them, once tracks came to their place.
pub open spec fn filled(
    queue: Seq<Seq<char>>,
    current: int,
    tracks: Seq<Seq<char>>,
    place: QueuePlace,
) -> Seq<Seq<char>> {
    match place {
        QueuePlace::Replace => tracks,
        QueuePlace::Append => put_in(queue, queue.len() as int, tracks),
        QueuePlace::Next => put_in(queue, current + 1, tracks),
        QueuePlace::Insert(QueueReorderTarget::Before(id)) => put_in(
            queue,
            entry_at(queue, id@),
            tracks,
        ),
        QueuePlace::Insert(QueueReorderTarget::After(id)) => put_in(
            queue,
            entry_at(queue, id@) + 1,
            tracks,
        ),
        QueuePlace::Insert(QueueReorderTarget::End) => put_in(queue, queue.len() as int, tracks),
    }
}

/// The tracks of a request that appends come to stand behind all earlier entries, which stay as
/// they were.
pub proof fn appended_tracks_come_last(
    result: Result<QueuePlan, ApiError>,
    path: Seq<char>,
    form: Option<Map<Seq<char>, String>>,
    selection: QueueSelection,
    before: Option<String>,
    after: Option<String>,
    fault: Option<Seq<char>>,
    queue: Seq<Seq<char>>,
    current: int,
    tracks: Seq<Seq<char>>,
)
    requires
        plans(result, path, form, "append"@, selection, before, after, fault),
        result is Ok,
        0 <= current < queue.len(),
    ensures
        filled(queue, current, tracks, result->Ok_0.place) == queue + tracks,
{
    modes_differ();
    assert(put_in(queue, queue.len() as int, tracks) =~= queue + tracks);
}

/// The tracks of a request to play next come to stand right behind the current entry: the entries up
/// to it stay before them, and those behind it follow.
pub proof fn next_tracks_follow_the_current_entry(
    result: Result<QueuePlan, ApiError>,
    path: Seq<char>,
    form: Option<Map<Seq<char>, String>>,
    selection: QueueSelection,
    before: Option<String>,
    after: Option<String>,
    fault: Option<Seq<char>>,
    queue: Seq<Seq<char>>,
    current: int,
    tracks: Seq<Seq<char>>,
)
    requires
        plans(result, path, form, "next"@, selection, before, after, fault),
        result is Ok,
        0 <= current < queue.len(),
    ensures
        ({
            let next = filled(queue, current, tracks, result->Ok_0.place);
            &&& next.len() == queue.len() + tracks.len()
            &&& next.take(current + 1) == queue.take(current + 1)
            &&& next.subrange(current + 1, current + 1 + tracks.len()) == tracks
            &&& next.skip(current + 1 + tracks.len()) == queue.skip(current + 1)
        }),
{
    modes_differ();
    let next = put_in(queue, current + 1, tracks);
    assert(next.take(current + 1) =~= queue.take(current + 1));
    assert(next.subrange(current + 1, current + 1 + tracks.len()) =~= tracks);
    assert(next.skip(current + 1 + tracks.len()) =~= queue.skip(current + 1));
}

/// A request that replaces leaves nothing of the queue but its own tracks.
pub proof fn replacing_leaves_only_the_new_tracks(
    result: Result<QueuePlan, ApiError>,
    path: Seq<char>,
    form: Option<Map<Seq<char>, String>>,
    selection: QueueSelection,
    before: Option<String>,
    after: Option<String>,
    fault: Option<Seq<char>>,
    queue: Seq<Seq<char>>,
    current: int,
    tracks: Seq<Seq<char>>,
)
    requires
        plans(result, path, form, "replace"@, selection, before, after, fault),
        result is Ok,
    ensures
        filled(queue, current, tracks, result->Ok_0.place) == tracks,
{
    modes_differ();
}

/// The tracks of a request to insert come to stand where they are dropped: right before the entry
/// that is named first, or right behind the one that is named else, or at the end.
pub proof fn inserted_tracks_stand_where_they_are_dropped(
    result: Result<QueuePlan, ApiError>,
    path: Seq<char>,
    form: Option<Map<Seq<char>, String>>,
    selection: QueueSelection,
    before: Option<String>,
    after: Option<String>,
    fault: Option<Seq<char>>,
    queue: Seq<Seq<char>>,
    current: int,
    tracks: Seq<Seq<char>>,
    at: int,
)
    requires
        plans(result, path, form, "insert"@, selection, before, after, fault),
        result is Ok,
        queue.no_duplicates(),
        0 <= at < queue.len(),
    ensures
        ({
            let next = filled(queue, current, tracks, result->Ok_0.place);
            &&& before matches Some(id) ==> (queue[at] == id@ ==> next == queue.take(at) + tracks
                + queue.skip(at))
            &&& before is None ==> (after matches Some(id) ==> (queue[at] == id@ ==> next
                == queue.take(at + 1) + tracks + queue.skip(at + 1)))
            &&& before is None && after is None ==> next == queue + tracks
        }),
{
    modes_differ();
    assert(put_in(queue, queue.len() as int, tracks) =~= queue + tracks);
    if let Some(id) = before {
        if queue[at] == id@ {
            assert(entry_at(queue, id@) == at);
        }
    } else if let Some(id) = after {
        if queue[at] == id@ {
            assert(entry_at(queue, id@) == at);
        }
    }
}

/// A request with any other mode is refused, and one of the four modes is not refused for it.
pub proof fn other_modes_are_refused(
    result: Result<QueuePlan, ApiError>,
    path: Seq<char>,
    form: Option<Map<Seq<char>, String>>,
    mode: Seq<char>,
    selection: QueueSelection,
    before: Option<String>,
    after: Option<String>,
    fault: Option<Seq<char>>,
)
    requires
        plans(result, path, form, mode, selection, before, after, fault),
    ensures
        result is Ok ==> mode == "replace"@ || mode == "append"@ || mode == "next"@ || mode
            == "insert"@,
        result is Err ==> result->Err_0.status == 400,
{
}

proof fn modes_differ()
    ensures
        "append"@ != "next"@ && "append"@ != "replace"@ && "append"@ != "insert"@,
        "next"@ != "replace"@ && "next"@ != "insert"@ && "replace"@ != "insert"@,
{
    reveal_strlit("append");
    reveal_strlit("next");
    reveal_strlit("replace");
    reveal_strlit("insert");
    assert("append"@[0] == 'a' && "next"@[0] == 'n' && "replace"@[0] == 'r' && "insert"@[0] == 'i');
}

/// A request names what is selected and nothing else: tracks by their order, and everything else by
/// its identity, its filter and its folder, from the start that is asked for.
pub proof fn requests_name_what_is_selected(
    result: Result<QueuePlan, ApiError>,
    path: Seq<char>,
    mode: Seq<char>,
    selection: QueueSelection,
    before: Option<String>,
    after: Option<String>,
    fault: Option<Seq<char>>,
)
    requires
        plans(result, path, None, mode, selection, before, after, fault),
        result is Ok,
    ensures
        match result->Ok_0.request {
            QueueRequest::Uris { order } => selection.uris == Some(order),
            QueueRequest::Collection {
                id,
                album_artists,
                scope,
                filter,
                descending,
                anchor_uri,
                ..
            } => {
                &&& selection.id == Some(id)
                &&& album_artists == (selection.album_artists == Some(true))
                &&& filter == selection.q
                &&& descending == (selection.descending == Some(true))
                &&& anchor_uri == selection.anchor_uri
                &&& within(scope, selection)
            },
            QueueRequest::Playlist {
                id,
                scope,
                filter,
                descending,
                anchor_entry,
                anchor_uri,
                ..
            } => {
                &&& selection.id == Some(id)
                &&& filter == selection.q
                &&& descending == (selection.descending == Some(true))
                &&& anchor_uri == selection.anchor_uri && anchor_entry == selection.anchor_entry
                &&& within(scope, selection)
            },
            QueueRequest::Smart { id, source, scope, filter, anchor_uri } => {
                &&& selection.id == Some(id)
                &&& source == selection.source
                &&& filter == selection.q
                &&& anchor_uri == selection.anchor_uri
                &&& within(scope, selection)
            },
            QueueRequest::Source {
                source,
                folder,
                favorites,
                filter,
                descending,
                anchor_uri,
                ..
            } => {
                &&& selection.source == Some(source)
                &&& folder == selection.folder
                &&& favorites == (selection.favorites == Some(true))
                &&& filter == selection.q
                &&& descending == (selection.descending == Some(true))
                &&& anchor_uri == selection.anchor_uri
            },
        },
        result->Ok_0.shuffled_start ==> selection.anchor_uri is None && selection.anchor_entry
            is None && !(result->Ok_0.request is Uris),
        !result->Ok_0.shuffled_start ==> selection.anchor_uri is Some || selection.anchor_entry
            is Some || result->Ok_0.request is Uris,
{
}

/// The request is limited to the folder of the selection, in its source.
pub open spec fn within(scope: Option<FolderScope>, selection: QueueSelection) -> bool {
    match scope {
        Some(scope) => selection.folder == Some(scope.folder) && selection.source == Some(
            scope.source,
        ),
        None => selection.folder is None,
    }
}

/// A request over HTTP asks for the kind that its path names: two paths ask for the same kind only
/// where they name the same, or something unknown.
pub proof fn kinds_are_named_apart(a: Seq<char>, b: Seq<char>)
    requires
        kind_named(a) == kind_named(b),
        kind_named(a) != MediaKind::Unknown,
    ensures
        a == b,
{
}

/// Requests for different kinds are different requests.
pub proof fn kinds_ask_for_different_things(kind: MediaKind, selection: QueueSelection)
    requires
        request_error(kind, selection) is None,
    ensures
        request_of(kind, selection) is Uris <==> kind == MediaKind::Track,
        request_of(kind, selection) is Playlist <==> kind == MediaKind::Playlist,
        request_of(kind, selection) is Smart <==> kind == MediaKind::SmartPlaylist,
        request_of(kind, selection) is Source <==> kind == MediaKind::Source,
        request_of(kind, selection) matches QueueRequest::Collection { kind: asked, .. } ==> asked
            == kind,
{
}

/// A track that is played with its page is played as the page shows it: its source, folder, filter,
/// order and collection are those that the page has, favorites are played from the favorites, and a
/// track of a playlist is found again by its entry.
pub proof fn pages_are_played_as_they_are_shown(
    parameters: Map<Seq<char>, String>,
    selection: QueueSelection,
)
    ensures
        ({
            let chosen = widened(selection, parameters);
            let view = page_view(parameters);
            &&& parameters.dom().contains("source"@) ==> chosen.source == Some(
                parameters["source"@],
            )
            &&& parameters.dom().contains("folder"@) ==> chosen.folder == Some(
                parameters["folder"@],
            )
            &&& parameters.dom().contains("q"@) ==> chosen.q == Some(parameters["q"@])
            &&& parameters.dom().contains("sort"@) ==> chosen.sort == Some(parameters["sort"@])
            &&& parameters.dom().contains("id"@) ==> chosen.id == Some(parameters["id"@])
            &&& chosen.favorites == Some(true) <==> view == "favorites"@
            &&& chosen.descending == Some(true) <==> given(parameters, "descending"@) == Some(
                "true"@,
            )
            &&& view == "playlist"@ ==> chosen.anchor_entry == selection.id
            &&& selection.uris matches Some(uris) ==> (uris@.len() > 0 ==> chosen.anchor_uri == Some(
                uris@[0],
            ))
            &&& chosen.uris == selection.uris && chosen.album_artists == selection.album_artists
        }),
{
}

/// A form plays what it names, and a request without a form what its path names; only one track of a
/// list that is to replace the queue is played with its page.
pub proof fn only_replacing_tracks_are_played_with_their_page(
    path: Seq<char>,
    form: Option<Map<Seq<char>, String>>,
    mode: Seq<char>,
    selection: QueueSelection,
)
    ensures
        mode != "replace"@ || form is None || !(selection.kind matches Some(kind) && kind@
            == "track"@) ==> effective_selection(form, mode, selection) == selection,
        form is None ==> effective_kind(path, form, mode, selection) == kind_named(path_kind(path)),
        form is Some && mode != "replace"@ ==> (selection.kind matches Some(kind)
            ==> effective_kind(path, form, mode, selection) == kind_named(kind@)),
        form is Some && selection.kind is None ==> effective_kind(path, form, mode, selection)
            == kind_named(path_kind(path)),
{
}

/// A request that names a mode, a known kind and all that the kind needs is carried out.
pub proof fn complete_requests_are_carried_out(
    result: Result<QueuePlan, ApiError>,
    path: Seq<char>,
    mode: Seq<char>,
    selection: QueueSelection,
    before: Option<String>,
    after: Option<String>,
    fault: Option<Seq<char>>,
)
    requires
        plans(result, path, None, mode, selection, before, after, fault),
        mode == "replace"@ || mode == "append"@ || mode == "next"@ || mode == "insert"@,
        kind_named(path_kind(path)) != MediaKind::Unknown,
        selection.uris is Some && selection.id is Some && selection.source is Some,
        selection.sort is None,
    ensures
        result is Ok,
{
    reveal_strlit("title");
    reveal_strlit("track_number");
    reveal_strlit("position");
}

/// A path names what stands behind the route of the queue; the route itself stands for tracks.
pub proof fn paths_name_their_kind(name: Seq<char>, path: Seq<char>)
    ensures
        path_kind("/api/queue/"@ + name) == name,
        path.len() < "/api/queue/"@.len() ==> path_kind(path) == "track"@,
{
    let whole = "/api/queue/"@ + name;
    let length = "/api/queue/"@.len() as int;
    assert(whole.subrange(0, length) =~= "/api/queue/"@);
    assert(whole.skip(length) =~= name);
}

} // verus!
