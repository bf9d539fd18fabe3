//! The rows, sections and files of the player's pages.

use vstd::prelude::*;
use vstd::string::*;
use vstd::utf8::*;

use crate::api::browser::{clock, clock_text, links_to, link};
use crate::api::form::{queries, query_text, texts_of};
use crate::api::parameters::{not_found, ApiError, Parameters};
use crate::text::{
    chars_of, decimal, decimal_text, joined, join_texts, joined_by, json_of_text, json_text, same,
    string_of, texts, trim_by, trim_chars, CharClass,
};
use crate::textmap::TextMap;

verus! {

/// A row of a list.
pub struct Row {
    /// The identity, as JSON.
    pub id: String,
    pub uri: Option<String>,
    pub title: Option<String>,
    pub name: Option<String>,
    pub object_id: Option<String>,
    pub favorite: bool,
    pub duration_ms: u64,
}

pub open spec fn text_of(text: Option<String>) -> Seq<char> {
    match text {
        Some(text) => text@,
        None => ""@,
    }
}

fn or_empty(text: &Option<String>) -> (result: &str)
    ensures
        result@ == text_of(*text),
{
    match text {
        Some(text) => text.as_str(),
        None => "",
    }
}

/// The parameters of the page of a row.
pub open spec fn row_texts(
    texts: Map<Seq<char>, Seq<char>>,
    title: Seq<char>,
    kind: Seq<char>,
    id: Seq<char>,
) -> Map<Seq<char>, Seq<char>> {
    texts.remove("offset"@).remove("q"@).remove("sort"@).insert("title"@, title).insert(
        "view"@,
        kind,
    ).insert("id"@, id)
}

/// The parameters by which a row's cover is asked for.
pub open spec fn cover_texts(
    texts: Map<Seq<char>, Seq<char>>,
    kind: Seq<char>,
    id: Seq<char>,
    uri: Seq<char>,
) -> Map<Seq<char>, Seq<char>> {
    if kind == "playlist"@ {
        Map::<Seq<char>, Seq<char>>::empty().insert("playlist"@, id)
    } else if kind == "smart-playlist"@ {
        texts.insert("smart_playlist"@, id)
    } else {
        Map::<Seq<char>, Seq<char>>::empty().insert("uri"@, uri)
    }
}

/// Hours, minutes and seconds, without those that are zero.
pub open spec fn long_clock(millis: u64) -> Seq<char> {
    let seconds = millis as nat / 1000;
    joined_by(
        unit(seconds / 3600, "h"@) + unit(seconds % 3600 / 60, "m"@) + unit(seconds % 60, "s"@),
        " "@,
    )
}

pub open spec fn unit(n: nat, name: Seq<char>) -> Seq<Seq<char>> {
    if n == 0 {
        seq![]
    } else {
        seq![decimal(n) + name]
    }
}

fn push_unit(list: &mut Vec<String>, n: u64, name: &str)
    ensures
        texts(final(list)@) == texts(old(list)@) + unit(n as nat, name@),
{
    let ghost before = texts(list@);
    if n != 0 {
        list.push(joined(decimal_text(n).as_str(), name));
    }
    assert(texts(list@) =~= before + unit(n as nat, name@));
}

/// The FNV hash of bytes.
pub open spec fn fnv(bytes: Seq<u8>) -> u32
    decreases bytes.len(),
{
    if bytes.len() == 0 {
        0x811c9dc5
    } else {
        (((fnv(bytes.drop_last()) as nat * 16777619) % 0x1_0000_0000) as u32) ^ (
        bytes.last() as u32)
    }
}

/// The color of a cover that is missing, by the identity of what it is for.
pub open spec fn color_of(seed: u32) -> u32 {
    (seed ^ ((seed << 13) | (seed >> 19)) ^ ((seed >> 9) | (seed << 23))) % 16
}

impl Row {
    pub open spec fn heading(&self) -> Seq<char> {
        match self.title {
            Some(title) => title@,
            None => text_of(self.name),
        }
    }

    pub fn title(&self) -> (result: &str)
        ensures
            result@ == self.heading(),
    {
        match &self.title {
            Some(title) => title.as_str(),
            None => or_empty(&self.name),
        }
    }

    pub fn favorite(&self) -> (result: bool)
        ensures
            result == self.favorite,
    {
        self.favorite
    }

    pub fn duration(&self) -> (result: String)
        ensures
            result@ == clock(self.duration_ms),
    {
        clock_text(self.duration_ms)
    }

    pub fn long_duration(&self) -> (result: String)
        ensures
            result@ == long_clock(self.duration_ms),
    {
        let seconds: u64 = self.duration_ms / 1000;
        let mut list: Vec<String> = Vec::new();
        assert(texts(list@) =~= Seq::<Seq<char>>::empty());
        push_unit(&mut list, seconds / 3600, "h");
        push_unit(&mut list, seconds % 3600 / 60, "m");
        push_unit(&mut list, seconds % 60, "s");
        assert(texts(list@) =~= unit(seconds as nat / 3600, "h"@) + unit(
            seconds as nat % 3600 / 60,
            "m"@,
        ) + unit(seconds as nat % 60, "s"@));
        join_texts(&list, " ")
    }

    pub fn palette(&self) -> (result: u32)
        ensures
            result == color_of(fnv(encode_utf8(text_of(self.object_id)))),
            result < 16,
    {
        let bytes = or_empty(&self.object_id).as_bytes();
        let mut seed: u32 = 0x811c9dc5;
        let mut i: usize = 0;
        while i < bytes.len()
            invariant
                i <= bytes@.len(),
                seed == fnv(bytes@.take(i as int)),
            decreases bytes@.len() - i,
        {
            proof {
                assert(bytes@.take(i + 1).drop_last() =~= bytes@.take(i as int));
                assert(bytes@.take(i + 1).last() == bytes@[i as int]);
            }
            seed = seed.wrapping_mul(16777619) ^ (bytes[i] as u32);
            i += 1;
        }
        assert(bytes@.take(i as int) =~= bytes@);
        (seed ^ ((seed << 13) | (seed >> 19)) ^ ((seed >> 9) | (seed << 23))) % 16
    }

    /// The link to the page of a row.
    pub fn href(&self, parameters: &Parameters, kind: &str) -> (result: String)
        requires
            parameters.wf(),
        ensures
            exists|target: Map<Seq<char>, String>| #[trigger]
                links_to(result@, target) && texts_of(target) == row_texts(
                    texts_of(parameters@),
                    self.heading(),
                    kind@,
                    trim_by(self.id@, CharClass::Only('"')),
                ),
    {
        let mut target = parameters.copy();
        let ghost a = target@;
        let _ = target.remove("offset");
        assert(texts_of(target@) =~= texts_of(a).remove("offset"@));
        let ghost b = target@;
        let _ = target.remove("q");
        assert(texts_of(target@) =~= texts_of(b).remove("q"@));
        let ghost c = target@;
        let _ = target.remove("sort");
        assert(texts_of(target@) =~= texts_of(c).remove("sort"@));
        let ghost d = target@;
        target.insert("title".to_owned(), self.title().to_owned());
        assert(texts_of(target@) =~= texts_of(d).insert("title"@, self.heading()));
        let ghost e = target@;
        target.insert("view".to_owned(), kind.to_owned());
        assert(texts_of(target@) =~= texts_of(e).insert("view"@, kind@));
        let ghost f = target@;
        let id = string_of(&trim_chars(&chars_of(self.id.as_str()), CharClass::Only('"')));
        target.insert("id".to_owned(), id);
        assert(texts_of(target@) =~= texts_of(f).insert(
            "id"@,
            trim_by(self.id@, CharClass::Only('"')),
        ));
        let result = link(&target);
        assert(links_to(result@, target@));
        result
    }

    /// The address of a row's cover.
    pub fn artwork(&self, parameters: &Parameters, kind: &str) -> (result: String)
        requires
            parameters.wf(),
        ensures
            exists|query: Seq<char>, target: Map<Seq<char>, String>|
                result@ == "/api/artwork?"@ + query && #[trigger] queries(query, target)
                    && texts_of(target) == cover_texts(
                    texts_of(parameters@),
                    kind@,
                    self.id@,
                    text_of(self.uri),
                ),
    {
        let mut target: Parameters = TextMap::new();
        let ghost none = target@;
        assert(texts_of(none) =~= Map::<Seq<char>, Seq<char>>::empty());
        if same(kind, "playlist") {
            target.insert("playlist".to_owned(), self.id.clone());
            assert(texts_of(target@) =~= texts_of(none).insert("playlist"@, self.id@));
        } else if same(kind, "smart-playlist") {
            target = parameters.copy();
            target.insert("smart_playlist".to_owned(), self.id.clone());
            assert(texts_of(target@) =~= texts_of(parameters@).insert("smart_playlist"@, self.id@));
        } else {
            target.insert("uri".to_owned(), or_empty(&self.uri).to_owned());
            assert(texts_of(target@) =~= texts_of(none).insert("uri"@, text_of(self.uri)));
        }
        let query = query_text(&target);
        assert(queries(query@, target@));
        joined("/api/artwork?", query.as_str())
    }

    /// The selection of a row, as JSON.
    pub open spec fn selection_text(
        &self,
        kind: Seq<char>,
        source: Option<Seq<char>>,
        folder: Option<Seq<char>>,
    ) -> Seq<char> {
        let uri = match self.uri {
            Some(uri) => json_of_text(uri@),
            None => "null"@,
        };
        "{\"favorite\":"@ + (if self.favorite {
            "false"@
        } else {
            "true"@
        }) + (match folder {
            Some(folder) => ",\"folder\":"@ + json_of_text(folder),
            None => ""@,
        }) + ",\"id\":"@ + self.id@ + ",\"kind\":"@ + json_of_text(kind) + (match source {
            Some(source) => ",\"source\":"@ + json_of_text(source),
            None => ""@,
        }) + ",\"uri\":"@ + uri + (if kind == "track"@ {
            ",\"uris\":["@ + uri + "]"@
        } else {
            ""@
        }) + "}"@
    }

    pub fn selection(&self, parameters: &Parameters, kind: &str) -> (result: String)
        requires
            parameters.wf(),
        ensures
            result@ == self.selection_text(
                kind@,
                crate::api::parameters::given(parameters@, "source"@),
                crate::api::parameters::given(parameters@, "folder"@),
            ),
    {
        let uri = match &self.uri {
            Some(uri) => json_text(uri.as_str()),
            None => "null".to_owned(),
        };
        let folder = match parameters.get("folder") {
            Some(folder) => joined(",\"folder\":", json_text(folder.as_str()).as_str()),
            None => "".to_owned(),
        };
        let source = match parameters.get("source") {
            Some(source) => joined(",\"source\":", json_text(source.as_str()).as_str()),
            None => "".to_owned(),
        };
        let mut list = "".to_owned();
        if same(kind, "track") {
            list = joined(",\"uris\":[", uri.as_str());
            list.append("]");
        }
        let mut text = "{\"favorite\":".to_owned();
        if self.favorite {
            text.append("false");
        } else {
            text.append("true");
        }
        text.append(folder.as_str());
        text.append(",\"id\":");
        text.append(self.id.as_str());
        text.append(",\"kind\":");
        text.append(json_text(kind).as_str());
        text.append(source.as_str());
        text.append(",\"uri\":");
        text.append(uri.as_str());
        text.append(list.as_str());
        text.append("}");
        text
    }
}

/// The heading of a disc.
#[derive(Clone, Copy, Debug, PartialEq, Eq, Structural)]
pub enum DiscHeading {
    Disc(i64),
    Unknown,
}

impl DiscHeading {
    /// The message that is translated; the number of the disc goes into it.
    pub fn message(self) -> (result: &'static str)
        ensures
            result@ == match self {
                DiscHeading::Disc(_) => "Disc {number}"@,
                DiscHeading::Unknown => "Unknown disc"@,
            },
    {
        match self {
            DiscHeading::Disc(_) => "Disc {number}",
            DiscHeading::Unknown => "Unknown disc",
        }
    }
}

pub open spec fn heading_of_disc(disc: i64) -> DiscHeading {
    if disc > 0 {
        DiscHeading::Disc(disc)
    } else {
        DiscHeading::Unknown
    }
}

/// Where the discs of an album start, and their numbers.
pub struct DiscSection {
    pub start: usize,
    pub disc: i64,
}

/// The last disc that starts at a row.
pub open spec fn disc_at(sections: Seq<DiscSection>, row: int) -> Option<i64>
    decreases sections.len(),
{
    if sections.len() == 0 {
        None
    } else if sections.last().start == row {
        Some(sections.last().disc)
    } else {
        disc_at(sections.drop_last(), row)
    }
}

/// The heading before a row of a page, where a disc starts there. `offset` is the place of the
/// page's first row.
pub fn disc_heading(sections: &Vec<DiscSection>, offset: usize, index: usize) -> (result: Option<
    DiscHeading,
>)
    requires
        offset + index <= usize::MAX,
    ensures
        result == match disc_at(sections@, offset + index) {
            Some(disc) => Some(heading_of_disc(disc)),
            None => None,
        },
{
    let row: usize = offset + index;
    let mut i: usize = sections.len();
    assert(sections@.take(i as int) =~= sections@);
    while i > 0
        invariant
            i <= sections@.len(),
            row == offset + index,
            disc_at(sections@, row as int) == disc_at(sections@.take(i as int), row as int),
        decreases i,
    {
        proof {
            assert(sections@.take(i as int).drop_last() =~= sections@.take(i - 1));
            assert(sections@.take(i as int).last() == sections@[i - 1]);
        }
        let section = &sections[i - 1];
        if section.start == row {
            return Some(
                if section.disc > 0 {
                    DiscHeading::Disc(section.disc)
                } else {
                    DiscHeading::Unknown
                },
            );
        }
        i -= 1;
    }
    None
}

/// A list that a page shows.
pub struct ListKind {
    pub field: &'static str,
    pub kind: &'static str,
}

/// The first of the lists that an answer can hold, by which of them it holds.
pub fn list_kind(
    tracks: bool,
    entries: bool,
    albums: bool,
    artists: bool,
    playlists: bool,
    smart_playlists: bool,
) -> (result: Option<ListKind>)
    ensures
        match result {
            Some(list) => {
                &&& list.field@ == if tracks {
                    "tracks"@
                } else if entries {
                    "entries"@
                } else if albums {
                    "albums"@
                } else if artists {
                    "artists"@
                } else if playlists {
                    "playlists"@
                } else {
                    "smart_playlists"@
                }
                &&& list.kind@ == if tracks || entries {
                    "track"@
                } else if albums {
                    "album"@
                } else if artists {
                    "artist"@
                } else if playlists {
                    "playlist"@
                } else {
                    "smart-playlist"@
                }
                &&& tracks || entries || albums || artists || playlists || smart_playlists
            },
            None => !(tracks || entries || albums || artists || playlists || smart_playlists),
        },
{
    if tracks {
        Some(ListKind { field: "tracks", kind: "track" })
    } else if entries {
        Some(ListKind { field: "entries", kind: "track" })
    } else if albums {
        Some(ListKind { field: "albums", kind: "album" })
    } else if artists {
        Some(ListKind { field: "artists", kind: "artist" })
    } else if playlists {
        Some(ListKind { field: "playlists", kind: "playlist" })
    } else if smart_playlists {
        Some(ListKind { field: "smart_playlists", kind: "smart-playlist" })
    } else {
        None
    }
}

/// The identity of a row's menu in a list.
pub fn library_menu_id(offset: usize, index: usize) -> (result: String)
    requires
        offset + index <= usize::MAX,
    ensures
        result@ == "media-menu-library-"@ + decimal((offset + index) as nat),
{
    joined("media-menu-library-", decimal_text((offset + index) as u64).as_str())
}

/// The identity of a row's menu on the home page: by its block, or by the place of a section of the
/// server.
pub fn home_menu_id(block: &str, section: usize, index: usize) -> (result: String)
    ensures
        result@ == "media-menu-home-"@ + (if block@.len() > 0 {
            block@
        } else {
            "provider-"@ + decimal(section as nat)
        }) + "-"@ + decimal(index as nat),
{
    let name = if block.is_empty() {
        joined("provider-", decimal_text(section as u64).as_str())
    } else {
        block.to_owned()
    };
    let mut id = joined("media-menu-home-", name.as_str());
    id.append("-");
    id.append(decimal_text(index as u64).as_str());
    id
}

/// Whether a page is answered with HTML rather than JSON.
pub fn wants_html(hx_request: Option<&str>) -> (result: bool)
    ensures
        result == (hx_request matches Some(value) && value@ == "true"@),
{
    match hx_request {
        Some(value) => same(value, "true"),
        None => false,
    }
}

/// The icon of a kind of source: its file, and whether it is a drawing.
pub open spec fn source_icon_of(kind: Seq<char>) -> Option<(Seq<char>, bool)> {
    if kind == "jellyfin"@ {
        Some(("jellyfin"@, false))
    } else if kind == "navidrome"@ {
        Some(("navidrome"@, false))
    } else if kind == "subsonic"@ {
        Some(("opensubsonic"@, false))
    } else if kind == "webdav"@ {
        Some(("webdav"@, false))
    } else if kind == "smb"@ {
        Some(("smb"@, false))
    } else if kind == "plex"@ {
        Some(("plex"@, true))
    } else if kind == "emby"@ {
        Some(("emby"@, true))
    } else {
        None
    }
}

pub fn source_icon(kind: &str) -> (result: Result<(&'static str, bool), ApiError>)
    ensures
        match source_icon_of(kind@) {
            Some((name, drawing)) => result matches Ok(icon) && icon.0@ == name && icon.1
                == drawing,
            None => result matches Err(error) && error.status == 404 && error.message@
                == "Source icon not found"@,
        },
{
    if same(kind, "jellyfin") {
        Ok(("jellyfin", false))
    } else if same(kind, "navidrome") {
        Ok(("navidrome", false))
    } else if same(kind, "subsonic") {
        Ok(("opensubsonic", false))
    } else if same(kind, "webdav") {
        Ok(("webdav", false))
    } else if same(kind, "smb") {
        Ok(("smb", false))
    } else if same(kind, "plex") {
        Ok(("plex", true))
    } else if same(kind, "emby") {
        Ok(("emby", true))
    } else {
        Err(not_found("Source icon not found"))
    }
}

/// A script of the pages.
pub open spec fn is_script(file: Seq<char>) -> bool {
    file == "ui.js"@ || file == "connection.js"@ || file == "library.js"@ || file == "player.js"@
        || file == "sources.js"@ || file == "menus.js"@ || file == "random.js"@ || file
        == "queue.js"@ || file == "pins.js"@ || file == "drag.js"@
}

/// Only the scripts of the pages are served.
pub fn script(file: &str) -> (result: Result<(), ApiError>)
    ensures
        match result {
            Ok(()) => is_script(file@),
            Err(error) => !is_script(file@) && error.status == 404 && error.message@
                == "File not found"@,
        },
{
    if same(file, "ui.js") || same(file, "connection.js") || same(file, "library.js") || same(
        file,
        "player.js",
    ) || same(file, "sources.js") || same(file, "menus.js") || same(file, "random.js") || same(
        file,
        "queue.js",
    ) || same(file, "pins.js") || same(file, "drag.js") {
        Ok(())
    } else {
        Err(not_found("File not found"))
    }
}

/// A style sheet of the pages.
pub open spec fn is_style(file: Seq<char>) -> bool {
    file == "base.css"@ || file == "layout.css"@ || file == "icons.css"@ || file == "library.css"@
        || file == "player.css"@ || file == "sources.css"@ || file == "menus.css"@ || file
        == "random.css"@
}

/// Only the style sheets of the pages are served.
pub fn style(file: &str) -> (result: Result<(), ApiError>)
    ensures
        match result {
            Ok(()) => is_style(file@),
            Err(error) => !is_style(file@) && error.status == 404 && error.message@
                == "File not found"@,
        },
{
    if same(file, "base.css") || same(file, "layout.css") || same(file, "icons.css") || same(
        file,
        "library.css",
    ) || same(file, "player.css") || same(file, "sources.css") || same(file, "menus.css") || same(
        file,
        "random.css",
    ) {
        Ok(())
    } else {
        Err(not_found("File not found"))
    }
}

/// An icon of the player's actions.
pub open spec fn is_action_icon(name: Seq<char>) -> bool {
    name == "rufin-application-exit-symbolic.svg"@
        || name == "rufin-audio-only-symbolic.svg"@
        || name == "rufin-playlists-compact-symbolic.svg"@
        || name == "rufin-document-edit-symbolic.svg"@
        || name == "rufin-object-select-symbolic.svg"@
        || name == "rufin-x-office-calendar-symbolic.svg"@
        || name == "rufin-more-symbolic.svg"@
        || name == "rufin-open-menu-symbolic.svg"@
        || name == "rufin-process-stop-symbolic.svg"@
        || name == "rufin-home-symbolic.svg"@
        || name == "rufin-sort-name-symbolic.svg"@
        || name == "rufin-sort-name-descending-symbolic.svg"@
        || name == "rufin-preferences-system-time-symbolic.svg"@
        || name == "rufin-heart-outline-symbolic.svg"@
        || name == "rufin-heart-filled-symbolic.svg"@
        || name == "rufin-mail-forward-symbolic.svg"@
        || name == "rufin-go-last-symbolic.svg"@
        || name == "rufin-artists-symbolic.svg"@
        || name == "rufin-smart-playlists-symbolic.svg"@
        || name == "rufin-shuffle-symbolic.svg"@
        || name == "rufin-external-link-compact-symbolic.svg"@
        || name == "rufin-edit-clear-symbolic.svg"@
        || name == "rufin-window-close-symbolic.svg"@
        || name == "rufin-repeat-symbolic.svg"@
        || name == "rufin-repeat-one-symbolic.svg"@
        || name == "rufin-auto-dj-symbolic.svg"@
        || name == "rufin-random-symbolic.svg"@
        || name == "rufin-preferences-system-symbolic.svg"@
        || name == "rufin-sidebar-hide-symbolic.svg"@
        || name == "rufin-sidebar-collapse-right-symbolic.svg"@
        || name == "rufin-view-more-symbolic.svg"@
        || name == "rufin-player-more-symbolic.svg"@
        || name == "rufin-media-playback-start-symbolic.svg"@
        || name == "rufin-media-playback-pause-symbolic.svg"@
        || name == "rufin-media-skip-backward-symbolic.svg"@
        || name == "rufin-media-skip-forward-symbolic.svg"@
        || name == "rufin-audio-volume-high-symbolic.svg"@
        || name == "rufin-audio-volume-low-symbolic.svg"@
        || name == "rufin-audio-volume-medium-symbolic.svg"@
        || name == "rufin-sidebar-expand-right-symbolic.svg"@
        || name == "rufin-audio-volume-muted-symbolic.svg"@
        || name == "rufin-tracks-symbolic.svg"@
        || name == "rufin-albums-symbolic.svg"@
        || name == "rufin-playlists-symbolic.svg"@
        || name == "rufin-folders-symbolic.svg"@
        || name == "rufin-music-queue-symbolic.svg"@
        || name == "rufin-network-server-symbolic.svg"@
        || name == "rufin-list-add-symbolic.svg"@
        || name == "rufin-list-remove-symbolic.svg"@
        || name == "rufin-view-refresh-symbolic.svg"@
        || name == "rufin-go-previous-symbolic.svg"@
        || name == "rufin-go-next-symbolic.svg"@
        || name == "rufin-sidebar-show-symbolic.svg"@
        || name == "rufin-lyrics-search-symbolic.svg"@
}

/// A file of icons.
#[derive(Clone, Copy, Debug, PartialEq, Eq, Structural)]
pub enum IconFile {
    /// The player's own symbol.
    Symbol,
    /// The player's logo, drawn without its margin.
    Logo,
    Action,
}

/// Only the icons of the pages are served.
pub fn icon(name: &str) -> (result: Result<IconFile, ApiError>)
    ensures
        match result {
            Ok(file) => file == if name@ == "rufin-symbolic.svg"@ {
                IconFile::Symbol
            } else if name@ == "rufin.svg"@ || name@ == "favicon.svg"@ {
                IconFile::Logo
            } else {
                IconFile::Action
            } && (file == IconFile::Action ==> is_action_icon(name@)),
            Err(error) => name@ != "rufin-symbolic.svg"@ && name@ != "rufin.svg"@ && name@
                != "favicon.svg"@ && !is_action_icon(name@) && error.status == 404
                && error.message@ == "Icon not found"@,
        },
{
    if same(name, "rufin-symbolic.svg") {
        return Ok(IconFile::Symbol);
    }
    if same(name, "rufin.svg") || same(name, "favicon.svg") {
        return Ok(IconFile::Logo);
    }
    if same(name, "rufin-application-exit-symbolic.svg")
        || same(name, "rufin-audio-only-symbolic.svg")
        || same(name, "rufin-playlists-compact-symbolic.svg")
        || same(name, "rufin-document-edit-symbolic.svg")
        || same(name, "rufin-object-select-symbolic.svg")
        || same(name, "rufin-x-office-calendar-symbolic.svg")
        || same(name, "rufin-more-symbolic.svg")
        || same(name, "rufin-open-menu-symbolic.svg")
        || same(name, "rufin-process-stop-symbolic.svg")
        || same(name, "rufin-home-symbolic.svg")
        || same(name, "rufin-sort-name-symbolic.svg")
        || same(name, "rufin-sort-name-descending-symbolic.svg")
        || same(name, "rufin-preferences-system-time-symbolic.svg")
        || same(name, "rufin-heart-outline-symbolic.svg")
        || same(name, "rufin-heart-filled-symbolic.svg")
        || same(name, "rufin-mail-forward-symbolic.svg")
        || same(name, "rufin-go-last-symbolic.svg")
        || same(name, "rufin-artists-symbolic.svg")
        || same(name, "rufin-smart-playlists-symbolic.svg")
        || same(name, "rufin-shuffle-symbolic.svg")
        || same(name, "rufin-external-link-compact-symbolic.svg")
        || same(name, "rufin-edit-clear-symbolic.svg")
        || same(name, "rufin-window-close-symbolic.svg")
        || same(name, "rufin-repeat-symbolic.svg")
        || same(name, "rufin-repeat-one-symbolic.svg")
        || same(name, "rufin-auto-dj-symbolic.svg")
        || same(name, "rufin-random-symbolic.svg")
        || same(name, "rufin-preferences-system-symbolic.svg")
        || same(name, "rufin-sidebar-hide-symbolic.svg")
        || same(name, "rufin-sidebar-collapse-right-symbolic.svg")
        || same(name, "rufin-view-more-symbolic.svg")
        || same(name, "rufin-player-more-symbolic.svg")
        || same(name, "rufin-media-playback-start-symbolic.svg")
        || same(name, "rufin-media-playback-pause-symbolic.svg")
        || same(name, "rufin-media-skip-backward-symbolic.svg")
        || same(name, "rufin-media-skip-forward-symbolic.svg")
        || same(name, "rufin-audio-volume-high-symbolic.svg")
        || same(name, "rufin-audio-volume-low-symbolic.svg")
        || same(name, "rufin-audio-volume-medium-symbolic.svg")
        || same(name, "rufin-sidebar-expand-right-symbolic.svg")
        || same(name, "rufin-audio-volume-muted-symbolic.svg")
        || same(name, "rufin-tracks-symbolic.svg")
        || same(name, "rufin-albums-symbolic.svg")
        || same(name, "rufin-playlists-symbolic.svg")
        || same(name, "rufin-folders-symbolic.svg")
        || same(name, "rufin-music-queue-symbolic.svg")
        || same(name, "rufin-network-server-symbolic.svg")
        || same(name, "rufin-list-add-symbolic.svg")
        || same(name, "rufin-list-remove-symbolic.svg")
        || same(name, "rufin-view-refresh-symbolic.svg")
        || same(name, "rufin-go-previous-symbolic.svg")
        || same(name, "rufin-go-next-symbolic.svg")
        || same(name, "rufin-sidebar-show-symbolic.svg")
        || same(name, "rufin-lyrics-search-symbolic.svg") {
        Ok(IconFile::Action)
    } else {
        Err(not_found("Icon not found"))
    }
}

/// The page of a row shows that row from its start, in the place that the list was of: only what
/// belongs to the list itself is left behind.
pub proof fn rows_lead_to_their_own_page(
    texts: Map<Seq<char>, Seq<char>>,
    title: Seq<char>,
    kind: Seq<char>,
    id: Seq<char>,
)
    ensures
        ({
            let page = row_texts(texts, title, kind, id);
            &&& page["view"@] == kind && page["id"@] == id && page["title"@] == title
            &&& !page.dom().contains("offset"@) && !page.dom().contains("q"@) && !page.dom().contains(
                "sort"@,
            )
            &&& texts.dom().contains("source"@) ==> page.dom().contains("source"@)
                && page["source"@] == texts["source"@]
            &&& texts.dom().contains("folder"@) ==> page.dom().contains("folder"@)
                && page["folder"@] == texts["folder"@]
        }),
{
    reveal_strlit("offset");
    reveal_strlit("q");
    reveal_strlit("sort");
    reveal_strlit("title");
    reveal_strlit("view");
    reveal_strlit("id");
    reveal_strlit("source");
    reveal_strlit("folder");
    assert("offset"@[0] == 'o' && "q"@[0] == 'q' && "title"@[0] == 't' && "view"@[0] == 'v');
    assert("id"@[0] == 'i' && "folder"@[0] == 'f');
    assert("sort"@.len() == 4 && "source"@.len() == 6 && "sort"@[0] == 's' && "source"@[0] == 's');
}

/// A heading stands before a row exactly where a disc of the album starts there.
pub proof fn headings_stand_where_discs_start(sections: Seq<DiscSection>, row: int, i: int)
    requires
        0 <= i < sections.len(),
    ensures
        sections[i].start == row ==> disc_at(sections, row) is Some,
        disc_at(sections, row) matches Some(disc) ==> exists|k: int|
            0 <= k < sections.len() && (#[trigger] sections[k]).start == row && sections[k].disc
                == disc,
    decreases sections.len(),
{
    let init = sections.drop_last();
    let last = sections.len() - 1;
    if sections[last].start == row {
        assert(sections[last].disc == disc_at(sections, row)->0);
    } else if init.len() > 0 {
        headings_stand_where_discs_start(
            init,
            row,
            if i < init.len() {
                i
            } else {
                0
            },
        );
        if let Some(disc) = disc_at(init, row) {
            let k = choose|k: int|
                0 <= k < init.len() && (#[trigger] init[k]).start == row && init[k].disc == disc;
            assert(sections[k].start == row && sections[k].disc == disc);
        }
    } else {
        assert(disc_at(init, row) is None);
    }
}

} // verus!
