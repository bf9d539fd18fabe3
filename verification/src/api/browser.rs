//! The player's pages in a browser.

use vstd::prelude::*;
use vstd::string::*;

use crate::api::form::{queries, query_text, texts_of};
use crate::api::listing::PageKind;
use crate::api::parameters::{bad_request, boolean, given, ApiError, Parameters};
use crate::playback::plex::RepeatMode;
use crate::sorted::{insert_sorted, is_sorted, sorted_lists_are_unique};
use crate::text::{
    decimal, decimal_text, joined, json_of_text, json_text, lower_text, same, shown, texts,
    unicode_lower,
};
use crate::textmap::{pairs_map, TextMap};

verus! {

/// The rows of one page.
pub const PAGE_ROWS: usize = 48;

/// A link to a page: what it is read back as is all that counts of the order of its parameters.
pub open spec fn links_to(text: Seq<char>, parameters: Map<Seq<char>, String>) -> bool {
    exists|query: Seq<char>| text == "/?"@ + query && #[trigger] queries(query, parameters)
}

pub fn link(parameters: &Parameters) -> (result: String)
    requires
        parameters.wf(),
    ensures
        links_to(result@, parameters@),
{
    let query = query_text(parameters);
    let result = joined("/?", query.as_str());
    assert(queries(query@, parameters@));
    result
}

/// Minutes and seconds.
pub open spec fn clock(millis: u64) -> Seq<char> {
    let seconds = (millis as nat / 1000) % 60;
    decimal(millis as nat / 60000) + ":"@ + (if seconds < 10 {
        "0"@
    } else {
        ""@
    }) + decimal(seconds)
}

pub fn clock_text(millis: u64) -> (result: String)
    ensures
        result@ == clock(millis),
{
    let seconds: u64 = (millis / 1000) % 60;
    let mut text = joined(decimal_text(millis / 60000).as_str(), ":");
    if seconds < 10 {
        text.append("0");
    } else {
        text.append("");
    }
    text.append(decimal_text(seconds).as_str());
    text
}

/// The track that is played.
pub struct CurrentTrack {
    pub id: String,
    pub uri: String,
    pub title: String,
    pub artist: String,
    pub album: String,
}

/// The switches of the player.
#[derive(Clone, Copy, Debug, PartialEq, Eq, Structural)]
pub struct Switches {
    pub shuffle: bool,
    pub muted: bool,
    pub auto_dj: bool,
    pub can_seek: bool,
    pub queue_loading: bool,
}

/// How the pages look.
pub struct Appearance {
    pub theme: Option<String>,
    /// The colors by name; `color-scheme` among them decides the theme.
    pub colors: TextMap<String>,
}

/// What a page shows.
pub struct Page {
    pub connected: bool,
    pub appearance: Appearance,
    pub csrf: String,
    pub source: String,
    /// The sources by their identities and names, and the folders of the current one.
    pub sources: Vec<(String, String)>,
    pub folders: Vec<(String, String)>,
    pub parameters: Parameters,
    pub current_track: Option<CurrentTrack>,
    pub current_favorite: bool,
    pub switches: Switches,
    pub repeat: Option<RepeatMode>,
    pub position: u64,
    pub duration: u64,
}

pub open spec fn view_in(parameters: Map<Seq<char>, String>) -> Seq<char> {
    match given(parameters, "view"@) {
        Some(view) => view,
        None => "home"@,
    }
}

/// The list that a page of one collection belongs to.
pub open spec fn parent_of(view: Seq<char>) -> Seq<char> {
    if view == "album"@ {
        "albums"@
    } else if view == "artist"@ {
        "artists"@
    } else if view == "genre"@ {
        "home"@
    } else if view == "playlist"@ {
        "playlists"@
    } else if view == "smart-playlist"@ {
        "smart-playlists"@
    } else {
        ""@
    }
}

/// Pages that are not of one source.
pub open spec fn is_sourceless(view: Seq<char>) -> bool {
    view == "playlists"@ || view == "playlist"@ || view == "smart-playlists"@ || view
        == "smart-playlist"@
}

pub open spec fn text_or_empty(parameters: Map<Seq<char>, String>, key: Seq<char>) -> Seq<char> {
    match given(parameters, key) {
        Some(text) => text,
        None => ""@,
    }
}

impl Page {
    pub open spec fn wf(&self) -> bool {
        self.parameters.wf() && self.appearance.colors.wf()
    }

    pub open spec fn theme_name(&self) -> Seq<char> {
        match given(self.appearance.colors@, "color-scheme"@) {
            Some(scheme) => scheme,
            None => match self.appearance.theme {
                Some(theme) => theme@,
                None => "System"@,
            },
        }
    }

    pub fn theme(&self) -> (result: String)
        requires
            self.wf(),
        ensures
            result@ == unicode_lower(self.theme_name()),
    {
        match self.appearance.colors.get("color-scheme") {
            Some(scheme) => lower_text(scheme.as_str()),
            None => match &self.appearance.theme {
                Some(theme) => lower_text(theme.as_str()),
                None => lower_text("System"),
            },
        }
    }

    pub fn view(&self) -> (result: &str)
        requires
            self.wf(),
        ensures
            result@ == view_in(self.parameters@),
    {
        match self.parameters.get("view") {
            Some(view) => view.as_str(),
            None => "home",
        }
    }

    pub fn parent_view(&self) -> (result: &str)
        requires
            self.wf(),
        ensures
            result@ == parent_of(view_in(self.parameters@)),
    {
        let view = self.view();
        if same(view, "album") {
            "albums"
        } else if same(view, "artist") {
            "artists"
        } else if same(view, "genre") {
            "home"
        } else if same(view, "playlist") {
            "playlists"
        } else if same(view, "smart-playlist") {
            "smart-playlists"
        } else {
            ""
        }
    }

    /// Whether the page can be played as a whole.
    pub fn can_play_collection(&self) -> (result: bool)
        requires
            self.wf(),
        ensures
            ({
                let view = view_in(self.parameters@);
                result == (parent_of(view).len() > 0 || (self.source@.len() > 0 && (view
                    == "tracks"@ || view == "favorites"@)))
            }),
    {
        let view = self.view();
        !self.parent_view().is_empty() || (!self.source.as_str().is_empty() && (same(view, "tracks")
            || same(view, "favorites")))
    }

    pub fn needs_source(&self) -> (result: bool)
        requires
            self.wf(),
        ensures
            result == (self.source@.len() == 0 && !is_sourceless(view_in(self.parameters@))),
    {
        let view = self.view();
        self.source.as_str().is_empty() && !(same(view, "playlists") || same(view, "playlist")
            || same(view, "smart-playlists") || same(view, "smart-playlist"))
    }

    pub fn current_id(&self) -> (result: &str)
        ensures
            result@ == match self.current_track {
                Some(track) => track.id@,
                None => ""@,
            },
    {
        match &self.current_track {
            Some(track) => track.id.as_str(),
            None => "",
        }
    }

    pub fn has_current(&self) -> (result: bool)
        ensures
            result == self.current_track is Some,
    {
        self.current_track.is_some()
    }

    /// The selection that turns the favorite mark of the current track over.
    pub fn current_selection(&self) -> (result: String)
        ensures
            result@ == "{\"favorite\":"@ + (if self.current_favorite {
                "false"@
            } else {
                "true"@
            }) + ",\"kind\":\"track\",\"uri\":"@ + (match self.current_track {
                Some(track) => json_of_text(track.uri@),
                None => "null"@,
            }) + "}"@,
    {
        let mut text = "{\"favorite\":".to_owned();
        if self.current_favorite {
            text.append("false");
        } else {
            text.append("true");
        }
        text.append(",\"kind\":\"track\",\"uri\":");
        match &self.current_track {
            Some(track) => text.append(json_text(track.uri.as_str()).as_str()),
            None => text.append("null"),
        }
        text.append("}");
        text
    }

    pub fn position_time(&self) -> (result: String)
        ensures
            result@ == clock(self.position),
    {
        clock_text(self.position)
    }

    pub fn duration_time(&self) -> (result: String)
        ensures
            result@ == clock(self.duration),
    {
        clock_text(self.duration)
    }

    /// The link to another page, in the same source and folder.
    pub fn nav(&self, view: &str) -> (result: String)
        requires
            self.wf(),
        ensures
            exists|parameters: Map<Seq<char>, String>| #[trigger]
                links_to(result@, parameters) && texts_of(parameters) == nav_texts(
                    view@,
                    self.source@,
                    given(self.parameters@, "folder"@),
                ),
    {
        let mut parameters: Parameters = TextMap::new();
        parameters.insert("view".to_owned(), view.to_owned());
        if !self.source.as_str().is_empty() {
            parameters.insert("source".to_owned(), self.source.clone());
        }
        if let Some(folder) = self.parameters.get("folder") {
            parameters.insert("folder".to_owned(), folder.clone());
        }
        assert(texts_of(parameters@) =~= nav_texts(
            view@,
            self.source@,
            given(self.parameters@, "folder"@),
        ));
        let result = link(&parameters);
        assert(links_to(result@, parameters@));
        result
    }

    pub fn current(&self) -> (result: String)
        requires
            self.wf(),
        ensures
            links_to(result@, self.parameters@),
    {
        link(&self.parameters)
    }

    pub fn query(&self) -> (result: &str)
        requires
            self.wf(),
        ensures
            result@ == text_or_empty(self.parameters@, "q"@),
    {
        match self.parameters.get("q") {
            Some(text) => text.as_str(),
            None => "",
        }
    }

    pub fn folder(&self) -> (result: &str)
        requires
            self.wf(),
        ensures
            result@ == text_or_empty(self.parameters@, "folder"@),
    {
        match self.parameters.get("folder") {
            Some(text) => text.as_str(),
            None => "",
        }
    }

    pub fn source_name(&self) -> (result: &str)
        ensures
            result@ == name_of(self.sources@, self.source@),
    {
        let mut i: usize = 0;
        assert(self.sources@.skip(0) =~= self.sources@);
        while i < self.sources.len()
            invariant
                i <= self.sources@.len(),
                name_of(self.sources@, self.source@) == name_of(
                    self.sources@.skip(i as int),
                    self.source@,
                ),
            decreases self.sources@.len() - i,
        {
            assert(self.sources@.skip(i as int).drop_first() =~= self.sources@.skip(i + 1));
            if same(self.sources[i].0.as_str(), self.source.as_str()) {
                return self.sources[i].1.as_str();
            }
            i += 1;
        }
        ""
    }

    pub fn sort(&self) -> (result: &str)
        requires
            self.wf(),
        ensures
            result@ == match given(self.parameters@, "sort"@) {
                Some(sort) => sort,
                None => if view_in(self.parameters@) == "album"@ {
                    "track_number"@
                } else if view_in(self.parameters@) == "playlist"@ {
                    "position"@
                } else {
                    "title"@
                },
            },
    {
        match self.parameters.get("sort") {
            Some(sort) => sort.as_str(),
            None => {
                let view = self.view();
                if same(view, "album") {
                    "track_number"
                } else if same(view, "playlist") {
                    "position"
                } else {
                    "title"
                }
            },
        }
    }

    pub fn descending(&self) -> (result: bool)
        requires
            self.wf(),
        ensures
            result == (given(self.parameters@, "descending"@) == Some("true"@)),
    {
        match self.parameters.get("descending") {
            Some(text) => same(text.as_str(), "true"),
            None => false,
        }
    }

    /// Whether a switch of the player is on, by its name.
    pub fn enabled(&self, name: &str) -> (result: bool)
        ensures
            result == if name@ == "shuffle"@ {
                self.switches.shuffle
            } else if name@ == "muted"@ {
                self.switches.muted
            } else if name@ == "auto_dj"@ {
                self.switches.auto_dj
            } else if name@ == "can_seek"@ {
                self.switches.can_seek
            } else if name@ == "queue_loading"@ {
                self.switches.queue_loading
            } else {
                false
            },
    {
        if same(name, "shuffle") {
            self.switches.shuffle
        } else if same(name, "muted") {
            self.switches.muted
        } else if same(name, "auto_dj") {
            self.switches.auto_dj
        } else if same(name, "can_seek") {
            self.switches.can_seek
        } else if same(name, "queue_loading") {
            self.switches.queue_loading
        } else {
            false
        }
    }

    /// The message that is translated for the repeat button.
    pub fn repeat_title(&self) -> (result: &'static str)
        ensures
            result@ == match self.repeat {
                Some(RepeatMode::All) => "Repeat all"@,
                Some(RepeatMode::One) => "Repeat one"@,
                _ => "Repeat off"@,
            },
    {
        match self.repeat {
            Some(RepeatMode::All) => "Repeat all",
            Some(RepeatMode::One) => "Repeat one",
            _ => "Repeat off",
        }
    }

    /// The title of the page; one that is not given is translated.
    pub fn title(&self) -> (result: &str)
        requires
            self.wf(),
        ensures
            result@ == match given(self.parameters@, "title"@) {
                Some(title) => title,
                None => heading_of(view_in(self.parameters@)),
            },
    {
        match self.parameters.get("title") {
            Some(title) => title.as_str(),
            None => {
                let view = self.view();
                if same(view, "home") {
                    "Home"
                } else if same(view, "favorites") {
                    "Favorites"
                } else if same(view, "albums") {
                    "Albums"
                } else if same(view, "artists") {
                    "Artists"
                } else if same(view, "playlists") {
                    "Playlists"
                } else if same(view, "smart-playlists") {
                    "Smart Playlists"
                } else {
                    "Tracks"
                }
            },
        }
    }

    /// The colors as a style, in the order of their names.
    pub fn color_style(&self) -> (result: String)
        requires
            self.wf(),
        ensures
            exists|names: Seq<Seq<char>>| #[trigger]
                lists_names(names, self.appearance.colors@) && result@ == style_of(
                    names,
                    self.appearance.colors@,
                ),
    {
        let ghost colors = self.appearance.colors@;
        let names = sorted_names(&self.appearance.colors);
        let mut text = String::new();
        let mut i: usize = 0;
        while i < names.len()
            invariant
                self.wf(),
                i <= names@.len(),
                colors == self.appearance.colors@,
                lists_names(texts(names@), colors),
                text@ == style_of(texts(names@).take(i as int), colors),
            decreases names@.len() - i,
        {
            proof {
                assert(texts(names@).take(i + 1).drop_last() =~= texts(names@).take(i as int));
                assert(texts(names@).take(i + 1).last() == names@[i as int]@);
                assert(texts(names@)[i as int] == names@[i as int]@);
                assert(texts(names@).contains(names@[i as int]@));
            }
            if let Some(value) = self.appearance.colors.get(names[i].as_str()) {
                text.append(names[i].as_str());
                text.append(":");
                text.append(value.as_str());
                text.append(";");
                assert(text@ =~= style_of(texts(names@).take(i + 1), colors));
            }
            i += 1;
        }
        assert(texts(names@).take(i as int) =~= texts(names@));
        text
    }
}

/// The names are those of the colors, in order.
pub open spec fn lists_names(names: Seq<Seq<char>>, colors: Map<Seq<char>, String>) -> bool {
    is_sorted(names) && forall|name: Seq<char>|
        names.contains(name) <==> #[trigger] colors.dom().contains(name)
}

/// Each name, a colon, its value and a semicolon.
pub open spec fn style_of(names: Seq<Seq<char>>, colors: Map<Seq<char>, String>) -> Seq<char>
    decreases names.len(),
{
    if names.len() == 0 {
        seq![]
    } else {
        style_of(names.drop_last(), colors) + names.last() + ":"@ + colors[names.last()]@ + ";"@
    }
}

fn sorted_names(colors: &TextMap<String>) -> (names: Vec<String>)
    requires
        colors.wf(),
    ensures
        lists_names(texts(names@), colors@),
{
    let pairs = colors.to_pairs();
    let mut names: Vec<String> = Vec::new();
    let mut i: usize = 0;
    assert(texts(names@) =~= Seq::<Seq<char>>::empty());
    while i < pairs.len()
        invariant
            i <= pairs@.len(),
            lists_names(texts(names@), pairs_map(pairs@.take(i as int))),
        decreases pairs@.len() - i,
    {
        proof {
            assert(pairs@.take(i + 1).drop_last() =~= pairs@.take(i as int));
            assert(pairs@.take(i + 1).last() == pairs@[i as int]);
        }
        insert_sorted(&mut names, pairs[i].0.clone());
        i += 1;
    }
    assert(pairs@.take(i as int) =~= pairs@);
    names
}

/// The colors have one style.
pub proof fn styles_are_unique(
    a: Seq<Seq<char>>,
    b: Seq<Seq<char>>,
    colors: Map<Seq<char>, String>,
)
    requires
        lists_names(a, colors),
        lists_names(b, colors),
    ensures
        style_of(a, colors) == style_of(b, colors),
{
    assert forall|t: Seq<char>| a.contains(t) <==> b.contains(t) by {
        assert(colors.dom().contains(t) <==> a.contains(t));
    }
    sorted_lists_are_unique(a, b);
}

pub open spec fn heading_of(view: Seq<char>) -> Seq<char> {
    if view == "home"@ {
        "Home"@
    } else if view == "favorites"@ {
        "Favorites"@
    } else if view == "albums"@ {
        "Albums"@
    } else if view == "artists"@ {
        "Artists"@
    } else if view == "playlists"@ {
        "Playlists"@
    } else if view == "smart-playlists"@ {
        "Smart Playlists"@
    } else {
        "Tracks"@
    }
}

/// The name of the first entry with the given identity.
pub open spec fn name_of(list: Seq<(String, String)>, id: Seq<char>) -> Seq<char>
    decreases list.len(),
{
    if list.len() == 0 {
        ""@
    } else if list[0].0@ == id {
        list[0].1@
    } else {
        name_of(list.drop_first(), id)
    }
}

/// The parameters of a link to another page.
pub open spec fn nav_texts(view: Seq<char>, source: Seq<char>, folder: Option<Seq<char>>) -> Map<
    Seq<char>,
    Seq<char>,
> {
    let shown = Map::<Seq<char>, Seq<char>>::empty().insert("view"@, view);
    let placed = if source.len() > 0 {
        shown.insert("source"@, source)
    } else {
        shown
    };
    match folder {
        Some(folder) => placed.insert("folder"@, folder),
        None => placed,
    }
}

/// A flag as a parameter.
pub open spec fn flag_text(flag: bool) -> Seq<char> {
    if flag {
        "true"@
    } else {
        "false"@
    }
}

/// The parameters after a request to turn the order over, where there is one.
pub open spec fn turned_over(texts: Map<Seq<char>, Seq<char>>) -> Map<Seq<char>, Seq<char>> {
    if texts.dom().contains("reverse"@) {
        let rest = texts.remove("reverse"@);
        let descending = rest.dom().contains("descending"@) && rest["descending"@] == "true"@;
        rest.insert("descending"@, flag_text(!descending))
    } else {
        texts
    }
}

/// The value of the order, where it is given, is a flag.
pub open spec fn order_is_flag(texts: Map<Seq<char>, Seq<char>>) -> bool {
    texts.dom().contains("descending"@) ==> texts["descending"@] == "true"@ || texts["descending"@]
        == "false"@
}

/// What a page knows of the sources.
pub struct SourceFacts {
    /// The source that is selected on the player, or else the first one.
    pub selected: Option<String>,
    pub first: Option<String>,
    /// The source of the open library and the folder that it is limited to.
    pub library: Option<String>,
    pub library_folder: Option<String>,
}

/// The source of a page: the one that is asked for, or the player's.
pub open spec fn placed(texts: Map<Seq<char>, Seq<char>>, facts: SourceFacts) -> Map<
    Seq<char>,
    Seq<char>,
> {
    let asked = if texts.dom().contains("source"@) && texts["source"@].len() == 0 {
        texts.remove("source"@)
    } else {
        texts
    };
    if asked.dom().contains("source"@) {
        asked
    } else {
        match facts.selected {
            Some(source) => asked.insert("source"@, source@),
            None => match facts.first {
                Some(source) => asked.insert("source"@, source@),
                None => asked,
            },
        }
    }
}

/// The folder of a page: the one that is asked for, or that of the open library.
pub open spec fn in_folder(texts: Map<Seq<char>, Seq<char>>, facts: SourceFacts) -> Map<
    Seq<char>,
    Seq<char>,
> {
    let source = if texts.dom().contains("source"@) {
        texts["source"@]
    } else {
        ""@
    };
    if shown(facts.library) == Some(source) && !texts.dom().contains("folder"@)
        && facts.library_folder is Some {
        texts.insert("folder"@, facts.library_folder->0@)
    } else {
        texts
    }
}

/// The parameters of a page that is shown.
pub open spec fn page_texts(texts: Map<Seq<char>, Seq<char>>, facts: SourceFacts) -> Map<
    Seq<char>,
    Seq<char>,
> {
    in_folder(placed(texts, facts), facts).insert("limit"@, "48"@)
}

proof fn texts_agree(parameters: Map<Seq<char>, String>)
    ensures
        texts_of(parameters).dom() == parameters.dom(),
        forall|key: Seq<char>|
            parameters.dom().contains(key) ==> texts_of(parameters)[key] == #[trigger] parameters[key]@,
{
    assert(texts_of(parameters).dom() =~= parameters.dom());
}

/// Turns the order over where the request asks for it.
pub fn turn_over(parameters: &mut Parameters) -> (result: Result<(), ApiError>)
    requires
        old(parameters).wf(),
    ensures
        final(parameters).wf(),
        result is Ok <==> !texts_of(old(parameters)@).dom().contains("reverse"@) || order_is_flag(
            texts_of(old(parameters)@),
        ),
        texts_of(final(parameters)@) == if result is Ok {
            turned_over(texts_of(old(parameters)@))
        } else {
            texts_of(old(parameters)@).remove("reverse"@)
        },
        result matches Err(error) ==> error.status == 400 && error.message@
            == "provided string was not `true` or `false`"@,
{
    let ghost before = parameters@;
    proof {
        texts_agree(before);
        reveal_strlit("reverse");
        reveal_strlit("descending");
        assert("reverse"@.len() != "descending"@.len());
    }
    if !parameters.contains("reverse") {
        return Ok(());
    }
    let _ = parameters.remove("reverse");
    let ghost rest = parameters@;
    proof {
        texts_agree(rest);
        assert(texts_of(rest) =~= texts_of(before).remove("reverse"@));
        reveal_strlit("true");
        reveal_strlit("false");
        assert("true"@.len() != "false"@.len());
    }
    match boolean(parameters, "descending") {
        Ok(descending) => {
            let text = if descending {
                "false".to_owned()
            } else {
                "true".to_owned()
            };
            let ghost value = text@;
            parameters.insert("descending".to_owned(), text);
            assert(texts_of(parameters@) =~= texts_of(rest).insert("descending"@, value));
            Ok(())
        },
        Err(error) => Err(error),
    }
}

/// Completes the parameters of a page that is shown to a connected browser.
pub fn complete(parameters: &mut Parameters, facts: &SourceFacts)
    requires
        old(parameters).wf(),
    ensures
        final(parameters).wf(),
        texts_of(final(parameters)@) == page_texts(texts_of(old(parameters)@), *facts),
{
    let ghost start = texts_of(parameters@);
    proof {
        texts_agree(parameters@);
    }
    let blank: bool = match parameters.get("source") {
        Some(source) => source.as_str().is_empty(),
        None => false,
    };
    if blank {
        let ghost before = parameters@;
        let _ = parameters.remove("source");
        assert(texts_of(parameters@) =~= texts_of(before).remove("source"@));
    }
    proof {
        texts_agree(parameters@);
    }
    if !parameters.contains("source") {
        let chosen: &Option<String> = if facts.selected.is_some() {
            &facts.selected
        } else {
            &facts.first
        };
        if let Some(source) = chosen {
            let ghost before = parameters@;
            parameters.insert("source".to_owned(), source.clone());
            assert(texts_of(parameters@) =~= texts_of(before).insert("source"@, source@));
        }
    }
    assert(texts_of(parameters@) =~= placed(start, *facts));
    proof {
        texts_agree(parameters@);
    }
    let here: bool = match (&facts.library, parameters.get("source")) {
        (Some(library), Some(source)) => same(library.as_str(), source.as_str()),
        (Some(library), None) => same(library.as_str(), ""),
        (None, _) => false,
    };
    if here && !parameters.contains("folder") {
        if let Some(folder) = &facts.library_folder {
            let ghost before = parameters@;
            parameters.insert("folder".to_owned(), folder.clone());
            assert(texts_of(parameters@) =~= texts_of(before).insert("folder"@, folder@));
        }
    }
    assert(texts_of(parameters@) =~= in_folder(placed(start, *facts), *facts));
    let ghost before = parameters@;
    parameters.insert("limit".to_owned(), "48".to_owned());
    assert(texts_of(parameters@) =~= texts_of(before).insert("limit"@, "48"@));
}

/// Prepares the parameters of a page: the order is turned over where that is asked for, and a
/// connected browser gets a source, a folder and a limit. The source of the page is returned.
pub fn index(parameters: &mut Parameters, connected: bool, facts: &SourceFacts) -> (result: Result<
    String,
    ApiError,
>)
    requires
        old(parameters).wf(),
    ensures
        final(parameters).wf(),
        ({
            let start = texts_of(old(parameters)@);
            let turned = turned_over(start);
            &&& result is Ok <==> !start.dom().contains("reverse"@) || order_is_flag(start)
            &&& result matches Err(error) ==> error.status == 400 && error.message@
                == "provided string was not `true` or `false`"@
            &&& result matches Ok(source) ==> {
                let shown = if connected {
                    page_texts(turned, *facts)
                } else {
                    turned
                };
                &&& texts_of(final(parameters)@) == shown
                &&& source@ == if connected && shown.dom().contains("source"@) {
                    shown["source"@]
                } else {
                    ""@
                }
            }
        }),
{
    if let Err(error) = turn_over(parameters) {
        return Err(error);
    }
    if !connected {
        return Ok("".to_owned());
    }
    complete(parameters, facts);
    proof {
        texts_agree(parameters@);
    }
    match parameters.get("source") {
        Some(source) => Ok(source.clone()),
        None => Ok("".to_owned()),
    }
}

/// Turning the order over twice gives it back.
pub proof fn turning_over_twice_is_nothing(texts: Map<Seq<char>, Seq<char>>)
    requires
        !texts.dom().contains("reverse"@),
        texts.dom().contains("descending"@),
        order_is_flag(texts),
    ensures
        turned_over(turned_over(texts.insert("reverse"@, ""@)).insert("reverse"@, ""@)) == texts,
{
    reveal_strlit("reverse");
    reveal_strlit("descending");
    reveal_strlit("true");
    reveal_strlit("false");
    assert("reverse"@.len() != "descending"@.len());
    assert("true"@.len() != "false"@.len());
    assert(texts.insert("reverse"@, ""@).remove("reverse"@) =~= texts);
    let once = turned_over(texts.insert("reverse"@, ""@));
    assert(once.insert("reverse"@, ""@).remove("reverse"@) =~= once);
    assert(turned_over(once.insert("reverse"@, ""@)) =~= texts);
}

/// The places of the pages before and after one, where there are any.
#[derive(Clone, Copy, Debug, PartialEq, Eq, Structural)]
pub struct Neighbors {
    pub previous: Option<usize>,
    pub next: Option<usize>,
}

pub open spec fn neighbors_of(offset: usize, count: usize) -> Neighbors {
    Neighbors {
        previous: if offset == 0 {
            None
        } else if offset < PAGE_ROWS {
            Some(0)
        } else {
            Some((offset - PAGE_ROWS) as usize)
        },
        next: if count == PAGE_ROWS {
            Some(
                if offset + PAGE_ROWS > usize::MAX {
                    usize::MAX
                } else {
                    (offset + PAGE_ROWS) as usize
                },
            )
        } else {
            None
        },
    }
}

/// The pages around one that starts at `offset` and shows `count` rows. A full page may have a
/// next one.
pub fn neighbors(offset: usize, count: usize) -> (result: Neighbors)
    ensures
        result == neighbors_of(offset, count),
{
    let previous: Option<usize> = if offset > 0 {
        Some(offset.saturating_sub(PAGE_ROWS))
    } else {
        None
    };
    let next: Option<usize> = if count == PAGE_ROWS {
        Some(offset.saturating_add(PAGE_ROWS))
    } else {
        None
    };
    Neighbors { previous, next }
}

/// The links to the pages before and after one. `offset` is the place of its first row, `count` the
/// number of its rows.
pub fn page_links(parameters: &Parameters, offset: usize, count: usize) -> (result: (
    Option<String>,
    Option<String>,
))
    requires
        parameters.wf(),
    ensures
        (result.0 is Some) == (offset > 0),
        (result.1 is Some) == (count == PAGE_ROWS),
        result.0 matches Some(text) ==> links_to_row(
            text@,
            parameters@,
            if offset < PAGE_ROWS {
                0
            } else {
                (offset - PAGE_ROWS) as nat
            },
        ),
        result.1 matches Some(text) ==> links_to_row(
            text@,
            parameters@,
            if offset + PAGE_ROWS > usize::MAX {
                usize::MAX as nat
            } else {
                (offset + PAGE_ROWS) as nat
            },
        ),
{
    let around = neighbors(offset, count);
    let previous = match around.previous {
        Some(row) => Some(row_link(parameters, row)),
        None => None,
    };
    let next = match around.next {
        Some(row) => Some(row_link(parameters, row)),
        None => None,
    };
    (previous, next)
}

/// A link to the same page, from another row on.
pub open spec fn links_to_row(
    text: Seq<char>,
    parameters: Map<Seq<char>, String>,
    row: nat,
) -> bool {
    exists|target: Map<Seq<char>, String>| #[trigger]
        links_to(text, target) && texts_of(target) == texts_of(parameters).insert(
            "offset"@,
            decimal(row),
        )
}

fn row_link(parameters: &Parameters, row: usize) -> (result: String)
    requires
        parameters.wf(),
    ensures
        links_to_row(result@, parameters@, row as nat),
{
    let mut target = parameters.copy();
    target.insert("offset".to_owned(), decimal_text(row as u64));
    assert(texts_of(target@) =~= texts_of(parameters@).insert("offset"@, decimal(row as nat)));
    let result = link(&target);
    assert(links_to(result@, target@));
    result
}

/// The message, to be translated, for a browser whose login failed.
pub fn login_error(parameters: &Parameters) -> (result: Option<&'static str>)
    requires
        parameters.wf(),
    ensures
        (result is Some) == (given(parameters@, "login"@) == Some("failed"@)),
        result matches Some(message) ==> message@
            == "The API token was not accepted. Please connect again."@,
{
    match parameters.get("login") {
        Some(text) => if same(text.as_str(), "failed") {
            Some("The API token was not accepted. Please connect again.")
        } else {
            None
        },
        None => None,
    }
}

/// Whether the player rests: unless it plays or is about to.
pub fn is_paused(state: Option<&str>) -> (result: bool)
    ensures
        result == !(state matches Some(state) && (state@ == "playing"@ || state@ == "resolving"@
            || state@ == "buffering"@)),
{
    match state {
        Some(state) => !(same(state, "playing") || same(state, "resolving") || same(
            state,
            "buffering",
        )),
        None => true,
    }
}

/// A page of the library.
#[derive(Clone, Copy, Debug, PartialEq, Eq, Structural)]
pub enum CatalogView {
    Home,
    List(PageKind),
}

pub open spec fn catalog_view_of(view: Seq<char>) -> Option<CatalogView> {
    if view == "home"@ {
        Some(CatalogView::Home)
    } else if view == "tracks"@ {
        Some(CatalogView::List(PageKind::Tracks))
    } else if view == "favorites"@ {
        Some(CatalogView::List(PageKind::Tracks))
    } else if view == "albums"@ {
        Some(CatalogView::List(PageKind::Albums))
    } else if view == "album"@ {
        Some(CatalogView::List(PageKind::AlbumTracks))
    } else if view == "artists"@ {
        Some(CatalogView::List(PageKind::Artists))
    } else if view == "artist"@ {
        Some(CatalogView::List(PageKind::ArtistTracks))
    } else if view == "genre"@ {
        Some(CatalogView::List(PageKind::GenreTracks))
    } else if view == "playlists"@ {
        Some(CatalogView::List(PageKind::Playlists))
    } else if view == "playlist"@ {
        Some(CatalogView::List(PageKind::Entries))
    } else if view == "smart-playlists"@ {
        Some(CatalogView::List(PageKind::SmartPlaylists))
    } else if view == "smart-playlist"@ {
        Some(CatalogView::List(PageKind::SmartTracks))
    } else {
        None
    }
}

/// The parameters with which a view is listed: favorites are tracks that are marked.
pub open spec fn listed_with(
    parameters: Map<Seq<char>, String>,
    listed: Map<Seq<char>, String>,
) -> bool {
    if view_in(parameters) == "favorites"@ {
        &&& given(listed, "favorites"@) == Some("true"@)
        &&& listed == parameters.insert("favorites"@, listed["favorites"@])
    } else {
        listed == parameters
    }
}

/// The page of the library that is asked for, with the parameters of its list.
pub fn catalog_page(parameters: Parameters) -> (result: Result<
    (CatalogView, Parameters),
    ApiError,
>)
    requires
        parameters.wf(),
    ensures
        match catalog_view_of(view_in(parameters@)) {
            Some(view) => result matches Ok((page, listed)) && page == view && listed.wf()
                && listed_with(parameters@, listed@),
            None => result matches Err(error) && error.status == 400 && error.message@
                == "Unknown library view"@,
        },
{
    let mut parameters = parameters;
    let view: String = match parameters.get("view") {
        Some(view) => view.clone(),
        None => "home".to_owned(),
    };
    let page: CatalogView = if same(view.as_str(), "home") {
        CatalogView::Home
    } else if same(view.as_str(), "tracks") {
        CatalogView::List(PageKind::Tracks)
    } else if same(view.as_str(), "favorites") {
        CatalogView::List(PageKind::Tracks)
    } else if same(view.as_str(), "albums") {
        CatalogView::List(PageKind::Albums)
    } else if same(view.as_str(), "album") {
        CatalogView::List(PageKind::AlbumTracks)
    } else if same(view.as_str(), "artists") {
        CatalogView::List(PageKind::Artists)
    } else if same(view.as_str(), "artist") {
        CatalogView::List(PageKind::ArtistTracks)
    } else if same(view.as_str(), "genre") {
        CatalogView::List(PageKind::GenreTracks)
    } else if same(view.as_str(), "playlists") {
        CatalogView::List(PageKind::Playlists)
    } else if same(view.as_str(), "playlist") {
        CatalogView::List(PageKind::Entries)
    } else if same(view.as_str(), "smart-playlists") {
        CatalogView::List(PageKind::SmartPlaylists)
    } else if same(view.as_str(), "smart-playlist") {
        CatalogView::List(PageKind::SmartTracks)
    } else {
        return Err(bad_request("Unknown library view"));
    };
    if same(view.as_str(), "favorites") {
        parameters.insert("favorites".to_owned(), "true".to_owned());
    }
    Ok((page, parameters))
}

/// Behind a full page comes the page that starts with the next row, and before any page but the first
/// the one that ends where it starts; going on and back again leads to the same page.
pub proof fn pages_lead_to_each_other(offset: usize, count: usize, other: usize)
    requires
        count <= PAGE_ROWS,
        offset + count <= usize::MAX,
    ensures
        neighbors_of(offset, count).next is Some <==> count == PAGE_ROWS,
        neighbors_of(offset, count).next matches Some(next) ==> next == offset + count
            && neighbors_of(next, other).previous == Some(offset),
        neighbors_of(offset, count).previous is None <==> offset == 0,
        neighbors_of(offset, count).previous matches Some(previous) ==> previous < offset && (offset
            >= PAGE_ROWS ==> offset - previous == PAGE_ROWS),
{
}

/// A page is of the source that is asked for, or else of the one that is selected, or else of the
/// first one; and in the folder that is asked for, or else, where its source is the open library's, in
/// the folder of that. All else that is asked for stays.
pub proof fn pages_are_of_the_source_that_is_asked_for(
    texts: Map<Seq<char>, Seq<char>>,
    facts: SourceFacts,
    key: Seq<char>,
)
    ensures
        ({
            let page = page_texts(texts, facts);
            let asked = texts.dom().contains("source"@) && texts["source"@].len() > 0;
            &&& asked ==> page.dom().contains("source"@) && page["source"@] == texts["source"@]
            &&& !asked ==> (facts.selected matches Some(source) ==> page.dom().contains("source"@)
                && page["source"@] == source@)
            &&& !asked && facts.selected is None ==> (facts.first matches Some(source)
                ==> page.dom().contains("source"@) && page["source"@] == source@)
            &&& texts.dom().contains("folder"@) ==> page.dom().contains("folder"@)
                && page["folder"@] == texts["folder"@]
            &&& page.dom().contains("folder"@) && !texts.dom().contains("folder"@) ==> (
            facts.library_folder matches Some(folder) && page["folder"@] == folder@)
            &&& texts.dom().contains(key) && key != "source"@ && key != "limit"@
                ==> page.dom().contains(key) && page[key] == texts[key]
        }),
{
    reveal_strlit("source");
    reveal_strlit("folder");
    reveal_strlit("limit");
    assert("source"@[0] == 's' && "folder"@[0] == 'f' && "limit"@[0] == 'l');
}

/// The list of which a page shows one collection is the list of that kind: the collection's own page
/// shows its tracks, and the list that it belongs to shows such collections.
pub proof fn collections_belong_to_lists_of_their_kind(view: Seq<char>)
    ensures
        view == "album"@ ==> catalog_view_of(view) == Some(CatalogView::List(PageKind::AlbumTracks))
            && catalog_view_of(parent_of(view)) == Some(CatalogView::List(PageKind::Albums)),
        view == "artist"@ ==> catalog_view_of(view) == Some(
            CatalogView::List(PageKind::ArtistTracks),
        ) && catalog_view_of(parent_of(view)) == Some(CatalogView::List(PageKind::Artists)),
        view == "playlist"@ ==> catalog_view_of(view) == Some(CatalogView::List(PageKind::Entries))
            && catalog_view_of(parent_of(view)) == Some(CatalogView::List(PageKind::Playlists)),
        view == "smart-playlist"@ ==> catalog_view_of(view) == Some(
            CatalogView::List(PageKind::SmartTracks),
        ) && catalog_view_of(parent_of(view)) == Some(CatalogView::List(PageKind::SmartPlaylists)),
        catalog_view_of(view) == Some(CatalogView::Home) ==> view == "home"@,
        catalog_view_of(view) == Some(CatalogView::List(PageKind::Tracks)) ==> view == "tracks"@
            || view == "favorites"@,
        catalog_view_of(view) == Some(CatalogView::List(PageKind::GenreTracks)) ==> view == "genre"@,
{
    reveal_strlit("home");
    reveal_strlit("tracks");
    reveal_strlit("favorites");
    reveal_strlit("albums");
    reveal_strlit("album");
    reveal_strlit("artists");
    reveal_strlit("artist");
    reveal_strlit("genre");
    reveal_strlit("playlists");
    reveal_strlit("playlist");
    reveal_strlit("smart-playlists");
    reveal_strlit("smart-playlist");
    assert("home"@.len() == 4 && "tracks"@.len() == 6 && "favorites"@.len() == 9);
    assert("albums"@.len() == 6 && "album"@.len() == 5 && "artists"@.len() == 7);
    assert("artist"@.len() == 6 && "genre"@.len() == 5 && "playlists"@.len() == 9);
    assert("playlist"@.len() == 8 && "smart-playlists"@.len() == 15 && "smart-playlist"@.len() == 14);
    assert("tracks"@[0] == 't' && "albums"@[0] == 'a' && "album"@[0] == 'a' && "genre"@[0] == 'g');
    assert("artist"@[1] == 'r' && "albums"@[1] == 'l');
    assert("favorites"@[0] == 'f' && "playlists"@[0] == 'p');
}

} // verus!
