//! Files that playlists are linked to: when they are read, written, and in conflict.

use vstd::prelude::*;
use vstd::string::*;

use crate::paths::PathStyle;
use crate::text::{chars_of, joined, part, position, same, shown, string_of, CharClass};

verus! {

/// Why a playlist file cannot be used.
#[derive(Clone, Copy, Debug, PartialEq, Eq, Structural)]
pub enum FileRefusal {
    /// Both the playlist and its file have changed.
    LocalConflict,
    /// The file has changed.
    FileConflict,
    ProviderPlaylist,
    UnsupportedFormat,
    LinkedElsewhere,
    NotLinked,
    InvalidName,
    OtherFormat,
}

impl FileRefusal {
    pub open spec fn message(self) -> Seq<char> {
        match self {
            FileRefusal::LocalConflict => "Both the playlist and its file have changed. Reload the file or save the Rufin version."@,
            FileRefusal::FileConflict => "The playlist file has changed. Reload the file or replace it with the Rufin version."@,
            FileRefusal::ProviderPlaylist => "Export a copy of this provider playlist before linking a file"@,
            FileRefusal::UnsupportedFormat => "Unsupported playlist format"@,
            FileRefusal::LinkedElsewhere => "This file is already linked to another playlist"@,
            FileRefusal::NotLinked => "Playlist is not linked to a file"@,
            FileRefusal::InvalidName => "Enter a filename without folders"@,
            FileRefusal::OtherFormat => "Use Export to change the playlist format"@,
        }
    }

    pub fn text(self) -> (result: &'static str)
        ensures
            result@ == self.message(),
    {
        match self {
            FileRefusal::LocalConflict => "Both the playlist and its file have changed. Reload the file or save the Rufin version.",
            FileRefusal::FileConflict => "The playlist file has changed. Reload the file or replace it with the Rufin version.",
            FileRefusal::ProviderPlaylist => "Export a copy of this provider playlist before linking a file",
            FileRefusal::UnsupportedFormat => "Unsupported playlist format",
            FileRefusal::LinkedElsewhere => "This file is already linked to another playlist",
            FileRefusal::NotLinked => "Playlist is not linked to a file",
            FileRefusal::InvalidName => "Enter a filename without folders",
            FileRefusal::OtherFormat => "Use Export to change the playlist format",
        }
    }
}

/// Whether a message tells of a conflict that the user can settle.
pub fn is_conflict(error: &str) -> (result: bool)
    ensures
        result == (error@ == FileRefusal::LocalConflict.message() || error@
            == FileRefusal::FileConflict.message()),
{
    same(error, FileRefusal::LocalConflict.text()) || same(error, FileRefusal::FileConflict.text())
}

/// How the paths in a playlist file are written.
#[derive(Clone, Copy, Debug, PartialEq, Eq, Structural)]
pub enum PlaylistPathMode {
    Automatic,
    Relative,
    Absolute,
}

/// The file of a playlist.
pub struct PlaylistFileLink {
    pub playlist: i64,
    pub source_id: Option<String>,
    pub path: String,
    pub auto_refresh: bool,
    /// Whether edits are saved at once; the source decides where this is not set.
    pub auto_save: Option<bool>,
    pub path_mode: PlaylistPathMode,
    /// The revision of the file when it was last read or written.
    pub revision: Option<String>,
    /// The playlist has changes that the file lacks.
    pub dirty: bool,
    pub error: Option<String>,
}

/// What is shown of a playlist's file.
pub struct PlaylistFileSettings {
    pub can_link: bool,
    pub link: Option<PlaylistFileLink>,
    pub display_path: Option<String>,
    pub source_auto_save: bool,
}

/// What is shown of a playlist's file: its path on this device where it has one, and else the path
/// of the link.
pub fn settings(
    link: Option<PlaylistFileLink>,
    local_path: Option<String>,
    source_auto_save: bool,
    can_link: bool,
) -> (result: PlaylistFileSettings)
    ensures
        result == (PlaylistFileSettings {
            can_link,
            link,
            display_path: match link {
                None => None,
                Some(link) => if local_path is Some {
                    local_path
                } else {
                    Some(link.path)
                },
            },
            source_auto_save,
        }),
{
    let display_path: Option<String> = match &link {
        None => None,
        Some(link) => match local_path {
            Some(path) => Some(path),
            None => Some(link.path.clone()),
        },
    };
    PlaylistFileSettings { can_link, link, display_path, source_auto_save }
}

pub open spec fn fresh_link(
    playlist: i64,
    source_id: Option<String>,
    path: String,
    replace_file: bool,
) -> PlaylistFileLink {
    PlaylistFileLink {
        playlist,
        source_id,
        path,
        auto_refresh: true,
        auto_save: None,
        path_mode: PlaylistPathMode::Automatic,
        revision: None,
        dirty: replace_file,
        error: None,
    }
}

/// A new link. With `replace_file` the playlist is written to the file, else the file is read.
pub fn new_link(playlist: i64, source_id: Option<String>, path: String, replace_file: bool) -> (result:
    PlaylistFileLink)
    ensures
        result == fresh_link(playlist, source_id, path, replace_file),
{
    PlaylistFileLink {
        playlist,
        source_id,
        path,
        auto_refresh: true,
        auto_save: None,
        path_mode: PlaylistPathMode::Automatic,
        revision: None,
        dirty: replace_file,
        error: None,
    }
}

/// What is done about a link that was stored before its file was read or written.
pub enum LinkOutcome {
    Publish,
    /// The link from before is stored again; the failure is reported.
    Restore(PlaylistFileLink),
    /// The link is taken away; the failure is reported.
    Unlink,
}

pub fn link_on(succeeded: bool, previous: Option<PlaylistFileLink>) -> (result: LinkOutcome)
    ensures
        result == if succeeded {
            LinkOutcome::Publish
        } else {
            match previous {
                Some(link) => LinkOutcome::Restore(link),
                None => LinkOutcome::Unlink,
            }
        },
{
    if succeeded {
        return LinkOutcome::Publish;
    }
    match previous {
        Some(link) => LinkOutcome::Restore(link),
        None => LinkOutcome::Unlink,
    }
}

pub open spec fn link_result(
    playlist: i64,
    linkable: bool,
    known_format: bool,
    owner: Option<i64>,
) -> Result<(), FileRefusal> {
    if !linkable {
        Err(FileRefusal::ProviderPlaylist)
    } else if !known_format {
        Err(FileRefusal::UnsupportedFormat)
    } else if owner is Some && owner != Some(playlist) {
        Err(FileRefusal::LinkedElsewhere)
    } else {
        Ok(())
    }
}

/// Whether a playlist may be linked to a file. `owner` is the playlist that the file is linked to.
pub fn check_link(playlist: i64, linkable: bool, known_format: bool, owner: Option<i64>) -> (result:
    Result<(), FileRefusal>)
    ensures
        result == link_result(playlist, linkable, known_format, owner),
{
    if !linkable {
        return Err(FileRefusal::ProviderPlaylist);
    }
    if !known_format {
        return Err(FileRefusal::UnsupportedFormat);
    }
    match owner {
        Some(owner) => if owner != playlist {
            Err(FileRefusal::LinkedElsewhere)
        } else {
            Ok(())
        },
        None => Ok(()),
    }
}

pub open spec fn import_into(linked: bool, link: Option<PlaylistFileLink>) -> Result<
    Option<i64>,
    FileRefusal,
> {
    if !linked {
        Ok(None)
    } else {
        match link {
            None => Ok(None),
            Some(link) => if link.dirty {
                Err(FileRefusal::LocalConflict)
            } else {
                Ok(Some(link.playlist))
            },
        }
    }
}

/// The playlist that an imported file belongs to: none for a mere copy.
pub fn import_target(linked: bool, link: &Option<PlaylistFileLink>) -> (result: Result<
    Option<i64>,
    FileRefusal,
>)
    ensures
        result == import_into(linked, *link),
{
    if !linked {
        return Ok(None);
    }
    match link {
        None => Ok(None),
        Some(link) => if link.dirty {
            Err(FileRefusal::LocalConflict)
        } else {
            Ok(Some(link.playlist))
        },
    }
}

impl PlaylistFileLink {
    /// Whether the file may be read: not over changes of the playlist, unless they are given up.
    pub fn reload_on(&self, discard: bool) -> (result: Result<(), FileRefusal>)
        ensures
            result == if reload_refused(*self, discard) {
                Err::<(), FileRefusal>(FileRefusal::LocalConflict)
            } else {
                Ok(())
            },
    {
        if self.dirty && !discard {
            Err(FileRefusal::LocalConflict)
        } else {
            Ok(())
        }
    }

    /// The file is as it was when it was last read or written.
    pub open spec fn is_current(&self, revision: Seq<char>) -> bool {
        shown(self.revision) == Some(revision)
    }

    fn has_revision(&self, revision: &str) -> (result: bool)
        ensures
            result == self.is_current(revision@),
    {
        match &self.revision {
            Some(known) => same(known.as_str(), revision),
            None => false,
        }
    }

    /// Whether the file may be written: not over changes of the file, unless they are given up.
    pub fn save_on(&self, overwrite: bool, current: &str) -> (result: Result<(), FileRefusal>)
        ensures
            result == if save_refused(*self, overwrite, current@) {
                Err::<(), FileRefusal>(FileRefusal::FileConflict)
            } else {
                Ok(())
            },
    {
        if !overwrite && !self.has_revision(current) {
            Err(FileRefusal::FileConflict)
        } else {
            Ok(())
        }
    }

    pub open spec fn saves_edits(&self, source_auto_save: bool) -> bool {
        self.dirty && match self.auto_save {
            Some(enabled) => enabled,
            None => source_auto_save,
        }
    }

    /// Whether an edit of the playlist is saved at once.
    pub fn after_edit(&self, source_auto_save: bool) -> (result: bool)
        ensures
            result == self.saves_edits(source_auto_save),
    {
        let enabled: bool = match self.auto_save {
            Some(enabled) => enabled,
            None => source_auto_save,
        };
        enabled && self.dirty
    }

    /// Whether a failure is shown to the user: one that was shown before is not.
    pub fn record_result(&self, error: &str) -> (warns: bool)
        ensures
            warns == (shown(self.error) != Some(error@)),
    {
        match &self.error {
            Some(known) => !same(known.as_str(), error),
            None => true,
        }
    }

    /// Changes how the file is kept.
    pub fn update(&mut self, auto_refresh: bool, auto_save: Option<bool>, path_mode: PlaylistPathMode)
        ensures
            *final(self) == (PlaylistFileLink { auto_refresh, auto_save, path_mode, ..*old(self) }),
    {
        self.auto_refresh = auto_refresh;
        self.auto_save = auto_save;
        self.path_mode = path_mode;
    }

    pub open spec fn remembered(
        &self,
        source_id: Option<String>,
        path: String,
        mode: Option<PlaylistPathMode>,
        revision: String,
    ) -> Self {
        PlaylistFileLink {
            source_id,
            path,
            path_mode: match mode {
                Some(mode) => mode,
                None => self.path_mode,
            },
            revision: Some(revision),
            dirty: false,
            error: None,
            ..*self
        }
    }

    /// The file was read or written at a revision, at a place that may be new.
    pub fn remember(
        &mut self,
        source_id: Option<String>,
        path: String,
        mode: Option<PlaylistPathMode>,
        revision: String,
    )
        ensures
            *final(self) == old(self).remembered(source_id, path, mode, revision),
    {
        self.source_id = source_id;
        self.path = path;
        if let Some(mode) = mode {
            self.path_mode = mode;
        }
        self.revision = Some(revision);
        self.dirty = false;
        self.error = None;
    }
}

/// What a regular look at a link leads to.
#[derive(Clone, Copy, Debug, PartialEq, Eq, Structural)]
pub enum LinkRefresh {
    Skip,
    /// The file is read again.
    Reload,
    /// An old failure no longer holds.
    ClearError,
    Nothing,
    /// Edits that were not saved are saved, where that is asked for.
    SaveEdits,
}

pub open spec fn refresh_of(
    link: PlaylistFileLink,
    source: Option<Seq<char>>,
    current: Seq<char>,
) -> LinkRefresh {
    if source is Some && shown(link.source_id) != source {
        LinkRefresh::Skip
    } else if link.auto_refresh && !link.is_current(current) {
        LinkRefresh::Reload
    } else if !link.dirty && link.is_current(current) {
        if link.error is Some {
            LinkRefresh::ClearError
        } else {
            LinkRefresh::Nothing
        }
    } else {
        LinkRefresh::SaveEdits
    }
}

/// Decides what is done about a link, of all links or of one source's.
pub fn refresh_links(link: &PlaylistFileLink, source: Option<&str>, current: &str) -> (result:
    LinkRefresh)
    ensures
        result == refresh_of(
            *link,
            match source {
                Some(source) => Some(source@),
                None => None,
            },
            current@,
        ),
{
    if let Some(source) = source {
        let own: bool = match &link.source_id {
            Some(id) => same(id.as_str(), source),
            None => false,
        };
        if !own {
            return LinkRefresh::Skip;
        }
    }
    let unchanged: bool = link.has_revision(current);
    if link.auto_refresh && !unchanged {
        LinkRefresh::Reload
    } else if !link.dirty && unchanged {
        if link.error.is_some() {
            LinkRefresh::ClearError
        } else {
            LinkRefresh::Nothing
        }
    } else {
        LinkRefresh::SaveEdits
    }
}

/// Whether a file that was found is imported: not one that the user gave up, and not one that is
/// linked already.
pub fn discover(ignored: bool, linked: bool) -> (result: bool)
    ensures
        result == (!ignored && !linked),
{
    !ignored && !linked
}

/// Changes on one side are never lost without being asked for: where both sides have changed, the
/// regular look at a link reads only what `reload_on` then refuses, and what it saves where the file
/// has changed is what `save_on` then refuses.
pub proof fn changes_are_never_lost(link: PlaylistFileLink, current: Seq<char>)
    requires
        link.dirty,
        !link.is_current(current),
    ensures
        link.auto_refresh ==> refresh_of(link, None, current) == LinkRefresh::Reload,
        !link.auto_refresh ==> refresh_of(link, None, current) == LinkRefresh::SaveEdits,
        reload_refused(link, false),
        save_refused(link, false, current),
{
}

/// The link is among those that are looked at: all of them, or those of one source.
pub open spec fn looked_at(link: PlaylistFileLink, source: Option<Seq<char>>) -> bool {
    source is None || (link.source_id matches Some(own) && source == Some(own@))
}

/// The file is not the one that was last read or written: none was, or it had another revision.
pub open spec fn changed_since(link: PlaylistFileLink, current: Seq<char>) -> bool {
    match link.revision {
        Some(known) => known@ != current,
        None => true,
    }
}

/// A file that another program changed is read again wherever the link is refreshed automatically,
/// whether or not the playlist has unsaved edits; nothing else makes a file be read.
pub proof fn changed_files_are_read_again(
    link: PlaylistFileLink,
    source: Option<Seq<char>>,
    current: Seq<char>,
)
    ensures
        refresh_of(link, source, current) == LinkRefresh::Reload <==> looked_at(link, source)
            && link.auto_refresh && changed_since(link, current),
{
}

/// A link of another source is left alone, and only such a link is.
pub proof fn links_of_other_sources_are_left_alone(
    link: PlaylistFileLink,
    source: Option<Seq<char>>,
    current: Seq<char>,
)
    ensures
        refresh_of(link, source, current) == LinkRefresh::Skip <==> !looked_at(link, source),
{
}

/// Edits that the file lacks are saved wherever the file is not read; a file that is not read
/// automatically may have changed too, and then it is for the saving to refuse.
pub proof fn edits_are_saved_where_nothing_is_read(
    link: PlaylistFileLink,
    source: Option<Seq<char>>,
    current: Seq<char>,
)
    requires
        looked_at(link, source),
        link.dirty,
        !(link.auto_refresh && changed_since(link, current)),
    ensures
        refresh_of(link, source, current) == LinkRefresh::SaveEdits,
{
}

/// Where neither side has changed nothing is read or saved, and a failure from before is forgotten
/// exactly where there is one.
pub proof fn settled_links_only_lose_their_error(
    link: PlaylistFileLink,
    source: Option<Seq<char>>,
    current: Seq<char>,
)
    requires
        looked_at(link, source),
        !link.dirty,
        !changed_since(link, current),
    ensures
        refresh_of(link, source, current) == LinkRefresh::ClearError <==> link.error is Some,
        refresh_of(link, source, current) == LinkRefresh::Nothing <==> link.error is None,
{
}

/// A playlist and its file, by what they hold.
pub struct Sides {
    pub list: Seq<char>,
    pub file: Seq<char>,
}

/// What the two sides hold once a link was looked at, where `saves` says that edits are saved at
/// once. What is refused is not done.
pub open spec fn after_look(
    sides: Sides,
    link: PlaylistFileLink,
    source: Option<Seq<char>>,
    current: Seq<char>,
    saves: bool,
) -> Sides {
    match refresh_of(link, source, current) {
        LinkRefresh::Reload => if reload_refused(link, false) {
            sides
        } else {
            Sides { list: sides.file, ..sides }
        },
        LinkRefresh::SaveEdits => if !saves || !link.dirty || save_refused(link, false, current) {
            sides
        } else {
            Sides { file: sides.list, ..sides }
        },
        _ => sides,
    }
}

/// Where only one side has changed, the other one follows: the playlist the file where it is
/// refreshed automatically, the file the playlist where edits are saved. Where both have changed,
/// each keeps what it holds.
pub proof fn one_side_follows_the_other(
    sides: Sides,
    link: PlaylistFileLink,
    source: Option<Seq<char>>,
    current: Seq<char>,
    saves: bool,
)
    requires
        looked_at(link, source),
        !link.dirty && !changed_since(link, current) ==> sides.list == sides.file,
    ensures
        ({
            let after = after_look(sides, link, source, current, saves);
            let edited = link.dirty;
            let changed = changed_since(link, current);
            &&& changed && !edited && link.auto_refresh ==> after.list == sides.file && after.file
                == sides.file
            &&& edited && !changed && saves ==> after.file == sides.list && after.list == sides.list
            &&& edited && changed ==> after == sides
            &&& !edited && !changed ==> after.list == after.file
        }),
{
}

/// Reading the file is refused.
pub open spec fn reload_refused(link: PlaylistFileLink, discard: bool) -> bool {
    link.dirty && !discard
}

/// Writing the file is refused.
pub open spec fn save_refused(link: PlaylistFileLink, overwrite: bool, current: Seq<char>) -> bool {
    !overwrite && !link.is_current(current)
}

/// A name of a file, without folders.
pub open spec fn is_file_name(name: Seq<char>) -> bool {
    &&& name.len() > 0
    &&& name != "."@
    &&& name != ".."@
    &&& forall|i: int| 0 <= i < name.len() ==> !CharClass::Separator.has(#[trigger] name[i])
}

fn file_name_only(name: &str) -> (result: bool)
    ensures
        result == is_file_name(name@),
{
    let chars = chars_of(name);
    if chars.len() == 0 || same(name, ".") || same(name, "..") {
        return false;
    }
    let at: usize = position(&chars, 0, CharClass::Separator, true);
    proof {
        crate::text::first_is_least(name@, 0, CharClass::Separator, true);
        if at < chars@.len() {
            assert(CharClass::Separator.has(name@[at as int]));
        }
    }
    at >= chars.len()
}

/// The position of the last slash.
pub open spec fn last_slash(s: Seq<char>) -> Option<int>
    decreases s.len(),
{
    if s.len() == 0 {
        None
    } else if s.last() == '/' {
        Some(s.len() - 1)
    } else {
        last_slash(s.drop_last())
    }
}

/// The path of a file in the same folder.
pub open spec fn renamed(path: Seq<char>, name: Seq<char>) -> Seq<char> {
    match last_slash(path) {
        Some(at) => path.take(at) + "/"@ + name,
        None => name,
    }
}

fn rename_in_folder(path: &str, name: &str) -> (result: String)
    ensures
        result@ == renamed(path@, name@),
{
    let chars = chars_of(path);
    let mut end: usize = chars.len();
    assert(chars@.take(end as int) =~= chars@);
    while end > 0 && chars[end - 1] != '/'
        invariant
            end <= chars@.len(),
            last_slash(chars@) == last_slash(chars@.take(end as int)),
        decreases end,
    {
        proof {
            let t = chars@.take(end as int);
            assert(t.last() == chars@[end - 1]);
            assert(t.drop_last() =~= chars@.take(end - 1));
        }
        end -= 1;
    }
    if end == 0 {
        return name.to_owned();
    }
    assert(chars@.take(end as int).last() == chars@[end - 1]);
    let folder = part(&chars, 0, end - 1);
    assert(folder@ =~= chars@.take(end - 1));
    let mut result = joined(string_of(&folder).as_str(), "/");
    result.append(name);
    result
}

/// The path of a linked file under another name: as the system of this device writes it, or, where
/// no style is given, as a source does.
pub open spec fn renamed_link(style: Option<PathStyle>, path: Seq<char>, name: Seq<char>) -> Seq<
    char,
> {
    match style {
        Some(style) => style.renamed(path, name),
        None => renamed(path, name),
    }
}

/// The new path of a linked file, or none where it has that name already. The format must stay.
pub fn rename_file(style: Option<PathStyle>, path: &str, name: &str, same_format: bool) -> (result: Result<
    Option<String>,
    FileRefusal,
>)
    ensures
        match result {
            Ok(Some(next)) => is_file_name(name@) && same_format && next@ == renamed_link(
                style,
                path@,
                name@,
            ) && next@ != path@,
            Ok(None) => is_file_name(name@) && same_format && renamed_link(style, path@, name@)
                == path@,
            Err(error) => error == if !is_file_name(name@) {
                FileRefusal::InvalidName
            } else {
                FileRefusal::OtherFormat
            } && !(is_file_name(name@) && same_format),
        },
{
    if !file_name_only(name) {
        return Err(FileRefusal::InvalidName);
    }
    if !same_format {
        return Err(FileRefusal::OtherFormat);
    }
    let next = match style {
        Some(style) => {
            proof {
                crate::paths::plain_names_go_below(style, name@);
            }
            style.rename(path, name)
        },
        None => rename_in_folder(path, name),
    };
    if same(next.as_str(), path) {
        Ok(None)
    } else {
        Ok(Some(next))
    }
}

proof fn last_slash_is_last(s: Seq<char>)
    ensures
        last_slash(s) matches Some(at) ==> 0 <= at < s.len() && s[at] == '/',
    decreases s.len(),
{
    if s.len() > 0 && s.last() != '/' {
        last_slash_is_last(s.drop_last());
        if let Some(at) = last_slash(s) {
            assert(s.drop_last()[at] == s[at]);
        }
    }
}

/// A renamed file stays in its folder.
pub proof fn renamed_files_stay_in_their_folder(path: Seq<char>, name: Seq<char>)
    requires
        is_file_name(name),
    ensures
        match last_slash(path) {
            Some(at) => renamed(path, name).take(at + 1) == path.take(at + 1)
                && renamed(path, name).skip(at + 1) == name,
            None => renamed(path, name) == name,
        },
{
    reveal_strlit("/");
    last_slash_is_last(path);
    if let Some(at) = last_slash(path) {
        let next = renamed(path, name);
        assert(next.take(at + 1) =~= path.take(at + 1));
        assert(next.skip(at + 1) =~= name);
    }
}

/// What follows a change of a playlist's settings.
#[derive(Clone, Copy, Debug, PartialEq, Eq, Structural)]
pub struct AfterUpdate {
    /// Edits of the playlist may have to be saved.
    pub saves_edits: bool,
    pub publishes: bool,
}

/// What follows a change of a playlist's settings. Where the playlist got another name, that change
/// has led to all of it already.
pub fn after_update(renamed: bool, settings_changed: bool) -> (result: AfterUpdate)
    ensures
        result == (AfterUpdate { saves_edits: !renamed, publishes: !renamed && settings_changed }),
{
    AfterUpdate { saves_edits: !renamed, publishes: !renamed && settings_changed }
}

/// A renamed file of this device stays in its folder, under its new name.
pub proof fn renamed_local_files_stay_in_their_folder(
    style: PathStyle,
    path: Seq<char>,
    name: Seq<char>,
)
    requires
        !style.has_drive(name),
        !style.is_verbatim(style.folder(path)),
    ensures
        ({
            let next = style.renamed(path, name);
            let folder = style.folder(path);
            &&& next.len() >= folder.len() + name.len()
            &&& next.take(folder.len() as int) == folder
            &&& next.skip(next.len() - name.len()) == name
        }),
{
    crate::paths::joined_stays_below(style, style.folder(path), name);
}

/// Edits are saved at once where the link says so, or, where it says nothing, where its source does;
/// and only where there are any.
pub proof fn links_decide_before_their_source(link: PlaylistFileLink, source_auto_save: bool)
    ensures
        link.saves_edits(source_auto_save) ==> link.dirty,
        link.dirty && link.auto_save == Some(true) ==> link.saves_edits(source_auto_save),
        link.auto_save == Some(false) ==> !link.saves_edits(source_auto_save),
        link.dirty && link.auto_save is None ==> link.saves_edits(source_auto_save)
            == source_auto_save,
{
}

/// A file that was read or written is left alone until it changes, and may be read and written without
/// asking; the playlist and how its file is kept stay what they were.
pub proof fn remembered_files_are_left_alone(
    link: PlaylistFileLink,
    source_id: Option<String>,
    path: String,
    mode: Option<PlaylistPathMode>,
    revision: String,
    later: Seq<char>,
    discard: bool,
)
    ensures
        ({
            let after = link.remembered(source_id, path, mode, revision);
            &&& refresh_of(after, None, revision@) == LinkRefresh::Nothing
            &&& later != revision@ && link.auto_refresh ==> refresh_of(after, None, later)
                == LinkRefresh::Reload
            &&& !reload_refused(after, discard)
            &&& !save_refused(after, false, revision@)
            &&& later != revision@ ==> save_refused(after, false, later)
            &&& after.playlist == link.playlist && after.auto_refresh == link.auto_refresh
                && after.auto_save == link.auto_save
            &&& after.path == path && after.source_id == source_id
            &&& mode is None ==> after.path_mode == link.path_mode
            &&& mode matches Some(mode) ==> after.path_mode == mode
        }),
{
}

/// A new link reads the file into the playlist, or writes the playlist over the file where that was
/// asked for, and is refreshed from then on.
pub proof fn new_links_go_one_way(
    playlist: i64,
    source_id: Option<String>,
    path: String,
    replace_file: bool,
    current: Seq<char>,
)
    ensures
        ({
            let link = fresh_link(playlist, source_id, path, replace_file);
            &&& link.playlist == playlist && link.path == path && link.source_id == source_id
            &&& reload_refused(link, false) <==> replace_file
            &&& save_refused(link, false, current) && !save_refused(link, true, current)
            &&& refresh_of(link, None, current) == LinkRefresh::Reload
        }),
{
}

/// A playlist is linked exactly where it is kept here, the file is of a known format, and no other
/// playlist has it.
pub proof fn files_belong_to_one_playlist(
    playlist: i64,
    linkable: bool,
    known_format: bool,
    owner: Option<i64>,
)
    ensures
        link_result(playlist, linkable, known_format, owner) is Ok <==> linkable && known_format && (
        owner is None || owner == Some(playlist)),
        link_result(playlist, linkable, known_format, owner) == Err::<(), FileRefusal>(
            FileRefusal::LinkedElsewhere,
        ) ==> owner is Some && owner != Some(playlist),
        link_result(playlist, linkable, known_format, owner) == Err::<(), FileRefusal>(
            FileRefusal::ProviderPlaylist,
        ) <==> !linkable,
{
}

/// An imported file becomes the contents of the playlist that it is linked to, and never over edits
/// that the file lacks; a copy and a file without a playlist make a new one.
pub proof fn imports_spare_edits(linked: bool, link: Option<PlaylistFileLink>)
    ensures
        import_into(linked, link) matches Ok(Some(playlist)) ==> linked && (link matches Some(link)
            && link.playlist == playlist && !link.dirty),
        !linked || link is None ==> import_into(linked, link) == Ok::<Option<i64>, FileRefusal>(None),
        linked && (link matches Some(link) && link.dirty) ==> import_into(linked, link) is Err,
        linked && (link matches Some(link) && !link.dirty) ==> import_into(linked, link) == Ok::<
            Option<i64>,
            FileRefusal,
        >(Some(link->0.playlist)),
{
}

} // verus!
