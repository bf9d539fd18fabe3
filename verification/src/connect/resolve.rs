//! Finding media for playback: on this device, or from another one.

use vstd::prelude::*;
use vstd::string::*;
use vstd::utf8::*;

use crate::connect::media::{
    corresponding_path, key_of, media_key, root_of, mapped_root, selected_media_path,
    selected_place, set_extension, versioned, versioned_path, with_extension, MediaError, MediaFile,
    TrackReference,
};
use crate::connect::owner::Owner;
use crate::connect::settings::Encoding;
use crate::paths::PathStyle;
use crate::text::{chars_of, decimal, decimal_text, joined, same, shown};
use crate::textmap::TextMap;

verus! {

impl Owner {
    /// Whether downloads go through Connect.
    pub fn enabled(&self) -> (result: bool)
        ensures
            result == (self.status.settings.profile is Some && !self.status.settings.setup_pending
                && !self.status.settings.adopting && !self.joining),
    {
        self.status.settings.profile.is_some() && !self.status.settings.setup_pending
            && !self.status.settings.adopting && !self.joining
    }

    /// The extension that downloads get, where it is not the original's.
    pub fn extension(&self) -> (result: Option<&'static str>)
        ensures
            match result {
                Some(extension) => self.status.settings.encoding == Encoding::Mp3 && extension@
                    == "mp3"@,
                None => self.status.settings.encoding != Encoding::Mp3,
            },
    {
        if self.status.settings.encoding == Encoding::Mp3 {
            Some("mp3")
        } else {
            None
        }
    }

    /// What is shown while media comes in.
    pub fn transferring(&mut self, received: u64, total: u64)
        ensures
            shown(final(self).status.media_status) == Some(
                "Media transferring: "@ + decimal(received as nat) + " / "@ + decimal(total as nat)
                    + " bytes"@,
            ),
            *final(self) == (Owner {
                status: (crate::connect::status::Status {
                    media_status: final(self).status.media_status,
                    ..old(self).status
                }),
                ..*old(self)
            }),
    {
        let mut text = joined("Media transferring: ", decimal_text(received).as_str());
        text.append(" / ");
        text.append(decimal_text(total).as_str());
        text.append(" bytes");
        self.status.media_status = Some(text);
    }
}

/// How a file of this device can serve for a track.
pub enum Reuse {
    /// The file is used as it is.
    Use { path: String },
    /// The received file is moved to the place that the user chose, and used there.
    Move,
    /// The received file is used, and linked to the track where it is not yet.
    Link { path: String },
    /// A file at the chosen place is taken in where there is one; else any local file counts.
    TryExpected { path: String },
    /// Any local file counts.
    TryLocal,
    Nothing,
}

/// The receipt is of the revision that the profile has, and its file is there.
pub open spec fn receipt_current(receipt: Option<MediaFile>, revision: Seq<char>) -> bool {
    receipt matches Some(receipt) && receipt.revision@ == revision && receipt.path is Some
}

/// The user chose another place than the one where the file is.
pub open spec fn misplaced(
    style: PathStyle,
    selected: Option<Seq<char>>,
    path: Seq<char>,
    uri: Seq<char>,
    revision: Seq<char>,
    encoding: Encoding,
) -> bool {
    selected matches Some(place) && !style.same_path(place, path) && !style.same_path(
        versioned(style, place, uri, revision, encoding),
        path,
    )
}

/// What is known of a track whose media is wanted.
pub struct ReuseFacts {
    pub uri: String,
    pub encoding: Encoding,
    pub is_cue: bool,
    pub reference: TrackReference,
    pub original_file: Option<String>,
    pub receipt: Option<MediaFile>,
}

/// The right answer for a track.
pub open spec fn reuse_is(
    style: PathStyle,
    folders: Map<Seq<char>, String>,
    facts: ReuseFacts,
    result: Result<Reuse, MediaError>,
) -> bool {
    let revision = facts.reference.revision@;
    let place = selected_place(
        style,
        folders,
        facts.uri@,
        facts.encoding,
        facts.is_cue,
        facts.reference,
    );
    let expected = match (root_of(folders, facts.reference), facts.reference.relative_path) {
        (Some(root), Some(relative)) => Some((root, relative@)),
        _ => None,
    };
    if facts.encoding == Encoding::Original && facts.original_file is Some {
        result == Ok::<Reuse, MediaError>(Reuse::Use { path: facts.original_file->0 })
    } else if receipt_current(facts.receipt, revision) {
        let path = facts.receipt->0.path->0;
        match place {
            Err(error) => result == Err::<Reuse, MediaError>(error),
            Ok(selected) => if misplaced(style, selected, path@, facts.uri@, revision, facts.encoding) {
                result == Ok::<Reuse, MediaError>(Reuse::Move)
            } else {
                result == Ok::<Reuse, MediaError>(Reuse::Link { path })
            },
        }
    } else if facts.encoding != Encoding::Original || facts.receipt is Some {
        result == Ok::<Reuse, MediaError>(Reuse::Nothing)
    } else {
        match expected {
            None => result == Ok::<Reuse, MediaError>(Reuse::TryLocal),
            Some((root, relative)) => if style.is_relative(relative) {
                result matches Ok(Reuse::TryExpected { path }) && path@ == style.joined(
                    root,
                    relative,
                )
            } else {
                result == Err::<Reuse, MediaError>(MediaError::InvalidPath)
            },
        }
    }
}

/// Decides which file of this device can serve for a track. A revision of the source supersedes an
/// earlier receipt; a file that the user supplied is kept and its update goes to managed storage.
pub fn reusable_media(
    style: PathStyle,
    folders: &TextMap<String>,
    facts: &ReuseFacts,
) -> (result: Result<Reuse, MediaError>)
    requires
        folders.wf(),
    ensures
        reuse_is(style, folders@, *facts, result),
{
    if facts.encoding == Encoding::Original {
        if let Some(path) = &facts.original_file {
            return Ok(Reuse::Use { path: path.clone() });
        }
    }
    if let Some(receipt) = &facts.receipt {
        if same(receipt.revision.as_str(), facts.reference.revision.as_str()) {
            if let Some(path) = &receipt.path {
                let selected = match selected_media_path(
                    style,
                    folders,
                    facts.uri.as_str(),
                    facts.encoding,
                    facts.is_cue,
                    &facts.reference,
                ) {
                    Ok(selected) => selected,
                    Err(error) => {
                        return Err(error);
                    },
                };
                if let Some(place) = &selected {
                    let beside = versioned_path(
                        style,
                        place.as_str(),
                        facts.uri.as_str(),
                        facts.reference.revision.as_str(),
                        facts.encoding,
                    );
                    if !style.is_same(place.as_str(), path.as_str()) && !style.is_same(
                        beside.as_str(),
                        path.as_str(),
                    ) {
                        return Ok(Reuse::Move);
                    }
                }
                return Ok(Reuse::Link { path: path.clone() });
            }
        }
    }
    if facts.encoding != Encoding::Original || facts.receipt.is_some() {
        return Ok(Reuse::Nothing);
    }
    match (mapped_root(folders, &facts.reference), &facts.reference.relative_path) {
        (Some(root), Some(relative)) => match corresponding_path(
            style,
            root.as_str(),
            relative.as_str(),
        ) {
            Ok(path) => Ok(Reuse::TryExpected { path }),
            Err(error) => Err(error),
        },
        _ => Ok(Reuse::TryLocal),
    }
}

/// The local file of a track, unless it is its smaller representation.
pub fn local_original(
    style: PathStyle,
    local: Option<String>,
    smaller: &Option<MediaFile>,
) -> (result: Option<String>)
    ensures
        result == if local matches Some(path) && smaller matches Some(smaller) && smaller.at(
            style,
            path@,
        ) {
            None
        } else {
            local
        },
{
    let equal: bool = match (smaller, &local) {
        (Some(smaller), Some(path)) => smaller.is_at(style, path.as_str()),
        _ => false,
    };
    if equal {
        None
    } else {
        local
    }
}

/// A text of ASCII letters and digits that is not empty.
pub open spec fn is_plain_word(s: Seq<char>) -> bool {
    s.len() > 0 && forall|i: int| 0 <= i < s.len() ==> is_alphanumeric(#[trigger] s[i])
}

pub open spec fn is_alphanumeric(c: char) -> bool {
    ('0' <= c && c <= '9') || ('a' <= c && c <= 'z') || ('A' <= c && c <= 'Z')
}

pub fn plain_word(text: &str) -> (result: bool)
    ensures
        result == is_plain_word(text@),
{
    let chars = chars_of(text);
    let mut i: usize = 0;
    while i < chars.len()
        invariant
            i <= chars@.len(),
            chars@ == text@,
            forall|j: int| 0 <= j < i ==> is_alphanumeric(#[trigger] chars@[j]),
        decreases chars@.len() - i,
    {
        let c: char = chars[i];
        if !(('0' <= c && c <= '9') || ('a' <= c && c <= 'z') || ('A' <= c && c <= 'Z')) {
            assert(!is_alphanumeric(chars@[i as int]));
            return false;
        }
        i += 1;
    }
    chars.len() > 0
}

/// The place for received media below the Connect directory. Its extension is that of its format,
/// where that is a plain word.
pub open spec fn received_place(
    style: PathStyle,
    directory: Seq<char>,
    uri: Seq<char>,
    revision: Seq<char>,
    encoding: Encoding,
    format: Option<Seq<char>>,
) -> Seq<char> {
    let place = style.joined(
        style.joined(directory, "media"@),
        key_of(uri, revision, encoding),
    );
    let extension = if encoding == Encoding::Mp3 {
        Some("mp3"@)
    } else {
        format
    };
    if extension matches Some(word) && is_plain_word(word) {
        with_extension(style, place, extension->0)
    } else {
        place
    }
}

pub fn media_destination(
    style: PathStyle,
    directory: &str,
    uri: &str,
    revision: &str,
    encoding: Encoding,
    format: Option<&str>,
) -> (result: String)
    ensures
        result@ == received_place(
            style,
            directory@,
            uri@,
            revision@,
            encoding,
            match format {
                Some(format) => Some(format@),
                None => None,
            },
        ),
{
    let key = media_key(uri, revision, encoding);
    proof {
        reveal_strlit("..");
        reveal_strlit("media");
        crate::paths::plain_names_go_below(style, "media"@);
        crate::paths::hex_goes_below(
            style,
            crate::digest::blake3_hash(
                encode_utf8(uri@ + "\0"@ + revision@ + "\0"@ + encoding.label()),
            ),
        );
    }
    let folder = style.join(directory, "media");
    let place = style.join(folder.as_str(), key.as_str());
    let extension: Option<&str> = if encoding == Encoding::Mp3 {
        Some("mp3")
    } else {
        format
    };
    match extension {
        Some(extension) => if plain_word(extension) {
            set_extension(style, place.as_str(), extension)
        } else {
            place
        },
        None => place,
    }
}

/// An offer must be of the representation that was asked for.
pub fn accept_offer(wanted: Encoding, offered: Encoding) -> (result: Result<(), MediaError>)
    ensures
        result == if offered != wanted {
            Err::<(), MediaError>(MediaError::OtherRepresentation)
        } else {
            Ok(())
        },
{
    if offered != wanted {
        Err(MediaError::OtherRepresentation)
    } else {
        Ok(())
    }
}

/// Media is received by the hash of its transfer, which an offer may lack.
pub fn transfer_hash(hash: Option<String>) -> (result: Result<String, MediaError>)
    ensures
        result == match hash {
            Some(hash) => Ok::<String, MediaError>(hash),
            None => Err(MediaError::NoTransfer),
        },
{
    match hash {
        Some(hash) => Ok(hash),
        None => Err(MediaError::NoTransfer),
    }
}

/// Whether this device prepares the smaller representation itself: it has the original, and
/// nothing that could be used already.
pub fn prepares_locally(found: bool, encoding: Encoding, has_original: bool) -> (result: bool)
    ensures
        result == (!found && encoding == Encoding::Mp3 && has_original),
{
    !found && encoding == Encoding::Mp3 && has_original
}

/// The first member from `from` on that is another device.
pub open spec fn next_peer(members: Seq<String>, identity: Seq<char>, from: int) -> Option<int>
    decreases members.len() - from,
{
    if from < 0 || from >= members.len() {
        None
    } else if members[from]@ != identity {
        Some(from)
    } else {
        next_peer(members, identity, from + 1)
    }
}

pub fn find_peer(members: &Vec<String>, identity: &str, from: usize) -> (result: Option<usize>)
    requires
        from <= members@.len(),
    ensures
        match result {
            Some(i) => next_peer(members@, identity@, from as int) == Some(i as int) && from <= i
                < members@.len() && members@[i as int]@ != identity@,
            None => next_peer(members@, identity@, from as int) is None,
        },
{
    let mut i: usize = from;
    while i < members.len()
        invariant
            from <= i <= members@.len(),
            next_peer(members@, identity@, from as int) == next_peer(
                members@,
                identity@,
                i as int,
            ),
        decreases members@.len() - i,
    {
        if !same(members[i].as_str(), identity) {
            return Some(i);
        }
        i += 1;
    }
    None
}

/// What stays the same while media for a queue entry is looked for.
pub struct Wanted {
    pub identity: String,
    /// The media is a file, or a track of a cue sheet in one.
    pub is_file: bool,
    pub encoding: Encoding,
}

/// How far the search has come: what was asked last.
pub enum Phase {
    Session,
    Reference,
    Received,
    ReceivedFile,
    SearchMembers,
    /// A member was asked for a reference to the track.
    Search { members: Vec<String>, at: usize, failure: Option<String> },
    /// A member was asked for the file itself.
    Direct { members: Vec<String>, at: usize, failure: Option<String> },
    StoreReference,
    LocalFile,
    Reusable,
    Original,
    Prepare,
    PreparedReusable,
    FetchMembers,
    Fetch { members: Vec<String>, at: usize, failure: Option<String> },
    Link { path: String },
}

/// The answer to what was asked last.
pub enum Reply {
    Yes,
    No,
    Path(String),
    NoPath,
    Members(Vec<String>),
    Done,
    Failed(String),
}

/// What is asked or done next.
pub enum Query {
    Reference,
    Received,
    ReceivedFile,
    /// The file is linked to the queue entry.
    LinkQueueFile,
    Members,
    AskReference { peer: String },
    StoreReference,
    FetchDirect { peer: String },
    LocalFile,
    Reusable,
    OriginalFile,
    PrepareLocally,
    Fetch { peer: String },
}

/// The state of a search.
pub enum Search {
    Ask { phase: Phase, query: Query },
    Found(Option<String>),
    /// No device has the media: the reason, where one gave any. It is shown where `shown` is set.
    Unavailable { reason: Option<String>, shown: bool },
    /// A step failed and ends the search.
    Failed(String),
}

/// Asks the next member for a reference to the track, or ends that part of the search.
pub open spec fn search_from(
    wanted: Wanted,
    members: Vec<String>,
    from: int,
    failure: Option<String>,
) -> Search {
    match next_peer(members@, wanted.identity@, from) {
        Some(i) => Search::Ask {
            phase: Phase::Search { members, at: i as usize, failure },
            query: Query::AskReference { peer: members@[i] },
        },
        None => if wanted.is_file {
            Search::Unavailable { reason: failure, shown: false }
        } else {
            Search::Found(None)
        },
    }
}

/// Asks the next member for the media, or ends the search.
pub open spec fn fetch_from(
    wanted: Wanted,
    members: Vec<String>,
    from: int,
    failure: Option<String>,
) -> Search {
    match next_peer(members@, wanted.identity@, from) {
        Some(i) => Search::Ask {
            phase: Phase::Fetch { members, at: i as usize, failure },
            query: Query::Fetch { peer: members@[i] },
        },
        None => Search::Unavailable { reason: failure, shown: true },
    }
}

/// The track is in the profile: only files are looked for.
pub open spec fn with_reference(wanted: Wanted) -> Search {
    if wanted.is_file {
        Search::Ask { phase: Phase::Reusable, query: Query::Reusable }
    } else {
        Search::Found(None)
    }
}

pub open spec fn ask_members() -> Search {
    Search::Ask { phase: Phase::FetchMembers, query: Query::Members }
}

/// The reply answers what was asked.
pub open spec fn fits(phase: Phase, reply: Reply) -> bool {
    match phase {
        Phase::Session | Phase::Reference | Phase::Received | Phase::Original => reply is Yes
            || reply is No || reply is Failed,
        Phase::ReceivedFile | Phase::LocalFile | Phase::Reusable | Phase::PreparedReusable =>
            reply is Path || reply is NoPath || reply is Failed,
        Phase::SearchMembers | Phase::FetchMembers => reply is Members || reply is Failed,
        Phase::Search { members, at, .. } => (reply is Yes || reply is No || reply is Failed) && at
            < members@.len(),
        Phase::Direct { members, at, .. } => (reply is Done || reply is Failed) && at
            < members@.len(),
        Phase::StoreReference | Phase::Prepare | Phase::Link { .. } => reply is Done
            || reply is Failed,
        Phase::Fetch { members, at, .. } => (reply is Path || reply is Failed) && at
            < members@.len(),
    }
}

/// What follows from a reply.
pub open spec fn resolution(wanted: Wanted, phase: Phase, reply: Reply) -> Search {
    match (phase, reply) {
        (Phase::Search { members, at, failure }, Reply::Yes) => Search::Ask {
            phase: Phase::StoreReference,
            query: Query::StoreReference,
        },
        (Phase::Search { members, at, failure }, _) => if wanted.is_file {
            Search::Ask {
                phase: Phase::Direct { members, at, failure },
                query: Query::FetchDirect { peer: members@[at as int] },
            }
        } else {
            search_from(wanted, members, at + 1, failure)
        },
        (Phase::Direct { members, at, failure }, Reply::Failed(reason)) => search_from(
            wanted,
            members,
            at + 1,
            Some(reason),
        ),
        (Phase::Direct { .. }, _) => Search::Ask { phase: Phase::LocalFile, query: Query::LocalFile },
        (Phase::Fetch { members, at, failure }, Reply::Failed(reason)) => fetch_from(
            wanted,
            members,
            at + 1,
            Some(reason),
        ),
        (Phase::Fetch { .. }, Reply::Path(path)) => Search::Found(Some(path)),
        (_, Reply::Failed(reason)) => Search::Failed(reason),
        (Phase::Session, Reply::Yes) => Search::Ask {
            phase: Phase::Reference,
            query: Query::Reference,
        },
        (Phase::Session, _) => Search::Found(None),
        (Phase::Reference, Reply::Yes) => with_reference(wanted),
        (Phase::Reference, _) => Search::Ask { phase: Phase::Received, query: Query::Received },
        (Phase::Received, Reply::Yes) => Search::Ask {
            phase: Phase::ReceivedFile,
            query: Query::ReceivedFile,
        },
        (Phase::Received, _) => Search::Found(None),
        (Phase::ReceivedFile, Reply::Path(path)) => Search::Ask {
            phase: Phase::Link { path },
            query: Query::LinkQueueFile,
        },
        (Phase::ReceivedFile, _) => Search::Ask {
            phase: Phase::SearchMembers,
            query: Query::Members,
        },
        (Phase::Link { path }, _) => Search::Found(Some(path)),
        (Phase::SearchMembers, Reply::Members(members)) => search_from(wanted, members, 0, None),
        (Phase::StoreReference, _) => with_reference(wanted),
        (Phase::LocalFile, Reply::Path(path)) => Search::Found(Some(path)),
        (Phase::LocalFile, _) => Search::Found(None),
        (Phase::Reusable, Reply::Path(path)) => Search::Found(Some(path)),
        (Phase::Reusable, _) => if wanted.encoding == Encoding::Mp3 {
            Search::Ask { phase: Phase::Original, query: Query::OriginalFile }
        } else {
            ask_members()
        },
        (Phase::Original, Reply::Yes) => Search::Ask {
            phase: Phase::Prepare,
            query: Query::PrepareLocally,
        },
        (Phase::Original, _) => ask_members(),
        (Phase::Prepare, _) => Search::Ask {
            phase: Phase::PreparedReusable,
            query: Query::Reusable,
        },
        (Phase::PreparedReusable, Reply::Path(path)) => Search::Found(Some(path)),
        (Phase::PreparedReusable, _) => ask_members(),
        (Phase::FetchMembers, Reply::Members(members)) => fetch_from(wanted, members, 0, None),
        _ => Search::Found(None),
    }
}

fn search_on(wanted: &Wanted, members: Vec<String>, from: usize, failure: Option<String>) -> (result:
    Search)
    requires
        from <= members@.len(),
    ensures
        result == search_from(*wanted, members, from as int, failure),
{
    match find_peer(&members, wanted.identity.as_str(), from) {
        Some(at) => {
            let peer = members[at].clone();
            Search::Ask {
                phase: Phase::Search { members, at, failure },
                query: Query::AskReference { peer },
            }
        },
        None => if wanted.is_file {
            Search::Unavailable { reason: failure, shown: false }
        } else {
            Search::Found(None)
        },
    }
}

fn fetch_on(wanted: &Wanted, members: Vec<String>, from: usize, failure: Option<String>) -> (result:
    Search)
    requires
        from <= members@.len(),
    ensures
        result == fetch_from(*wanted, members, from as int, failure),
{
    match find_peer(&members, wanted.identity.as_str(), from) {
        Some(at) => {
            let peer = members[at].clone();
            Search::Ask {
                phase: Phase::Fetch { members, at, failure },
                query: Query::Fetch { peer },
            }
        },
        None => Search::Unavailable { reason: failure, shown: true },
    }
}

fn behind(members: &Vec<String>, at: usize) -> (result: usize)
    requires
        at < members@.len(),
    ensures
        result == at + 1,
{
    let count: usize = members.len();
    assert(at < count);
    at + 1
}

fn go_on(wanted: &Wanted) -> (result: Search)
    ensures
        result == with_reference(*wanted),
{
    if wanted.is_file {
        Search::Ask { phase: Phase::Reusable, query: Query::Reusable }
    } else {
        Search::Found(None)
    }
}

fn members_next() -> (result: Search)
    ensures
        result == ask_members(),
{
    Search::Ask { phase: Phase::FetchMembers, query: Query::Members }
}

/// Takes the search for a queue entry's media one step on. It starts in the phase `Session`, with
/// the reply whether a profile is open.
pub fn resolve_media(wanted: &Wanted, phase: Phase, reply: Reply) -> (result: Search)
    requires
        fits(phase, reply),
    ensures
        result == resolution(*wanted, phase, reply),
{
    match phase {
        Phase::Search { members, at, failure } => match reply {
            Reply::Yes => Search::Ask {
                phase: Phase::StoreReference,
                query: Query::StoreReference,
            },
            _ => if wanted.is_file {
                let peer = members[at].clone();
                Search::Ask {
                    phase: Phase::Direct { members, at, failure },
                    query: Query::FetchDirect { peer },
                }
            } else {
                let next: usize = behind(&members, at);
                search_on(wanted, members, next, failure)
            },
        },
        Phase::Direct { members, at, failure } => match reply {
            Reply::Failed(reason) => {
                let next: usize = behind(&members, at);
                search_on(wanted, members, next, Some(reason))
            },
            _ => Search::Ask { phase: Phase::LocalFile, query: Query::LocalFile },
        },
        Phase::Fetch { members, at, failure } => match reply {
            Reply::Failed(reason) => {
                let next: usize = behind(&members, at);
                fetch_on(wanted, members, next, Some(reason))
            },
            Reply::Path(path) => Search::Found(Some(path)),
            _ => Search::Found(None),
        },
        other => match reply {
            Reply::Failed(reason) => Search::Failed(reason),
            reply => resolve_plain(wanted, other, reply),
        },
    }
}

fn resolve_plain(wanted: &Wanted, phase: Phase, reply: Reply) -> (result: Search)
    requires
        fits(phase, reply),
        !(reply is Failed),
        !(phase is Search) && !(phase is Direct) && !(phase is Fetch),
    ensures
        result == resolution(*wanted, phase, reply),
{
    match (phase, reply) {
        (Phase::Session, Reply::Yes) => Search::Ask {
            phase: Phase::Reference,
            query: Query::Reference,
        },
        (Phase::Reference, Reply::Yes) => go_on(wanted),
        (Phase::Reference, _) => Search::Ask { phase: Phase::Received, query: Query::Received },
        (Phase::Received, Reply::Yes) => Search::Ask {
            phase: Phase::ReceivedFile,
            query: Query::ReceivedFile,
        },
        (Phase::ReceivedFile, Reply::Path(path)) => Search::Ask {
            phase: Phase::Link { path },
            query: Query::LinkQueueFile,
        },
        (Phase::ReceivedFile, _) => Search::Ask {
            phase: Phase::SearchMembers,
            query: Query::Members,
        },
        (Phase::Link { path }, _) => Search::Found(Some(path)),
        (Phase::SearchMembers, Reply::Members(members)) => search_on(wanted, members, 0, None),
        (Phase::StoreReference, _) => go_on(wanted),
        (Phase::LocalFile, Reply::Path(path)) => Search::Found(Some(path)),
        (Phase::Reusable, Reply::Path(path)) => Search::Found(Some(path)),
        (Phase::Reusable, _) => if wanted.encoding == Encoding::Mp3 {
            Search::Ask { phase: Phase::Original, query: Query::OriginalFile }
        } else {
            members_next()
        },
        (Phase::Original, Reply::Yes) => Search::Ask {
            phase: Phase::Prepare,
            query: Query::PrepareLocally,
        },
        (Phase::Original, _) => members_next(),
        (Phase::Prepare, _) => Search::Ask {
            phase: Phase::PreparedReusable,
            query: Query::Reusable,
        },
        (Phase::PreparedReusable, Reply::Path(path)) => Search::Found(Some(path)),
        (Phase::PreparedReusable, _) => members_next(),
        (Phase::FetchMembers, Reply::Members(members)) => fetch_on(wanted, members, 0, None),
        _ => Search::Found(None),
    }
}

/// The message for media that no device has.
pub fn unavailable(reason: Option<String>) -> (result: String)
    ensures
        result@ == match reason {
            Some(reason) => reason@,
            None => "Waiting for a device with this media"@,
        },
{
    match reason {
        Some(reason) => reason,
        None => "Waiting for a device with this media".to_owned(),
    }
}

proof fn next_peer_is_another(members: Seq<String>, identity: Seq<char>, from: int)
    requires
        0 <= from,
    ensures
        next_peer(members, identity, from) matches Some(i) ==> from <= i < members.len()
            && members[i]@ != identity,
    decreases members.len() - from,
{
    if from < members.len() && members[from]@ == identity {
        next_peer_is_another(members, identity, from + 1);
    }
}

/// A peer that a search asks for something.
pub open spec fn asked_peer(search: Search) -> Option<Seq<char>> {
    match search {
        Search::Ask { query: Query::AskReference { peer }, .. } => Some(peer@),
        Search::Ask { query: Query::Fetch { peer }, .. } => Some(peer@),
        _ => None,
    }
}

/// The place in the list of members that a search has reached.
pub open spec fn member_index(search: Search) -> Option<int> {
    match search {
        Search::Ask { phase: Phase::Search { at, .. }, .. } => Some(at as int),
        Search::Ask { phase: Phase::Fetch { at, .. }, .. } => Some(at as int),
        _ => None,
    }
}

/// A search never asks this device itself, and once a member failed it only asks later ones: it
/// comes to an end.
pub proof fn searches_ask_each_member_once(wanted: Wanted, phase: Phase, reply: Reply)
    requires
        fits(phase, reply),
        phase matches Phase::Search { members, .. } ==> members@.len() < usize::MAX,
        phase matches Phase::Direct { members, .. } ==> members@.len() < usize::MAX,
        phase matches Phase::Fetch { members, .. } ==> members@.len() < usize::MAX,
        reply matches Reply::Members(members) ==> members@.len() < usize::MAX,
    ensures
        asked_peer(resolution(wanted, phase, reply)) matches Some(peer) ==> peer
            != wanted.identity@,
        phase matches Phase::Fetch { at, .. } ==> (member_index(
            resolution(wanted, phase, reply),
        ) matches Some(next) ==> next > at),
        phase matches Phase::Direct { at, .. } ==> (member_index(
            resolution(wanted, phase, reply),
        ) matches Some(next) ==> next > at),
{
    match (phase, reply) {
        (Phase::Search { members, at, .. }, _) => {
            next_peer_is_another(members@, wanted.identity@, at + 1);
        },
        (Phase::Direct { members, at, .. }, _) => {
            next_peer_is_another(members@, wanted.identity@, at + 1);
        },
        (Phase::Fetch { members, at, .. }, _) => {
            next_peer_is_another(members@, wanted.identity@, at + 1);
        },
        (_, Reply::Members(members)) => {
            next_peer_is_another(members@, wanted.identity@, 0);
        },
        _ => {},
    }
}

/// A file of this device is used for a track as it is only where it is the original; one that was
/// received counts only in the revision that the profile has, and moves exactly where the user chose
/// another place for it.
pub proof fn files_are_reused_in_their_revision(
    style: PathStyle,
    folders: Map<Seq<char>, String>,
    facts: ReuseFacts,
    reuse: Reuse,
)
    requires
        reuse_is(style, folders, facts, Ok(reuse)),
    ensures
        reuse matches Reuse::Use { path } ==> facts.encoding == Encoding::Original
            && facts.original_file == Some(path),
        facts.encoding == Encoding::Original && facts.original_file is Some ==> reuse is Use,
        reuse matches Reuse::Link { path } ==> (facts.receipt matches Some(receipt)
            && receipt.revision@ == facts.reference.revision@ && receipt.path == Some(path)),
        reuse is Move ==> (facts.receipt matches Some(receipt) && receipt.revision@
            == facts.reference.revision@ && receipt.path is Some) && root_of(
            folders,
            facts.reference,
        ) is Some,
        reuse matches Reuse::TryExpected { path } ==> facts.encoding == Encoding::Original
            && facts.receipt is None && (root_of(folders, facts.reference) matches Some(root) && (
        facts.reference.relative_path matches Some(relative) && path@ == style.joined(
            root,
            relative@,
        ))),
        reuse is TryLocal ==> facts.encoding == Encoding::Original && facts.receipt is None,
        (facts.receipt matches Some(receipt) && receipt.revision@ == facts.reference.revision@
            && receipt.path is Some) && !(facts.encoding == Encoding::Original
            && facts.original_file is Some) ==> reuse is Link || reuse is Move,
        facts.encoding != Encoding::Original && facts.receipt is None ==> reuse is Nothing,
{
}

/// Received media of the smaller form is named as such, and other media by its format where that is a
/// plain word; the names of different representations differ in their keys.
pub proof fn received_media_is_named_by_its_key(
    style: PathStyle,
    directory: Seq<char>,
    uri: Seq<char>,
    revision: Seq<char>,
    format: Option<Seq<char>>,
)
    ensures
        ({
            let base = |encoding: Encoding|
                style.joined(
                    style.joined(directory, "media"@),
                    key_of(uri, revision, encoding),
                );
            &&& received_place(style, directory, uri, revision, Encoding::Mp3, format)
                == with_extension(style, base(Encoding::Mp3), "mp3"@)
            &&& format is None ==> received_place(
                style,
                directory,
                uri,
                revision,
                Encoding::Original,
                format,
            ) == base(Encoding::Original)
            &&& format matches Some(word) ==> (is_plain_word(word) ==> received_place(
                style,
                directory,
                uri,
                revision,
                Encoding::Original,
                format,
            ) == with_extension(style, base(Encoding::Original), word))
        }),
{
    reveal_strlit("mp3");
    assert("mp3"@[0] == 'm' && "mp3"@[1] == 'p' && "mp3"@[2] == '3');
    assert(is_plain_word("mp3"@));
}

} // verus!
