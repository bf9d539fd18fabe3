//! Reviewed metadata: what is edited, and where suggestions come from.

use vstd::prelude::*;

use crate::text::{same, trim, trimmed};

verus! {

/// What metadata belongs to.
pub enum MetadataItemId {
    Track(String),
    Album(String),
    Artist(String),
}

impl MetadataItemId {
    pub open spec fn uri(&self) -> Seq<char> {
        match self {
            MetadataItemId::Track(uri) => uri@,
            MetadataItemId::Album(uri) => uri@,
            MetadataItemId::Artist(uri) => uri@,
        }
    }

    pub fn media_uri(&self) -> (result: &str)
        ensures
            result@ == self.uri(),
    {
        match self {
            MetadataItemId::Track(uri) => uri.as_str(),
            MetadataItemId::Album(uri) => uri.as_str(),
            MetadataItemId::Artist(uri) => uri.as_str(),
        }
    }
}

/// An identity of MusicBrainz is given.
pub open spec fn is_identified(id: Option<String>) -> bool {
    id matches Some(id) && trimmed(id@).len() > 0
}

pub fn has_identity(id: &Option<String>) -> (result: bool)
    ensures
        result == is_identified(*id),
{
    match id {
        Some(id) => !trim(id.as_str()).as_str().is_empty(),
        None => false,
    }
}

/// Servers that identify albums and artists themselves.
pub open spec fn identifies_itself(kind: Seq<char>) -> bool {
    kind == "jellyfin"@ || kind == "emby"@
}

/// Where a suggestion is asked for.
#[derive(Clone, Copy, Debug, PartialEq, Eq, Structural)]
pub enum Lookup {
    /// By its identity, at MusicBrainz.
    Exact,
    /// At the server that the item comes from.
    Native,
    /// By its names, at MusicBrainz.
    External,
}

/// What the search for a suggestion depends on.
#[derive(Clone, Copy, Debug, PartialEq, Eq, Structural)]
pub struct LookupFacts {
    /// The user allows lookups outside the configured sources.
    pub external: bool,
    pub identified: bool,
    /// The item's server identifies items itself and can be reached.
    pub native: bool,
}

/// The lookups that are made until one finds something, in order.
pub open spec fn lookups(facts: LookupFacts) -> Seq<Lookup> {
    (if facts.external && facts.identified {
        seq![Lookup::Exact]
    } else {
        seq![]
    }) + (if facts.native {
        seq![Lookup::Native]
    } else {
        seq![]
    }) + (if facts.external {
        seq![Lookup::External]
    } else {
        seq![]
    })
}

fn identify(facts: LookupFacts) -> (result: Vec<Lookup>)
    ensures
        result@ == lookups(facts),
{
    let mut list: Vec<Lookup> = Vec::new();
    if facts.external && facts.identified {
        list.push(Lookup::Exact);
    }
    if facts.native {
        list.push(Lookup::Native);
    }
    if facts.external {
        list.push(Lookup::External);
    }
    assert(list@ =~= lookups(facts));
    list
}

/// The lookups for a track: only by its names, as no server identifies tracks.
pub fn identify_track_metadata(external: bool) -> (result: Vec<Lookup>)
    ensures
        result@ == lookups(LookupFacts { external, identified: false, native: false }),
{
    identify(LookupFacts { external, identified: false, native: false })
}

/// The lookups for an album. It is identified by itself or by its release group.
pub fn identify_album_metadata(
    external: bool,
    album_id: &Option<String>,
    release_group_id: &Option<String>,
    native: bool,
) -> (result: Vec<Lookup>)
    ensures
        result@ == lookups(
            LookupFacts {
                external,
                identified: is_identified(*album_id) || is_identified(*release_group_id),
                native,
            },
        ),
{
    let identified: bool = has_identity(album_id) || has_identity(release_group_id);
    identify(LookupFacts { external, identified, native })
}

/// The lookups for an artist.
pub fn identify_artist_metadata(
    external: bool,
    artist_id: &Option<String>,
    native: bool,
) -> (result: Vec<Lookup>)
    ensures
        result@ == lookups(
            LookupFacts { external, identified: is_identified(*artist_id), native },
        ),
{
    identify(LookupFacts { external, identified: has_identity(artist_id), native })
}

/// Whether the server of an item identifies items itself.
pub fn native_lookup(kind: Option<&str>) -> (result: bool)
    ensures
        result == (kind matches Some(kind) && identifies_itself(kind@)),
{
    match kind {
        Some(kind) => same(kind, "jellyfin") || same(kind, "emby"),
        None => false,
    }
}

/// Where the user does not allow lookups outside the sources, none is made.
pub proof fn lookups_stay_inside(facts: LookupFacts)
    requires
        !facts.external,
    ensures
        forall|i: int|
            0 <= i < lookups(facts).len() ==> #[trigger] lookups(facts)[i] == Lookup::Native,
{
}

/// The greatest size of a cover: 32 MiB.
pub const ARTWORK_MAX_BYTES: usize = 33554432;

/// A cover must not be too large.
pub fn checked_artwork(length: usize) -> (result: Result<(), &'static str>)
    ensures
        match result {
            Ok(()) => length <= ARTWORK_MAX_BYTES,
            Err(message) => length > ARTWORK_MAX_BYTES && message@ == "Artwork exceeds 32 MiB"@,
        },
{
    if length > ARTWORK_MAX_BYTES {
        Err("Artwork exceeds 32 MiB")
    } else {
        Ok(())
    }
}

/// A cover is downloaded only where the user allows lookups outside the sources.
pub fn download_artwork(external: bool) -> (result: Result<(), &'static str>)
    ensures
        match result {
            Ok(()) => external,
            Err(message) => !external && message@ == "External metadata lookup is disabled"@,
        },
{
    if external {
        Ok(())
    } else {
        Err("External metadata lookup is disabled")
    }
}

/// Through what metadata is read and written.
#[derive(Clone, Copy, Debug, PartialEq, Eq, Structural)]
pub enum MetadataAccess {
    /// Through the source of the item.
    Source,
    /// In the file itself.
    File,
    Unavailable,
}

/// The metadata of a track whose source cannot be reached is that of its file; that of albums and
/// artists is then unavailable.
pub open spec fn access_to(source_found: bool, is_track: bool) -> MetadataAccess {
    if source_found {
        MetadataAccess::Source
    } else if is_track {
        MetadataAccess::File
    } else {
        MetadataAccess::Unavailable
    }
}

pub fn track_metadata(source_found: bool) -> (result: MetadataAccess)
    ensures
        result == access_to(source_found, true),
{
    if source_found {
        MetadataAccess::Source
    } else {
        MetadataAccess::File
    }
}

pub fn album_metadata(source_found: bool) -> (result: MetadataAccess)
    ensures
        result == access_to(source_found, false),
{
    if source_found {
        MetadataAccess::Source
    } else {
        MetadataAccess::Unavailable
    }
}

pub fn artist_metadata(source_found: bool) -> (result: MetadataAccess)
    ensures
        result == access_to(source_found, false),
{
    if source_found {
        MetadataAccess::Source
    } else {
        MetadataAccess::Unavailable
    }
}

/// Through what reviewed metadata is written.
pub fn write_reviewed_metadata(source_found: bool, item: &MetadataItemId) -> (result:
    MetadataAccess)
    ensures
        result == access_to(source_found, *item is Track),
{
    match item {
        MetadataItemId::Track(_) => track_metadata(source_found),
        MetadataItemId::Album(_) => album_metadata(source_found),
        MetadataItemId::Artist(_) => artist_metadata(source_found),
    }
}

/// How an edit of metadata went.
#[derive(Clone, Copy, Debug, PartialEq, Eq, Structural)]
pub enum WriteResult {
    Saved,
    /// Saved in part; what was saved shows in the catalog or does not.
    PartiallySaved { published: bool },
    Failed,
}

/// What follows an edit of metadata.
#[derive(Clone, Copy, Debug, PartialEq, Eq, Structural)]
pub struct AfterWrite {
    /// The catalog is published.
    pub publishes: bool,
    /// The cover that was shown before is dropped from the cache.
    pub drops_cover: bool,
}

pub fn after_write(
    result: WriteResult,
    edits_artwork: bool,
    had_artwork: bool,
) -> (after: AfterWrite)
    ensures
        after.publishes == (result == WriteResult::Saved || result
            == WriteResult::PartiallySaved { published: true }),
        after.drops_cover == (after.publishes && edits_artwork && had_artwork),
{
    let publishes: bool = match result {
        WriteResult::Saved => true,
        WriteResult::PartiallySaved { published } => published,
        WriteResult::Failed => false,
    };
    AfterWrite { publishes, drops_cover: publishes && edits_artwork && had_artwork }
}

/// Whether an edit that changed nothing in the catalog still counts as a change of its covers: the
/// cover was dropped.
pub fn artwork_changed(identical: bool, cover_dropped: bool) -> (result: bool)
    ensures
        result == (identical && cover_dropped),
{
    identical && cover_dropped
}

/// How the writing of reviewed metadata ends.
pub enum WriteEnd {
    Done,
    /// With the failure of the edit itself.
    EditFailed,
    /// All was saved, but the cover could not be dropped.
    SavedRefreshFailed(String),
}

/// A failure of the edit counts before one of the cover.
pub fn write_end(result: WriteResult, refresh: Result<bool, String>) -> (end: WriteEnd)
    ensures
        end == if result != WriteResult::Saved {
            WriteEnd::EditFailed
        } else {
            match refresh {
                Ok(_) => WriteEnd::Done,
                Err(message) => WriteEnd::SavedRefreshFailed(message),
            }
        },
{
    match result {
        WriteResult::Saved => match refresh {
            Ok(_) => WriteEnd::Done,
            Err(message) => WriteEnd::SavedRefreshFailed(message),
        },
        _ => WriteEnd::EditFailed,
    }
}

/// The position of a lookup among others: by identity before by name, and the item's own server
/// between them.
pub open spec fn rank(lookup: Lookup) -> int {
    match lookup {
        Lookup::Exact => 0,
        Lookup::Native => 1,
        Lookup::External => 2,
    }
}

/// Every lookup that is allowed and can find something is made, once, and the surer one first.
pub proof fn all_allowed_lookups_are_made(facts: LookupFacts, i: int, j: int)
    requires
        0 <= i < j < lookups(facts).len(),
    ensures
        rank(lookups(facts)[i]) < rank(lookups(facts)[j]),
{
}

/// A lookup by names is made exactly where lookups outside are allowed, one by an identity where
/// there is one as well, and one at the item's server where that can identify it.
pub proof fn lookups_are_made_where_they_are_allowed(facts: LookupFacts)
    ensures
        lookups(facts).contains(Lookup::External) <==> facts.external,
        lookups(facts).contains(Lookup::Exact) <==> facts.external && facts.identified,
        lookups(facts).contains(Lookup::Native) <==> facts.native,
{
    let list = lookups(facts);
    if facts.external {
        assert(list[list.len() - 1] == Lookup::External);
    }
    if facts.external && facts.identified {
        assert(list[0] == Lookup::Exact);
    }
    if facts.native {
        let at = if facts.external && facts.identified {
            1int
        } else {
            0
        };
        assert(list[at] == Lookup::Native);
    }
}

/// Metadata is read through the source wherever that can be reached; only a track has a file of its
/// own to fall back on.
pub proof fn metadata_falls_back_on_files(source_found: bool, is_track: bool)
    ensures
        access_to(source_found, is_track) == MetadataAccess::Source <==> source_found,
        access_to(source_found, is_track) == MetadataAccess::File <==> !source_found && is_track,
{
}

} // verus!
