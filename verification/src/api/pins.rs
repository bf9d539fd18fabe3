//! The pins of the sidebar over HTTP.

use vstd::prelude::*;

use crate::text::{same, shown};

verus! {

/// What is pinned.
#[derive(Clone, Copy, Debug, PartialEq, Eq, Structural)]
pub enum PinKind {
    Album,
    Artist,
    Genre,
    Playlist,
    SmartPlaylist,
}

impl PinKind {
    /// Pins that are found only within their source.
    pub fn needs_source(self) -> (result: bool)
        ensures
            result == (self == PinKind::Album || self == PinKind::Artist || self == PinKind::Genre),
    {
        match self {
            PinKind::Album => true,
            PinKind::Artist => true,
            PinKind::Genre => true,
            PinKind::Playlist => false,
            PinKind::SmartPlaylist => false,
        }
    }

    pub open spec fn label(self) -> Seq<char> {
        match self {
            PinKind::Album => "album"@,
            PinKind::Artist => "artist"@,
            PinKind::Genre => "genre"@,
            PinKind::Playlist => "playlist"@,
            PinKind::SmartPlaylist => "smart-playlist"@,
        }
    }

    pub fn name(self) -> (result: &'static str)
        ensures
            result@ == self.label(),
    {
        match self {
            PinKind::Album => "album",
            PinKind::Artist => "artist",
            PinKind::Genre => "genre",
            PinKind::Playlist => "playlist",
            PinKind::SmartPlaylist => "smart-playlist",
        }
    }
}

/// A configured source.
pub struct SourceEntry {
    pub id: String,
    pub kind: String,
    pub name: String,
}

/// What is known of a pin: its kind, the row of its source, whether the item is still in the
/// library, and the source that the row names.
pub struct PinFacts {
    pub kind: PinKind,
    pub source_found: bool,
    pub row_found: bool,
    pub row_source: Option<String>,
}

/// The mark of a pinned playlist: the source it comes from, or the player itself.
pub enum Badge {
    Source { kind: String, name: String },
    Rufin,
}

/// A pin that is shown: its place among the pins, and its mark.
pub struct PinItem {
    pub pin: usize,
    pub badge: Option<Badge>,
}

/// The first source with the given identity.
pub open spec fn entry_of(sources: Seq<SourceEntry>, id: Option<Seq<char>>) -> Option<SourceEntry>
    decreases sources.len(),
{
    if sources.len() == 0 {
        None
    } else if id == Some(sources[0].id@) {
        Some(sources[0])
    } else {
        entry_of(sources.drop_first(), id)
    }
}

pub open spec fn badge_of(facts: PinFacts, sources: Seq<SourceEntry>) -> Option<Badge> {
    if facts.kind == PinKind::Playlist || facts.kind == PinKind::SmartPlaylist {
        match entry_of(sources, shown(facts.row_source)) {
            Some(source) => Some(Badge::Source { kind: source.kind, name: source.name }),
            None => Some(Badge::Rufin),
        }
    } else {
        None
    }
}

/// A pin is shown where its item is still found.
pub open spec fn is_shown(facts: PinFacts) -> bool {
    facts.row_found && (facts.source_found || facts.kind == PinKind::Playlist || facts.kind
        == PinKind::SmartPlaylist)
}

fn badge(facts: &PinFacts, sources: &Vec<SourceEntry>) -> (result: Option<Badge>)
    ensures
        result == badge_of(*facts, sources@),
{
    if facts.kind != PinKind::Playlist && facts.kind != PinKind::SmartPlaylist {
        return None;
    }
    let mut i: usize = 0;
    assert(sources@.skip(0) =~= sources@);
    while i < sources.len()
        invariant
            i <= sources@.len(),
            entry_of(sources@, shown(facts.row_source)) == entry_of(
                sources@.skip(i as int),
                shown(facts.row_source),
            ),
            facts.kind == PinKind::Playlist || facts.kind == PinKind::SmartPlaylist,
        decreases sources@.len() - i,
    {
        assert(sources@.skip(i as int).drop_first() =~= sources@.skip(i + 1));
        let own: bool = match &facts.row_source {
            Some(id) => same(sources[i].id.as_str(), id.as_str()),
            None => false,
        };
        if own {
            return Some(
                Badge::Source { kind: sources[i].kind.clone(), name: sources[i].name.clone() },
            );
        }
        i += 1;
    }
    Some(Badge::Rufin)
}

/// The pins that are shown, in their order.
pub open spec fn pins_shown(pins: Seq<PinFacts>, sources: Seq<SourceEntry>) -> Seq<PinItem>
    decreases pins.len(),
{
    if pins.len() == 0 {
        seq![]
    } else {
        let earlier = pins_shown(pins.drop_last(), sources);
        if is_shown(pins.last()) {
            earlier.push(
                PinItem {
                    pin: (pins.len() - 1) as usize,
                    badge: badge_of(pins.last(), sources),
                },
            )
        } else {
            earlier
        }
    }
}

pub fn list(pins: &Vec<PinFacts>, sources: &Vec<SourceEntry>) -> (result: Vec<PinItem>)
    ensures
        result@ == pins_shown(pins@, sources@),
{
    let mut items: Vec<PinItem> = Vec::new();
    let mut i: usize = 0;
    while i < pins.len()
        invariant
            i <= pins@.len(),
            items@ == pins_shown(pins@.take(i as int), sources@),
        decreases pins@.len() - i,
    {
        proof {
            assert(pins@.take(i + 1).drop_last() =~= pins@.take(i as int));
            assert(pins@.take(i + 1).last() == pins@[i as int]);
        }
        let facts = &pins[i];
        if facts.row_found && (facts.source_found || !facts.kind.needs_source()) {
            items.push(PinItem { pin: i, badge: badge(facts, sources) });
        }
        i += 1;
    }
    assert(pins@.take(i as int) =~= pins@);
    items
}

} // verus!
