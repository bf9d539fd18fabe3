//! Radio: the source's own suggestions first, then those of the library.

use vstd::prelude::*;

use crate::playback::plex::{MediaParts, QueuePlacement};
use crate::sorted::{insert_sorted, is_sorted};
use crate::text::{same, texts};

verus! {

/// How many tracks a radio that the user starts has.
pub const MANUAL_RADIO_COUNT: usize = 20;

/// How many tracks a source is asked for at once.
pub const SOURCE_RADIO_COUNT: usize = 256;

/// The number of tracks that are looked for, and how many of them the source is asked for.
pub fn requested(count: usize, limit: usize) -> (result: (usize, usize))
    ensures
        result.0 == if count < limit {
            count
        } else {
            limit
        },
        result.1 == if result.0 < SOURCE_RADIO_COUNT {
            result.0
        } else {
            SOURCE_RADIO_COUNT
        },
{
    let wanted: usize = if count < limit {
        count
    } else {
        limit
    };
    let asked: usize = if wanted < SOURCE_RADIO_COUNT {
        wanted
    } else {
        SOURCE_RADIO_COUNT
    };
    (wanted, asked)
}

/// The tracks that the source suggests, and what is still looked for in the library.
pub struct Candidates {
    pub native: Vec<String>,
    pub missing: usize,
    /// The tracks that the library must not suggest again, in order.
    pub excluded: Vec<String>,
}

/// The first tracks of a list.
pub open spec fn at_most(list: Seq<String>, n: int) -> Seq<String> {
    if list.len() <= n {
        list
    } else {
        list.take(n)
    }
}

/// Takes the source's suggestions, as many as are asked for; the library gives the rest.
pub fn radio_candidates(native: Vec<String>, wanted: usize) -> (result: Candidates)
    ensures
        result.native@ == at_most(native@, wanted as int),
        result.missing == wanted - result.native@.len(),
        is_sorted(texts(result.excluded@)),
        forall|uri: Seq<char>|
            texts(result.excluded@).contains(uri) <==> texts(result.native@).contains(uri),
{
    let mut native = native;
    let ghost all = native@;
    if native.len() > wanted {
        native.truncate(wanted);
    }
    assert(native@ =~= at_most(all, wanted as int));
    let mut excluded: Vec<String> = Vec::new();
    let mut i: usize = 0;
    let ghost list = texts(native@);
    while i < native.len()
        invariant
            i <= native@.len(),
            list == texts(native@),
            is_sorted(texts(excluded@)),
            forall|uri: Seq<char>|
                texts(excluded@).contains(uri) <==> exists|j: int|
                    0 <= j < i && #[trigger] list[j] == uri,
        decreases native@.len() - i,
    {
        let ghost before = texts(excluded@);
        insert_sorted(&mut excluded, native[i].clone());
        proof {
            let at = i as int;
            assert(list[at] == native@[at]@);
            assert forall|uri: Seq<char>|
                texts(excluded@).contains(uri) <==> exists|j: int|
                    0 <= j < at + 1 && #[trigger] list[j] == uri by {
                if texts(excluded@).contains(uri) {
                    if before.contains(uri) {
                        let j = choose|j: int| 0 <= j < at && #[trigger] list[j] == uri;
                        assert(list[j] == uri);
                    } else {
                        assert(list[at] == uri);
                    }
                }
                if exists|j: int| 0 <= j < at + 1 && #[trigger] list[j] == uri {
                    let j = choose|j: int| 0 <= j < at + 1 && #[trigger] list[j] == uri;
                    if j < at {
                        assert(before.contains(uri));
                    }
                }
            }
        }
        i += 1;
    }
    proof {
        assert forall|uri: Seq<char>|
            texts(excluded@).contains(uri) <==> texts(native@).contains(uri) by {
            if texts(native@).contains(uri) {
                let j = choose|j: int| 0 <= j < list.len() && list[j] == uri;
                assert(list[j] == uri);
            }
        }
    }
    let missing: usize = wanted - native.len();
    Candidates { native, missing, excluded }
}

/// What a radio starts from.
#[derive(Clone, Copy, Debug, PartialEq, Eq, Structural)]
pub enum RadioSeed {
    Track,
    Album,
    Artist,
    AlbumArtist,
    Genre,
    Playlist,
}

/// What a source is asked to suggest tracks for.
pub enum SourceRadioSeed {
    Track(String),
    Album(String),
    Artist(String),
    Genre(String),
    Playlist(String),
}

/// What the source can be asked for: a track of its own, or another item that it knows by an
/// identity.
pub open spec fn seed_of(
    seed: RadioSeed,
    source: Option<Seq<char>>,
    track: Option<MediaParts>,
    object_id: Option<String>,
) -> Option<SourceRadioSeed> {
    match seed {
        RadioSeed::Track => if track matches Some(parts) && parts.kind@ == "track"@ && source
            == Some(parts.source_id@) {
            Some(SourceRadioSeed::Track(track->0.key))
        } else {
            None
        },
        RadioSeed::Album => match object_id {
            Some(id) => Some(SourceRadioSeed::Album(id)),
            None => None,
        },
        RadioSeed::Artist | RadioSeed::AlbumArtist => match object_id {
            Some(id) => Some(SourceRadioSeed::Artist(id)),
            None => None,
        },
        RadioSeed::Genre => match object_id {
            Some(id) => Some(SourceRadioSeed::Genre(id)),
            None => None,
        },
        RadioSeed::Playlist => match object_id {
            Some(id) => Some(SourceRadioSeed::Playlist(id)),
            None => None,
        },
    }
}

pub fn source_seed(
    seed: RadioSeed,
    source: Option<&str>,
    track: Option<MediaParts>,
    object_id: Option<String>,
) -> (result: Option<SourceRadioSeed>)
    ensures
        result == seed_of(
            seed,
            match source {
                Some(source) => Some(source@),
                None => None,
            },
            track,
            object_id,
        ),
{
    match seed {
        RadioSeed::Track => match track {
            Some(parts) => {
                let own: bool = match source {
                    Some(source) => same(source, parts.source_id.as_str()),
                    None => false,
                };
                if own && same(parts.kind.as_str(), "track") {
                    Some(SourceRadioSeed::Track(parts.key))
                } else {
                    None
                }
            },
            None => None,
        },
        RadioSeed::Album => match object_id {
            Some(id) => Some(SourceRadioSeed::Album(id)),
            None => None,
        },
        RadioSeed::Artist => match object_id {
            Some(id) => Some(SourceRadioSeed::Artist(id)),
            None => None,
        },
        RadioSeed::AlbumArtist => match object_id {
            Some(id) => Some(SourceRadioSeed::Artist(id)),
            None => None,
        },
        RadioSeed::Genre => match object_id {
            Some(id) => Some(SourceRadioSeed::Genre(id)),
            None => None,
        },
        RadioSeed::Playlist => match object_id {
            Some(id) => Some(SourceRadioSeed::Playlist(id)),
            None => None,
        },
    }
}

/// Tracks that were picked at random, and where they go.
pub struct RandomQueue {
    pub order: Vec<String>,
    pub placement: QueuePlacement,
}

/// What is queued of the tracks that were picked at random: nothing where there are none.
pub fn queue_random(order: Vec<String>, placement: QueuePlacement) -> (result: Option<RandomQueue>)
    ensures
        result == if order@.len() == 0 {
            None
        } else {
            Some(RandomQueue { order, placement })
        },
{
    if order.len() == 0 {
        None
    } else {
        Some(RandomQueue { order, placement })
    }
}

/// What becomes of a place in the queue that was held for tracks.
pub enum Materialization {
    Complete(Vec<String>),
    /// Nothing was found.
    Cancel,
    Fail(String),
}

pub fn complete_materialization(candidates: Result<Vec<String>, String>) -> (result: Materialization)
    ensures
        result == match candidates {
            Ok(list) => if list@.len() == 0 {
                Materialization::Cancel
            } else {
                Materialization::Complete(list)
            },
            Err(error) => Materialization::Fail(error),
        },
{
    match candidates {
        Ok(list) => if list.len() == 0 {
            Materialization::Cancel
        } else {
            Materialization::Complete(list)
        },
        Err(error) => Materialization::Fail(error),
    }
}

/// A source is asked for tracks like what the radio was started from: for one of its own tracks, or
/// for an item by the identity that it has there; and it is asked wherever it can be.
pub proof fn sources_are_asked_for_what_the_radio_started_from(
    seed: RadioSeed,
    source: Option<Seq<char>>,
    track: Option<MediaParts>,
    object_id: Option<String>,
)
    ensures
        match seed_of(seed, source, track, object_id) {
            Some(SourceRadioSeed::Track(key)) => seed == RadioSeed::Track && (track matches Some(
                parts,
            ) && parts.key == key && parts.kind@ == "track"@ && source == Some(parts.source_id@)),
            Some(SourceRadioSeed::Album(id)) => seed == RadioSeed::Album && object_id == Some(id),
            Some(SourceRadioSeed::Artist(id)) => (seed == RadioSeed::Artist || seed
                == RadioSeed::AlbumArtist) && object_id == Some(id),
            Some(SourceRadioSeed::Genre(id)) => seed == RadioSeed::Genre && object_id == Some(id),
            Some(SourceRadioSeed::Playlist(id)) => seed == RadioSeed::Playlist && object_id == Some(
                id,
            ),
            None => if seed == RadioSeed::Track {
                !(track matches Some(parts) && parts.kind@ == "track"@ && source == Some(
                    parts.source_id@,
                ))
            } else {
                object_id is None
            },
        },
{
}

/// The suggestions of a source come first and in its order, and with what is still missing there are
/// as many tracks as were asked for.
pub proof fn suggestions_of_the_source_come_first(list: Seq<String>, wanted: int, i: int)
    requires
        0 <= wanted,
        0 <= i < at_most(list, wanted).len(),
    ensures
        at_most(list, wanted)[i] == list[i],
        at_most(list, wanted).len() <= wanted,
        at_most(list, wanted).len() < wanted ==> at_most(list, wanted) == list,
{
}

} // verus!
