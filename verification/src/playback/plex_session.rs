//! A selected Plex player: what it reports, what it is told, and how playback comes and goes.

use vstd::prelude::*;

use crate::playback::plex::{
    admitted, find_item, item_index, item_of, occurrence, occurrence_text, plex_occurrence,
    receiver_occurrence, receiver_text, repeat, repeat_of, server_key, status, status_of,
    MediaParts, PlexError, PlexQueueItem, PlexQueueWindow, QueuePlacement, QueueReorderTarget,
    RepeatMode, Timeline, TransportStatus,
};
use crate::sorted::{insert_sorted, is_sorted};
use crate::text::{same, shown, texts};

verus! {

/// A configured Plex source and its server, where it could be opened.
pub struct Candidate {
    pub source_id: String,
    pub server_id: Option<String>,
}

/// The source that a player is followed through, its server, and the part of the player's queue
/// that is at hand.
pub struct Connection {
    pub source_id: String,
    pub server_id: String,
    pub queue: Option<PlexQueueWindow>,
}

/// Whether the connected server is not the one that the player reports; a report without a server
/// is taken for the connected one.
pub open spec fn reports_other(reported: Option<String>, connected: Seq<char>) -> bool {
    reported matches Some(server) && server@ != connected
}

pub fn needs_source(reported: &Option<String>, connected: &str) -> (result: bool)
    ensures
        result == reports_other(*reported, connected@),
{
    match reported {
        Some(server) => !same(server.as_str(), connected),
        None => false,
    }
}

/// The order in which sources are tried: the preferred one first, the others as they are
/// configured.
pub open spec fn source_order(ids: Seq<String>, preferred: Option<Seq<char>>) -> Seq<String> {
    ids.filter(|id: String| Some(id@) == preferred) + ids.filter(|id: String| Some(id@) != preferred)
}

pub fn ordered_sources(ids: &Vec<String>, preferred: &Option<String>) -> (result: Vec<String>)
    ensures
        result@ == source_order(ids@, shown(*preferred)),
{
    let ghost wanted = shown(*preferred);
    let ghost chosen = |id: String| Some(id@) == wanted;
    let ghost other = |id: String| Some(id@) != wanted;
    let mut first: Vec<String> = Vec::new();
    let mut rest: Vec<String> = Vec::new();
    let mut i: usize = 0;
    proof {
        reveal(Seq::filter);
    }
    while i < ids.len()
        invariant
            i <= ids@.len(),
            wanted == shown(*preferred),
            chosen == (|id: String| Some(id@) == wanted),
            other == (|id: String| Some(id@) != wanted),
            first@ == ids@.take(i as int).filter(chosen),
            rest@ == ids@.take(i as int).filter(other),
        decreases ids@.len() - i,
    {
        proof {
            reveal(Seq::filter);
            assert(ids@.take(i + 1).drop_last() =~= ids@.take(i as int));
            assert(ids@.take(i + 1).last() == ids@[i as int]);
        }
        let is_preferred: bool = match preferred {
            Some(preferred) => same(ids[i].as_str(), preferred.as_str()),
            None => false,
        };
        if is_preferred {
            first.push(ids[i].clone());
        } else {
            rest.push(ids[i].clone());
        }
        i += 1;
    }
    assert(ids@.take(i as int) =~= ids@);
    first.append(&mut rest);
    first
}

proof fn filters_part(ids: Seq<String>, chosen: spec_fn(String) -> bool, other: spec_fn(String) -> bool)
    requires
        forall|id: String| #[trigger] other(id) == !chosen(id),
    ensures
        ids.filter(chosen).len() + ids.filter(other).len() == ids.len(),
    decreases ids.len(),
{
    reveal(Seq::filter);
    if ids.len() > 0 {
        filters_part(ids.drop_last(), chosen, other);
        assert(other(ids.last()) == !chosen(ids.last()));
    }
}

/// Every configured source is tried, none is added, and the preferred one comes first where it is
/// configured.
pub proof fn preferred_sources_come_first(ids: Seq<String>, preferred: Option<Seq<char>>)
    ensures
        source_order(ids, preferred).len() == ids.len(),
        forall|i: int|
            0 <= i < ids.len() ==> source_order(ids, preferred).contains(#[trigger] ids[i]),
        (exists|i: int| 0 <= i < ids.len() && Some(#[trigger] ids[i]@) == preferred) ==> Some(
            source_order(ids, preferred)[0]@,
        ) == preferred,
{
    let chosen = |id: String| Some(id@) == preferred;
    let other = |id: String| Some(id@) != preferred;
    let first = ids.filter(chosen);
    let rest = ids.filter(other);
    let order = source_order(ids, preferred);
    filters_part(ids, chosen, other);
    assert(order == first + rest);
    assert forall|i: int| 0 <= i < ids.len() implies order.contains(#[trigger] ids[i]) by {
        if chosen(ids[i]) {
            ids.lemma_filter_contains(chosen, i);
            let k = choose|k: int| 0 <= k < first.len() && first[k] == ids[i];
            assert(order[k] == ids[i]);
        } else {
            assert(other(ids[i]));
            ids.lemma_filter_contains(other, i);
            let k = choose|k: int| 0 <= k < rest.len() && rest[k] == ids[i];
            assert(order[first.len() + k] == ids[i]);
        }
    }
    if exists|i: int| 0 <= i < ids.len() && Some(#[trigger] ids[i]@) == preferred {
        let i = choose|i: int| 0 <= i < ids.len() && Some(#[trigger] ids[i]@) == preferred;
        assert(chosen(ids[i]));
        ids.lemma_filter_contains(chosen, i);
        assert(first.len() > 0);
        ids.lemma_filter_pred(chosen, 0);
        assert(order[0] == first[0]);
    }
}

/// The source serves the player.
pub open spec fn serves(candidate: Candidate, server: Seq<char>) -> bool {
    candidate.server_id matches Some(own) && own@ == server
}

/// The first source from `from` on that serves the player. Where `wanted` is given, only sources
/// of that name count, or else only the others.
pub open spec fn serving_from(
    list: Seq<Candidate>,
    server: Seq<char>,
    preferred: Option<Seq<char>>,
    wanted: bool,
    from: int,
) -> Option<int>
    decreases list.len() - from,
{
    if from < 0 || from >= list.len() {
        None
    } else if serves(list[from], server) && (Some(list[from].source_id@) == preferred) == wanted {
        Some(from)
    } else {
        serving_from(list, server, preferred, wanted, from + 1)
    }
}

/// The source through which a player is followed: the preferred one where it serves the player, and
/// else the first that does.
pub open spec fn serving(
    list: Seq<Candidate>,
    server: Seq<char>,
    preferred: Option<Seq<char>>,
) -> Option<int> {
    match serving_from(list, server, preferred, true, 0) {
        Some(i) => Some(i),
        None => serving_from(list, server, preferred, false, 0),
    }
}

fn find_serving(
    list: &Vec<Candidate>,
    server: &str,
    preferred: &Option<String>,
    wanted: bool,
) -> (result: Option<usize>)
    ensures
        match result {
            Some(i) => i < list@.len() && serving_from(list@, server@, shown(*preferred), wanted, 0)
                == Some(i as int) && serves(list@[i as int], server@),
            None => serving_from(list@, server@, shown(*preferred), wanted, 0) is None,
        },
{
    let mut i: usize = 0;
    while i < list.len()
        invariant
            i <= list@.len(),
            serving_from(list@, server@, shown(*preferred), wanted, 0) == serving_from(
                list@,
                server@,
                shown(*preferred),
                wanted,
                i as int,
            ),
        decreases list@.len() - i,
    {
        let fits: bool = match &list[i].server_id {
            Some(own) => same(own.as_str(), server),
            None => false,
        };
        let is_preferred: bool = match preferred {
            Some(preferred) => same(list[i].source_id.as_str(), preferred.as_str()),
            None => false,
        };
        if fits && is_preferred == wanted {
            return Some(i);
        }
        i += 1;
    }
    None
}

/// Finds the source through which a player is followed.
pub fn choose_timeline_source(
    list: &Vec<Candidate>,
    server: &str,
    preferred: &Option<String>,
) -> (result: Result<usize, PlexError>)
    ensures
        match result {
            Ok(i) => serving(list@, server@, shown(*preferred)) == Some(i as int) && i < list@.len()
                && serves(list@[i as int], server@),
            Err(error) => serving(list@, server@, shown(*preferred)) is None && error
                == PlexError::UnavailableServer,
        },
{
    if let Some(i) = find_serving(list, server, preferred, true) {
        return Ok(i);
    }
    match find_serving(list, server, preferred, false) {
        Some(i) => Ok(i),
        None => Err(PlexError::UnavailableServer),
    }
}

impl Connection {
    /// Follows the player to the server that it reports. With another source, the part of the queue
    /// that was at hand counts no longer; a server that no source has leaves all as it was.
    pub fn resolve_timeline_source(
        &mut self,
        reported: &Option<String>,
        list: &Vec<Candidate>,
        preferred: &Option<String>,
    ) -> (result: Result<(), PlexError>)
        ensures
            if !reports_other(*reported, old(self).server_id@) {
                result == Ok::<(), PlexError>(()) && *final(self) == *old(self)
            } else {
                match serving(list@, (*reported)->0@, shown(*preferred)) {
                    Some(i) => {
                        &&& result == Ok::<(), PlexError>(())
                        &&& final(self).source_id@ == list@[i].source_id@
                        &&& final(self).server_id@ == (*reported)->0@
                        &&& final(self).queue is None
                    },
                    None => result == Err::<(), PlexError>(PlexError::UnavailableServer)
                        && *final(self) == *old(self),
                }
            },
    {
        if !needs_source(reported, self.server_id.as_str()) {
            return Ok(());
        }
        if let Some(server) = reported {
            match choose_timeline_source(list, server.as_str(), preferred) {
                Ok(i) => {
                    self.source_id = list[i].source_id.clone();
                    self.server_id = server.clone();
                    self.queue = None;
                },
                Err(error) => {
                    return Err(error);
                },
            }
        }
        Ok(())
    }
}

/// What is done with a report of the player.
#[derive(Clone, Copy, Debug, PartialEq, Eq, Structural)]
pub enum Observation {
    /// The report says nothing yet.
    Ignore,
    /// The player has no queue.
    NoQueue,
    Queue,
}

pub open spec fn observation_of(cancelled: bool, timeline: Timeline) -> Observation {
    if cancelled || (timeline.state@ == "buffering"@ && timeline.play_queue_item_id is None) {
        Observation::Ignore
    } else if timeline.play_queue_id is None {
        Observation::NoQueue
    } else {
        Observation::Queue
    }
}

/// A player builds its report while a track is being replaced: an incomplete report of that moment
/// is not a cleared queue.
pub fn observe(cancelled: bool, timeline: &Timeline) -> (result: Observation)
    ensures
        result == observation_of(cancelled, *timeline),
{
    if cancelled || (same(timeline.state.as_str(), "buffering")
        && timeline.play_queue_item_id.is_none()) {
        Observation::Ignore
    } else if timeline.play_queue_id.is_none() {
        Observation::NoQueue
    } else {
        Observation::Queue
    }
}

/// What a report changes in the session's queue.
#[derive(Clone, Copy, Debug, PartialEq, Eq, Structural)]
pub enum QueueUpdate {
    /// The part of the queue around the current entry is read from the server.
    Reload,
    /// The part at hand is taken over with another current entry.
    Reselect,
    Keep,
}

/// The part of the queue at hand does not hold what the player reports.
pub open spec fn outdated(cached: Option<PlexQueueWindow>, timeline: Timeline) -> bool {
    match cached {
        None => true,
        Some(window) => timeline.play_queue_id != Some(window.id) || timeline.play_queue_version
            != Some(window.version) || match timeline.play_queue_item_id {
            Some(item) => item_index(window.items@, item, 0) is None,
            None => true,
        },
    }
}

/// The entry that the session plays, as the player would name it.
pub open spec fn current_item(current: Option<String>) -> Option<nat> {
    match current {
        Some(id) => item_of(id@),
        None => None,
    }
}

pub open spec fn update_of(
    force: bool,
    cached: Option<PlexQueueWindow>,
    timeline: Timeline,
    current: Option<String>,
) -> QueueUpdate {
    if force || outdated(cached, timeline) {
        QueueUpdate::Reload
    } else if current_item(current) != (match timeline.play_queue_item_id {
        Some(item) => Some(item as nat),
        None => None,
    }) {
        QueueUpdate::Reselect
    } else {
        QueueUpdate::Keep
    }
}

pub fn queue_update(
    force: bool,
    cached: &Option<PlexQueueWindow>,
    timeline: &Timeline,
    current: &Option<String>,
) -> (result: QueueUpdate)
    ensures
        result == update_of(force, *cached, *timeline, *current),
{
    if force {
        return QueueUpdate::Reload;
    }
    let stale: bool = match cached {
        None => true,
        Some(window) => timeline.play_queue_id != Some(window.id) || timeline.play_queue_version
            != Some(window.version) || match timeline.play_queue_item_id {
            Some(item) => find_item(&window.items, item).is_none(),
            None => true,
        },
    };
    if stale {
        return QueueUpdate::Reload;
    }
    let own: Option<u64> = match current {
        Some(id) => plex_occurrence(id.as_str()),
        None => None,
    };
    if own == timeline.play_queue_item_id {
        QueueUpdate::Keep
    } else {
        QueueUpdate::Reselect
    }
}

/// What the session shows of a player.
#[derive(Clone, Copy, Debug, PartialEq, Eq, Structural)]
pub struct ExternalPlayback {
    pub queue_total: usize,
    pub queue_offset: usize,
    pub status: TransportStatus,
    pub position_millis: Option<u64>,
    pub duration_millis: u64,
    /// The volume in hundredths.
    pub volume: u8,
    pub muted: bool,
    pub repeat: RepeatMode,
    pub shuffle: bool,
}

pub open spec fn playback_shown(
    timeline: Timeline,
    window: Option<PlexQueueWindow>,
    prior_volume: Option<u8>,
) -> ExternalPlayback {
    ExternalPlayback {
        queue_total: match window {
            Some(queue) => queue.total,
            None => 0,
        },
        queue_offset: match window {
            Some(queue) => queue.offset,
            None => 0,
        },
        status: status_of(timeline.state@),
        position_millis: timeline.time,
        duration_millis: timeline.duration,
        volume: match timeline.volume {
            Some(volume) => volume,
            None => 100,
        },
        muted: prior_volume is Some,
        repeat: repeat_of(timeline.repeat),
        shuffle: timeline.shuffle == Some(true),
    }
}

pub fn external_playback(
    timeline: &Timeline,
    window: &Option<PlexQueueWindow>,
    prior_volume: Option<u8>,
) -> (result: ExternalPlayback)
    ensures
        result == playback_shown(*timeline, *window, prior_volume),
{
    let (total, offset): (usize, usize) = match window {
        Some(queue) => (queue.total, queue.offset),
        None => (0, 0),
    };
    ExternalPlayback {
        queue_total: total,
        queue_offset: offset,
        status: status(timeline),
        position_millis: timeline.time,
        duration_millis: timeline.duration,
        volume: match timeline.volume {
            Some(volume) => volume,
            None => 100,
        },
        muted: prior_volume.is_some(),
        repeat: repeat(timeline),
        shuffle: match timeline.shuffle {
            Some(shuffle) => shuffle,
            None => false,
        },
    }
}

/// Whether the session's queue is cleared for a player without one.
pub fn clears_queue(had_window: bool, local_entries: usize) -> (result: bool)
    ensures
        result == (had_window || local_entries > 0),
{
    had_window || local_entries > 0
}

/// An entry of the session's queue.
pub struct QueueEntry {
    pub occurrence: String,
    pub media_uri: String,
}

/// The session's queue as a player's server has it.
pub struct QueueRestore {
    pub entries: Vec<QueueEntry>,
    pub current_index: Option<usize>,
    pub progress_millis: i64,
    pub repeat_mode: RepeatMode,
    pub shuffled: bool,
}

/// The position of playback as the session stores it.
pub open spec fn progress_of(time: Option<u64>) -> i64 {
    match time {
        Some(time) => if time > i64::MAX {
            i64::MAX
        } else {
            time as i64
        },
        None => 0,
    }
}

pub fn progress(time: Option<u64>) -> (result: i64)
    ensures
        result == progress_of(time),
{
    match time {
        Some(time) => if time > 0x7fff_ffff_ffff_ffff {
            0x7fff_ffff_ffff_ffff
        } else {
            time as i64
        },
        None => 0,
    }
}

/// The entries of a queue as the session names them.
pub open spec fn entries_are(
    entries: Seq<QueueEntry>,
    items: Seq<PlexQueueItem>,
    source: Seq<char>,
    queue: u64,
) -> bool {
    entries.len() == items.len() && forall|i: int|
        0 <= i < items.len() ==> (#[trigger] entries[i]).occurrence@ == receiver_text(
            source,
            queue,
            items[i].occurrence_id,
        ) && entries[i].media_uri == items[i].media_uri
}

pub fn queue_entries(items: &Vec<PlexQueueItem>, source: &str, queue: u64) -> (result: Vec<
    QueueEntry,
>)
    ensures
        entries_are(result@, items@, source@, queue),
{
    let mut entries: Vec<QueueEntry> = Vec::new();
    let mut i: usize = 0;
    while i < items.len()
        invariant
            i <= items@.len(),
            entries@.len() == i,
            forall|j: int|
                0 <= j < i ==> (#[trigger] entries@[j]).occurrence@ == receiver_text(
                    source@,
                    queue,
                    items@[j].occurrence_id,
                ) && entries@[j].media_uri == items@[j].media_uri,
        decreases items@.len() - i,
    {
        entries.push(
            QueueEntry {
                occurrence: receiver_occurrence(source, queue, items[i].occurrence_id),
                media_uri: items[i].media_uri.clone(),
            },
        );
        i += 1;
    }
    entries
}

/// The queue is the one that a player plays, as the session names it.
pub open spec fn restores(
    window: PlexQueueWindow,
    source: Seq<char>,
    timeline: Timeline,
    result: QueueRestore,
) -> bool {
    &&& entries_are(result.entries@, window.items@, source, window.id)
    &&& match result.current_index {
        Some(i) => timeline.play_queue_item_id is Some && item_index(
            window.items@,
            timeline.play_queue_item_id->0,
            0,
        ) == Some(i as int),
        None => timeline.play_queue_item_id matches Some(item) ==> item_index(
            window.items@,
            item,
            0,
        ) is None,
    }
    &&& result.progress_millis == progress_of(timeline.time)
    &&& result.repeat_mode == repeat_of(timeline.repeat)
    &&& result.shuffled == (timeline.shuffle == Some(true))
}

/// The queue that the session takes over from a player.
pub fn restore(window: &PlexQueueWindow, source: &str, timeline: &Timeline) -> (result: QueueRestore)
    ensures
        restores(*window, source@, *timeline, result),
{
    let current_index: Option<usize> = match timeline.play_queue_item_id {
        Some(item) => find_item(&window.items, item),
        None => None,
    };
    QueueRestore {
        entries: queue_entries(&window.items, source, window.id),
        current_index,
        progress_millis: progress(timeline.time),
        repeat_mode: repeat(timeline),
        shuffled: match timeline.shuffle {
            Some(shuffle) => shuffle,
            None => false,
        },
    }
}

/// The media is among those whose rows are known.
pub open spec fn is_known(known: Seq<String>, uri: Seq<char>) -> bool {
    exists|i: int| 0 <= i < known.len() && #[trigger] known[i]@ == uri
}

fn knows(known: &Vec<String>, uri: &str) -> (result: bool)
    ensures
        result == is_known(known@, uri@),
{
    let mut i: usize = 0;
    while i < known.len()
        invariant
            i <= known@.len(),
            forall|j: int| 0 <= j < i ==> #[trigger] known@[j]@ != uri@,
        decreases known@.len() - i,
    {
        if same(known[i].as_str(), uri) {
            return true;
        }
        i += 1;
    }
    false
}

/// The server's keys of the entries whose rows are missing, in order.
pub open spec fn missing_keys(items: Seq<PlexQueueItem>, known: Seq<String>) -> Seq<String>
    decreases items.len(),
{
    if items.len() == 0 {
        seq![]
    } else {
        let earlier = missing_keys(items.drop_last(), known);
        if is_known(known, items.last().media_uri@) {
            earlier
        } else {
            earlier.push(items.last().rating_key)
        }
    }
}

pub fn keys_to_import(items: &Vec<PlexQueueItem>, known: &Vec<String>) -> (result: Vec<String>)
    ensures
        result@ == missing_keys(items@, known@),
{
    let mut result: Vec<String> = Vec::new();
    let mut i: usize = 0;
    while i < items.len()
        invariant
            i <= items@.len(),
            result@ == missing_keys(items@.take(i as int), known@),
        decreases items@.len() - i,
    {
        proof {
            assert(items@.take(i + 1).drop_last() =~= items@.take(i as int));
            assert(items@.take(i + 1).last() == items@[i as int]);
        }
        if !knows(known, items[i].media_uri.as_str()) {
            result.push(items[i].rating_key.clone());
        }
        i += 1;
    }
    assert(items@.take(i as int) =~= items@);
    result
}

/// An entry of the local queue and what its media is.
pub struct LocalEntry {
    pub media_uri: String,
    pub parts: Option<MediaParts>,
}

/// The entry is a track of the source whose row is missing here.
pub open spec fn wants_import(entry: LocalEntry, known: Seq<String>, source: Seq<char>) -> bool {
    !is_known(known, entry.media_uri@) && admitted(entry.parts, source)
}

/// The keys that are fetched from one source for the rows that are missing: in order, each once.
pub fn import_missing_plex_queue_rows(
    entries: &Vec<LocalEntry>,
    known: &Vec<String>,
    source: &str,
) -> (result: Vec<String>)
    ensures
        is_sorted(texts(result@)),
        forall|key: Seq<char>|
            texts(result@).contains(key) <==> exists|i: int|
                0 <= i < entries@.len() && wants_import(#[trigger] entries@[i], known@, source@)
                    && server_key(entries@[i].parts->0) == key,
{
    let mut result: Vec<String> = Vec::new();
    let mut i: usize = 0;
    while i < entries.len()
        invariant
            i <= entries@.len(),
            is_sorted(texts(result@)),
            forall|key: Seq<char>|
                texts(result@).contains(key) <==> exists|j: int|
                    0 <= j < i && wants_import(#[trigger] entries@[j], known@, source@)
                        && server_key(entries@[j].parts->0) == key,
        decreases entries@.len() - i,
    {
        let ghost before = texts(result@);
        let ghost at = i as int;
        if !knows(known, entries[i].media_uri.as_str()) {
            if let Some(parts) = &entries[i].parts {
                let key = crate::text::chars_of(parts.key.as_str());
                let prefix = crate::text::chars_of("plex:track:");
                if same(parts.source_id.as_str(), source) && same(parts.kind.as_str(), "track")
                    && crate::text::matches_here(&key, 0, &prefix) {
                    let rest = crate::text::part(&key, prefix.len(), key.len());
                    assert(rest@ =~= server_key(*parts));
                    insert_sorted(&mut result, crate::text::string_of(&rest));
                }
            }
        }
        proof {
            let entry = entries@[at];
            assert forall|key: Seq<char>|
                texts(result@).contains(key) <==> exists|j: int|
                    0 <= j < at + 1 && wants_import(#[trigger] entries@[j], known@, source@)
                        && server_key(entries@[j].parts->0) == key by {
                if texts(result@).contains(key) {
                    if before.contains(key) {
                        let j = choose|j: int|
                            0 <= j < at && wants_import(#[trigger] entries@[j], known@, source@)
                                && server_key(entries@[j].parts->0) == key;
                        assert(wants_import(entries@[j], known@, source@));
                    } else {
                        assert(wants_import(entry, known@, source@) && server_key(entry.parts->0)
                            == key);
                    }
                }
                if exists|j: int|
                    0 <= j < at + 1 && wants_import(#[trigger] entries@[j], known@, source@)
                        && server_key(entries@[j].parts->0) == key {
                    let j = choose|j: int|
                        0 <= j < at + 1 && wants_import(#[trigger] entries@[j], known@, source@)
                            && server_key(entries@[j].parts->0) == key;
                    if j < at {
                        assert(before.contains(key));
                    }
                }
            }
        }
        i += 1;
    }
    result
}

/// A command for the session.
pub enum SessionCommand {
    Play,
    Pause,
    PlayPause,
    Stop,
    Next,
    Previous,
    Seek(u64),
    /// The volume in hundredths.
    SetVolume(u8),
    SetMuted(bool),
    SetRepeat(RepeatMode),
    SetShuffle(bool),
    Activate(String),
    Remove(String),
    RemoveMany(Vec<String>),
    Forget(Vec<String>),
    Reorder { occurrences: Vec<String>, target: QueueReorderTarget },
    MoveAfterCurrent(String),
    Insert { target: QueueReorderTarget },
    Clear { include_current: bool },
    ApplyBatch { placement: QueuePlacement },
    UpdateSettings,
    SetAutoDj,
    SetVisualizerEnabled,
    ArtworkRefreshed,
    CatalogChanged,
    PersistOutputState,
    Other,
}

/// What a command does to a player.
pub enum PlexAction {
    Play,
    Pause,
    Stop,
    Next,
    Previous,
    Seek(u64),
    Volume(u8),
    Repeat(RepeatMode),
    Shuffle(bool),
    /// The player goes to the entry, by its key in the part of the queue around it.
    SkipTo { queue: u64, item: u64 },
    Remove { queue: u64, occurrences: Vec<String> },
    Reorder { queue: u64, occurrences: Vec<String>, target: QueueReorderTarget },
    Insert { target: QueueReorderTarget },
    /// The entries of the queue are removed, the current one or not.
    Clear { keep: Option<u64> },
    ApplyBatch { placement: QueuePlacement },
    Nothing,
}

/// Whether a command concerns this device alone, though a player is selected.
pub fn stays_local(command: &SessionCommand) -> (result: bool)
    ensures
        result == (command is UpdateSettings || command is SetAutoDj
            || command is SetVisualizerEnabled || command is ArtworkRefreshed
            || command is CatalogChanged || command is PersistOutputState),
{
    match command {
        SessionCommand::UpdateSettings => true,
        SessionCommand::SetAutoDj => true,
        SessionCommand::SetVisualizerEnabled => true,
        SessionCommand::ArtworkRefreshed => true,
        SessionCommand::CatalogChanged => true,
        SessionCommand::PersistOutputState => true,
        _ => false,
    }
}

/// The volume of a player and the one it had before it was muted.
#[derive(Clone, Copy, Debug, PartialEq, Eq, Structural)]
pub struct PlayerVolume {
    pub prior: Option<u8>,
}

/// The volume that is remembered after a player was muted, or that was ended.
pub open spec fn prior_after(prior: Option<u8>, muted: bool, volume: u8) -> Option<u8> {
    if !muted {
        None
    } else if prior is Some {
        prior
    } else {
        Some(volume)
    }
}

/// The volume that a player gets when it is muted, or that is ended.
pub open spec fn volume_after(prior: Option<u8>, muted: bool, volume: u8) -> u8 {
    if muted {
        0
    } else {
        match prior {
            Some(prior) => prior,
            None => volume,
        }
    }
}

impl PlayerVolume {
    /// Mutes a player or ends that, and says which volume it gets. A player that is muted twice
    /// keeps the volume it had first.
    pub fn set_muted(&mut self, muted: bool, volume: u8) -> (target: u8)
        ensures
            target == volume_after(old(self).prior, muted, volume),
            final(self).prior == prior_after(old(self).prior, muted, volume),
    {
        if muted {
            if self.prior.is_none() {
                self.prior = Some(volume);
            }
            0
        } else {
            let target: u8 = match self.prior {
                Some(prior) => prior,
                None => volume,
            };
            self.prior = None;
            target
        }
    }
}

/// Ending a mute gives back the volume from before it, whatever the player reports meanwhile, and
/// also where it was muted twice.
pub proof fn unmuting_restores_the_volume(volume: u8, meanwhile: u8, last: u8)
    ensures
        volume_after(prior_after(None, true, volume), false, last) == volume,
        volume_after(
            prior_after(prior_after(None, true, volume), true, meanwhile),
            false,
            last,
        ) == volume,
{
}

/// Whether Auto DJ goes on from a track on a player: only from one of the player's own source.
pub fn seeds_auto_dj(seed: &Option<MediaParts>, source: &str) -> (result: bool)
    ensures
        result == (seed matches Some(parts) && parts.source_id@ == source@),
{
    match seed {
        Some(parts) => same(parts.source_id.as_str(), source),
        None => false,
    }
}

/// Whether the tracks that Auto DJ found still go to the player: it is still selected, plays from
/// the same source, and still plays the entry that they follow.
pub fn auto_dj_applies(
    cancelled: bool,
    same_source: bool,
    timeline: &Timeline,
    seed: &str,
) -> (result: bool)
    ensures
        result == (!cancelled && same_source && item_of(seed@) == (match timeline.play_queue_item_id {
            Some(item) => Some(item as nat),
            None => None,
        })),
{
    !cancelled && same_source && plex_occurrence(seed) == timeline.play_queue_item_id
}

/// The failure of a command that needs something the player's report lacks.
pub open spec fn command_error(command: SessionCommand, timeline: Timeline) -> Option<PlexError> {
    let no_queue = if timeline.play_queue_id is None {
        Some(PlexError::NoQueue)
    } else {
        None
    };
    match command {
        SessionCommand::Activate(id) => if item_of(id@) is None {
            Some(PlexError::NoSuchOccurrence)
        } else {
            no_queue
        },
        SessionCommand::Remove(_) | SessionCommand::RemoveMany(_) | SessionCommand::Forget(_)
        | SessionCommand::Reorder { .. } | SessionCommand::Clear { .. } => no_queue,
        SessionCommand::MoveAfterCurrent(_) => if timeline.play_queue_id is None {
            no_queue
        } else if timeline.play_queue_item_id is None {
            Some(PlexError::NoCurrent)
        } else {
            None
        },
        _ => None,
    }
}

/// The list of one entry.
pub open spec fn only(list: Seq<String>, id: String) -> bool {
    list == seq![id]
}

/// The action is right for the command and the player's report.
pub open spec fn obeys(command: SessionCommand, timeline: Timeline, action: PlexAction) -> bool {
    let queue = timeline.play_queue_id->0;
    match command {
        SessionCommand::Play => action == PlexAction::Play,
        SessionCommand::Pause => action == PlexAction::Pause,
        SessionCommand::PlayPause => action == if timeline.state@ == "playing"@ || timeline.state@
            == "buffering"@ {
            PlexAction::Pause
        } else {
            PlexAction::Play
        },
        SessionCommand::Stop => action == PlexAction::Stop,
        SessionCommand::Next => action == PlexAction::Next,
        SessionCommand::Previous => action == PlexAction::Previous,
        SessionCommand::Seek(offset) => action == PlexAction::Seek(offset),
        SessionCommand::SetVolume(volume) => action == PlexAction::Volume(volume),
        SessionCommand::SetRepeat(mode) => action == PlexAction::Repeat(mode),
        SessionCommand::SetShuffle(enabled) => action == PlexAction::Shuffle(enabled),
        SessionCommand::Activate(id) => action == (PlexAction::SkipTo {
            queue,
            item: item_of(id@)->0 as u64,
        }),
        SessionCommand::Remove(id) => action matches PlexAction::Remove {
            queue: from,
            occurrences,
        } && from == queue && only(occurrences@, id),
        SessionCommand::RemoveMany(ids) | SessionCommand::Forget(ids) => action == (
        PlexAction::Remove { queue, occurrences: ids }),
        SessionCommand::Reorder { occurrences, target } => action == (PlexAction::Reorder {
            queue,
            occurrences,
            target,
        }),
        SessionCommand::MoveAfterCurrent(id) => action matches PlexAction::Reorder {
            queue: within,
            occurrences,
            target: QueueReorderTarget::After(current),
        } && within == queue && only(occurrences@, id) && current@ == occurrence_text(
            queue,
            timeline.play_queue_item_id->0,
        ),
        SessionCommand::Insert { target } => action == (PlexAction::Insert { target }),
        SessionCommand::Clear { include_current } => action == (PlexAction::Clear {
            keep: if include_current {
                None
            } else {
                timeline.play_queue_item_id
            },
        }),
        SessionCommand::ApplyBatch { placement } => action == (PlexAction::ApplyBatch { placement }),
        _ => action == PlexAction::Nothing,
    }
}

impl PlayerVolume {
    /// Turns a command into what the player is told, by its latest report. Setting the volume ends
    /// a mute.
    pub fn command(&mut self, command: SessionCommand, timeline: &Timeline) -> (result: Result<
        PlexAction,
        PlexError,
    >)
        ensures
            match command {
                SessionCommand::SetMuted(muted) => {
                    let volume = match timeline.volume {
                        Some(volume) => volume,
                        None => 100,
                    };
                    &&& result == Ok::<PlexAction, PlexError>(
                        PlexAction::Volume(volume_after(old(self).prior, muted, volume)),
                    )
                    &&& final(self).prior == prior_after(old(self).prior, muted, volume)
                },
                _ => {
                    &&& match result {
                        Ok(action) => command_error(command, *timeline) is None && obeys(
                            command,
                            *timeline,
                            action,
                        ),
                        Err(error) => command_error(command, *timeline) == Some(error),
                    }
                    &&& final(self).prior == if command is SetVolume {
                        None
                    } else {
                        old(self).prior
                    }
                },
            },
    {
        match command {
            SessionCommand::SetMuted(muted) => {
                let volume: u8 = match timeline.volume {
                    Some(volume) => volume,
                    None => 100,
                };
                let target: u8 = self.set_muted(muted, volume);
                Ok(PlexAction::Volume(target))
            },
            SessionCommand::SetVolume(volume) => {
                self.prior = None;
                Ok(PlexAction::Volume(volume))
            },
            other => queue_command(other, timeline),
        }
    }
}

fn queue_command(command: SessionCommand, timeline: &Timeline) -> (result: Result<
    PlexAction,
    PlexError,
>)
    requires
        !(command is SetMuted) && !(command is SetVolume),
    ensures
        match result {
            Ok(action) => command_error(command, *timeline) is None && obeys(
                command,
                *timeline,
                action,
            ),
            Err(error) => command_error(command, *timeline) == Some(error),
        },
{
    match command {
        SessionCommand::Activate(id) => {
            let item: u64 = match plex_occurrence(id.as_str()) {
                Some(item) => item,
                None => {
                    return Err(PlexError::NoSuchOccurrence);
                },
            };
            match timeline.play_queue_id {
                Some(queue) => Ok(PlexAction::SkipTo { queue, item }),
                None => Err(PlexError::NoQueue),
            }
        },
        SessionCommand::Remove(id) => match timeline.play_queue_id {
            Some(queue) => {
                let mut occurrences: Vec<String> = Vec::new();
                occurrences.push(id);
                assert(occurrences@ =~= seq![id]);
                Ok(PlexAction::Remove { queue, occurrences })
            },
            None => Err(PlexError::NoQueue),
        },
        SessionCommand::RemoveMany(ids) => match timeline.play_queue_id {
            Some(queue) => Ok(PlexAction::Remove { queue, occurrences: ids }),
            None => Err(PlexError::NoQueue),
        },
        SessionCommand::Forget(ids) => match timeline.play_queue_id {
            Some(queue) => Ok(PlexAction::Remove { queue, occurrences: ids }),
            None => Err(PlexError::NoQueue),
        },
        SessionCommand::Reorder { occurrences, target } => match timeline.play_queue_id {
            Some(queue) => Ok(PlexAction::Reorder { queue, occurrences, target }),
            None => Err(PlexError::NoQueue),
        },
        SessionCommand::MoveAfterCurrent(id) => match timeline.play_queue_id {
            Some(queue) => match timeline.play_queue_item_id {
                Some(item) => {
                    let mut occurrences: Vec<String> = Vec::new();
                    occurrences.push(id);
                    assert(occurrences@ =~= seq![id]);
                    Ok(
                        PlexAction::Reorder {
                            queue,
                            occurrences,
                            target: QueueReorderTarget::After(occurrence(queue, item)),
                        },
                    )
                },
                None => Err(PlexError::NoCurrent),
            },
            None => Err(PlexError::NoQueue),
        },
        SessionCommand::Clear { include_current } => match timeline.play_queue_id {
            Some(_) => Ok(
                PlexAction::Clear {
                    keep: if include_current {
                        None
                    } else {
                        timeline.play_queue_item_id
                    },
                },
            ),
            None => Err(PlexError::NoQueue),
        },
        SessionCommand::PlayPause => if same(timeline.state.as_str(), "playing") || same(
            timeline.state.as_str(),
            "buffering",
        ) {
            Ok(PlexAction::Pause)
        } else {
            Ok(PlexAction::Play)
        },
        SessionCommand::Play => Ok(PlexAction::Play),
        SessionCommand::Pause => Ok(PlexAction::Pause),
        SessionCommand::Stop => Ok(PlexAction::Stop),
        SessionCommand::Next => Ok(PlexAction::Next),
        SessionCommand::Previous => Ok(PlexAction::Previous),
        SessionCommand::Seek(offset) => Ok(PlexAction::Seek(offset)),
        SessionCommand::SetRepeat(mode) => Ok(PlexAction::Repeat(mode)),
        SessionCommand::SetShuffle(enabled) => Ok(PlexAction::Shuffle(enabled)),
        SessionCommand::Insert { target } => Ok(PlexAction::Insert { target }),
        SessionCommand::ApplyBatch { placement } => Ok(PlexAction::ApplyBatch { placement }),
        _ => Ok(PlexAction::Nothing),
    }
}

/// The entries that a clearing removes.
pub open spec fn cleared_ids(items: Seq<PlexQueueItem>, keep: Option<u64>) -> Seq<u64>
    decreases items.len(),
{
    if items.len() == 0 {
        seq![]
    } else {
        let earlier = cleared_ids(items.drop_last(), keep);
        if keep == Some(items.last().occurrence_id) {
            earlier
        } else {
            earlier.push(items.last().occurrence_id)
        }
    }
}

pub fn clear_ids(items: &Vec<PlexQueueItem>, keep: Option<u64>) -> (result: Vec<u64>)
    ensures
        result@ == cleared_ids(items@, keep),
{
    let mut result: Vec<u64> = Vec::new();
    let mut i: usize = 0;
    while i < items.len()
        invariant
            i <= items@.len(),
            result@ == cleared_ids(items@.take(i as int), keep),
        decreases items@.len() - i,
    {
        proof {
            assert(items@.take(i + 1).drop_last() =~= items@.take(i as int));
            assert(items@.take(i + 1).last() == items@[i as int]);
        }
        let id: u64 = items[i].occurrence_id;
        if keep != Some(id) {
            result.push(id);
        }
        i += 1;
    }
    assert(items@.take(i as int) =~= items@);
    result
}

/// A clearing removes every entry once, in the order of the queue, but for the one that is kept.
pub proof fn clearing_removes_all_others(items: Seq<PlexQueueItem>, keep: Option<u64>, i: int)
    requires
        0 <= i < items.len(),
    ensures
        keep != Some(items[i].occurrence_id) ==> cleared_ids(items, keep).contains(
            items[i].occurrence_id,
        ),
        forall|id: u64| keep == Some(id) ==> !(#[trigger] cleared_ids(items, keep).contains(id)),
        keep is None ==> cleared_ids(items, keep).len() == items.len(),
    decreases items.len(),
{
    let init = items.drop_last();
    let before = cleared_ids(init, keep);
    let all = cleared_ids(items, keep);
    if init.len() > 0 {
        if i < init.len() {
            clearing_removes_all_others(init, keep, i);
            if keep != Some(items[i].occurrence_id) {
                let k = choose|k: int| 0 <= k < before.len() && before[k] == items[i].occurrence_id;
                assert(all[k] == items[i].occurrence_id);
            }
        } else {
            clearing_removes_all_others(init, keep, 0);
        }
    } else {
        assert(before == Seq::<u64>::empty());
    }
    if i == init.len() && keep != Some(items[i].occurrence_id) {
        assert(all[all.len() - 1] == items[i].occurrence_id);
    }
    assert forall|id: u64| keep == Some(id) implies !(#[trigger] all.contains(id)) by {
        if all.contains(id) {
            let k = choose|k: int| 0 <= k < all.len() && all[k] == id;
            if k < before.len() {
                assert(before[k] == id);
                assert(before.contains(id));
            }
        }
    }
}

} // verus!
