//! Plex players. The server owns a player's queue; what it reports enters the running session.

use vstd::prelude::*;
use vstd::string::*;

use crate::redaction::{parse_url, url_error, url_scheme};
use crate::text::{
    all_digits, chars_of, decimal, decimal_text, joined, matches_at, matches_here, number_of,
    number_round_trip, parse_number, part, same, shown, string_of, CharClass,
};

verus! {

/// Why a Plex player cannot do what is asked.
#[derive(Clone, Copy, Debug, PartialEq, Eq, Structural)]
pub enum PlexError {
    MixedSources,
    NoMusic,
    Cancelled,
    OccurrenceNotRetained,
    EmptyQueue,
    NoQueue,
    TargetGone,
    OccurrenceGone,
    NoSuchOccurrence,
    ActivatedGone,
    TargetOccurrenceGone,
    NoCurrent,
    QueueChanged,
    QueueIncomplete,
    LoadTimeout,
    UnavailableServer,
    UnavailableSource,
    NoSource,
    PlayerGone,
    SourceUnavailable,
    OrderLost,
    CurrentLost,
    LocalChanged,
    NoReport,
    NotSelected,
    NoCurrentQueueOccurrence,
    NotLocal,
    PlayerChanged,
}

impl PlexError {
    pub open spec fn message(self) -> Seq<char> {
        match self {
            PlexError::MixedSources => "Plex Companion queues require Plex music from one configured server and profile"@,
            PlexError::NoMusic => "There is no music to transfer"@,
            PlexError::Cancelled => "Output selection cancelled"@,
            PlexError::OccurrenceNotRetained => "Plex did not retain the selected queue occurrence"@,
            PlexError::EmptyQueue => "Plex returned an empty queue"@,
            PlexError::NoQueue => "The Plex player has no queue"@,
            PlexError::TargetGone => "The queue target is no longer on the Plex player"@,
            PlexError::OccurrenceGone => "The occurrence is no longer on the Plex player"@,
            PlexError::NoSuchOccurrence => "The queue occurrence is no longer on the Plex player"@,
            PlexError::ActivatedGone => "The Plex player no longer has that occurrence"@,
            PlexError::TargetOccurrenceGone => "The Plex player no longer has the target occurrence"@,
            PlexError::NoCurrent => "The Plex player has no current occurrence"@,
            PlexError::QueueChanged => "Plex changed its queue during transfer"@,
            PlexError::QueueIncomplete => "Plex returned an incomplete queue during transfer"@,
            PlexError::LoadTimeout => "The Plex player did not finish loading the selected queue"@,
            PlexError::UnavailableServer => "The Plex player is playing from an unavailable configured server or profile"@,
            PlexError::UnavailableSource => "Plex Companion queues require an available configured Plex source"@,
            PlexError::NoSource => "Add a Plex source before selecting a Plex player"@,
            PlexError::PlayerGone => "The Plex player is no longer available; search for outputs again"@,
            PlexError::SourceUnavailable => "The Plex player is playing from an unavailable server or profile"@,
            PlexError::OrderLost => "Plex did not preserve the complete queue order"@,
            PlexError::CurrentLost => "Plex did not retain the current queue occurrence"@,
            PlexError::LocalChanged => "Local playback changed its queue during transfer; select the Plex player again"@,
            PlexError::NoReport => "The selected local occurrence is unavailable"@,
            PlexError::NotSelected => "The Plex player is not selected"@,
            PlexError::NoCurrentQueueOccurrence => "The Plex player has no current queue occurrence"@,
            PlexError::NotLocal => "The current Plex track is not available locally"@,
            PlexError::PlayerChanged => "The Plex player changed its queue during transfer; select local output again"@,
        }
    }

    pub fn text(self) -> (result: &'static str)
        ensures
            result@ == self.message(),
    {
        match self {
            PlexError::MixedSources => "Plex Companion queues require Plex music from one configured server and profile",
            PlexError::NoMusic => "There is no music to transfer",
            PlexError::Cancelled => "Output selection cancelled",
            PlexError::OccurrenceNotRetained => "Plex did not retain the selected queue occurrence",
            PlexError::EmptyQueue => "Plex returned an empty queue",
            PlexError::NoQueue => "The Plex player has no queue",
            PlexError::TargetGone => "The queue target is no longer on the Plex player",
            PlexError::OccurrenceGone => "The occurrence is no longer on the Plex player",
            PlexError::NoSuchOccurrence => "The queue occurrence is no longer on the Plex player",
            PlexError::ActivatedGone => "The Plex player no longer has that occurrence",
            PlexError::TargetOccurrenceGone => "The Plex player no longer has the target occurrence",
            PlexError::NoCurrent => "The Plex player has no current occurrence",
            PlexError::QueueChanged => "Plex changed its queue during transfer",
            PlexError::QueueIncomplete => "Plex returned an incomplete queue during transfer",
            PlexError::LoadTimeout => "The Plex player did not finish loading the selected queue",
            PlexError::UnavailableServer => "The Plex player is playing from an unavailable configured server or profile",
            PlexError::UnavailableSource => "Plex Companion queues require an available configured Plex source",
            PlexError::NoSource => "Add a Plex source before selecting a Plex player",
            PlexError::PlayerGone => "The Plex player is no longer available; search for outputs again",
            PlexError::SourceUnavailable => "The Plex player is playing from an unavailable server or profile",
            PlexError::OrderLost => "Plex did not preserve the complete queue order",
            PlexError::CurrentLost => "Plex did not retain the current queue occurrence",
            PlexError::LocalChanged => "Local playback changed its queue during transfer; select the Plex player again",
            PlexError::NoReport => "The selected local occurrence is unavailable",
            PlexError::NotSelected => "The Plex player is not selected",
            PlexError::NoCurrentQueueOccurrence => "The Plex player has no current queue occurrence",
            PlexError::NotLocal => "The current Plex track is not available locally",
            PlexError::PlayerChanged => "The Plex player changed its queue during transfer; select local output again",
        }
    }
}

/// An entry of a server's play queue.
pub struct PlexQueueItem {
    pub occurrence_id: u64,
    pub rating_key: String,
    pub key: String,
    pub media_uri: String,
}

/// A part of a server's play queue.
pub struct PlexQueueWindow {
    pub id: u64,
    pub version: u64,
    pub total: usize,
    pub offset: usize,
    pub selected_item_id: Option<u64>,
    pub shuffled: bool,
    pub items: Vec<PlexQueueItem>,
}

/// What a player reports.
pub struct Timeline {
    pub state: String,
    pub time: Option<u64>,
    pub duration: u64,
    pub machine_identifier: Option<String>,
    pub play_queue_id: Option<u64>,
    pub play_queue_version: Option<u64>,
    pub play_queue_item_id: Option<u64>,
    pub volume: Option<u8>,
    pub repeat: Option<u8>,
    pub shuffle: Option<bool>,
}

#[derive(Clone, Copy, Debug, PartialEq, Eq, Structural)]
pub enum TransportStatus {
    Playing,
    Paused,
    Buffering,
    Stopped,
}

#[derive(Clone, Copy, Debug, PartialEq, Eq, Structural)]
pub enum RepeatMode {
    Off,
    All,
    One,
}

pub open spec fn status_of(state: Seq<char>) -> TransportStatus {
    if state == "playing"@ {
        TransportStatus::Playing
    } else if state == "paused"@ {
        TransportStatus::Paused
    } else if state == "buffering"@ {
        TransportStatus::Buffering
    } else {
        TransportStatus::Stopped
    }
}

pub fn status(timeline: &Timeline) -> (result: TransportStatus)
    ensures
        result == status_of(timeline.state@),
{
    if same(timeline.state.as_str(), "playing") {
        TransportStatus::Playing
    } else if same(timeline.state.as_str(), "paused") {
        TransportStatus::Paused
    } else if same(timeline.state.as_str(), "buffering") {
        TransportStatus::Buffering
    } else {
        TransportStatus::Stopped
    }
}

pub open spec fn repeat_of(repeat: Option<u8>) -> RepeatMode {
    match repeat {
        Some(1) => RepeatMode::All,
        Some(2) => RepeatMode::One,
        _ => RepeatMode::Off,
    }
}

pub fn repeat(timeline: &Timeline) -> (result: RepeatMode)
    ensures
        result == repeat_of(timeline.repeat),
{
    match timeline.repeat {
        Some(1) => RepeatMode::All,
        Some(2) => RepeatMode::One,
        _ => RepeatMode::Off,
    }
}

/// The report that a queue would give before it is played.
pub fn queue_timeline(queue: &PlexQueueWindow) -> (result: Timeline)
    ensures
        result.state@ == "paused"@,
        result == (Timeline {
            state: result.state,
            time: Some(0),
            duration: 0,
            machine_identifier: None,
            play_queue_id: Some(queue.id),
            play_queue_version: Some(queue.version),
            play_queue_item_id: queue.selected_item_id,
            volume: None,
            repeat: None,
            shuffle: Some(queue.shuffled),
        }),
{
    Timeline {
        state: "paused".to_owned(),
        time: Some(0),
        duration: 0,
        machine_identifier: None,
        play_queue_id: Some(queue.id),
        play_queue_version: Some(queue.version),
        play_queue_item_id: queue.selected_item_id,
        volume: None,
        repeat: None,
        shuffle: Some(queue.shuffled),
    }
}

/// The identity of an entry of a player's queue.
pub open spec fn occurrence_text(queue: u64, item: u64) -> Seq<char> {
    "plex:"@ + decimal(queue as nat) + ":"@ + decimal(item as nat)
}

/// The identity of an entry of a player's queue, for the source that it plays from.
pub open spec fn receiver_text(source: Seq<char>, queue: u64, item: u64) -> Seq<char> {
    "plex:"@ + source + ":"@ + decimal(queue as nat) + ":"@ + decimal(item as nat)
}

pub fn occurrence(queue: u64, item: u64) -> (result: String)
    ensures
        result@ == occurrence_text(queue, item),
{
    let mut text = joined("plex:", decimal_text(queue).as_str());
    text.append(":");
    text.append(decimal_text(item).as_str());
    text
}

pub fn receiver_occurrence(source: &str, queue: u64, item: u64) -> (result: String)
    ensures
        result@ == receiver_text(source@, queue, item),
{
    let mut text = joined("plex:", source);
    text.append(":");
    text.append(decimal_text(queue).as_str());
    text.append(":");
    text.append(decimal_text(item).as_str());
    text
}

/// The position behind the last colon.
pub open spec fn after_last_colon(s: Seq<char>) -> Option<int>
    decreases s.len(),
{
    if s.len() == 0 {
        None
    } else if s.last() == ':' {
        Some(s.len() as int)
    } else {
        after_last_colon(s.drop_last())
    }
}

/// The entry of a player's queue that an identity names.
pub open spec fn item_of(id: Seq<char>) -> Option<nat> {
    if !matches_at(id, 0, "plex:"@) {
        None
    } else {
        let rest = id.skip("plex:"@.len() as int);
        match after_last_colon(rest) {
            Some(at) => number_of(rest.skip(at), u64::MAX as nat),
            None => None,
        }
    }
}

fn last_colon(chars: &[char]) -> (result: Option<usize>)
    ensures
        match result {
            Some(at) => after_last_colon(chars@) == Some(at as int) && 0 < at <= chars@.len(),
            None => after_last_colon(chars@) is None,
        },
{
    let mut at: usize = chars.len();
    assert(chars@.take(at as int) =~= chars@);
    while at > 0 && chars[at - 1] != ':'
        invariant
            at <= chars@.len(),
            after_last_colon(chars@) == after_last_colon(chars@.take(at as int)),
        decreases at,
    {
        proof {
            let t = chars@.take(at as int);
            assert(t.last() == chars@[at - 1]);
            assert(t.drop_last() =~= chars@.take(at - 1));
        }
        at -= 1;
    }
    if at == 0 {
        return None;
    }
    assert(chars@.take(at as int).last() == chars@[at - 1]);
    Some(at)
}

pub fn plex_occurrence(id: &str) -> (result: Option<u64>)
    ensures
        match result {
            Some(item) => item_of(id@) == Some(item as nat),
            None => item_of(id@) is None,
        },
{
    let chars = chars_of(id);
    let prefix = chars_of("plex:");
    if !matches_here(&chars, 0, &prefix) {
        return None;
    }
    let rest = part(&chars, prefix.len(), chars.len());
    assert(rest@ =~= id@.skip("plex:"@.len() as int));
    match last_colon(&rest) {
        Some(at) => {
            let digits = part(&rest, at, rest.len());
            assert(digits@ =~= rest@.skip(at as int));
            parse_number(string_of(&digits).as_str(), u64::MAX)
        },
        None => None,
    }
}

/// What the entries of a captured input have in common: the identity of one of them up to its last
/// colon, which is kept. A capture is discarded under this name.
pub fn capture_prefix(occurrence: &str) -> (result: Option<String>)
    ensures
        shown(result) == match after_last_colon(occurrence@) {
            Some(at) => Some(occurrence@.take(at)),
            None => None,
        },
{
    let chars = chars_of(occurrence);
    match last_colon(&chars) {
        Some(at) => {
            let prefix = part(&chars, 0, at);
            assert(prefix@ =~= occurrence@.take(at as int));
            Some(string_of(&prefix))
        },
        None => None,
    }
}

/// Refuses a server's address that is no URL: a player could not reach the server by it.
pub fn check_server_url(base_url: &str) -> (result: Result<(), String>)
    ensures
        match result {
            Ok(_) => url_scheme(base_url@) is Some,
            Err(message) => url_scheme(base_url@) is None && message@ == url_error(base_url@),
        },
{
    match parse_url(base_url) {
        Ok(_) => Ok(()),
        Err(message) => Err(message),
    }
}


proof fn last_colon_before_digits(head: Seq<char>, digits: Seq<char>)
    requires
        all_digits(digits),
    ensures
        after_last_colon(head + ":"@ + digits) == Some(head.len() as int + 1),
    decreases digits.len(),
{
    reveal_strlit(":");
    let s = head + ":"@ + digits;
    if digits.len() == 0 {
        assert(s.last() == ':');
    } else {
        assert(s.last() == digits.last());
        assert(CharClass::Digit.has(digits[digits.len() - 1]));
        assert(s.drop_last() =~= head + ":"@ + digits.drop_last());
        assert(all_digits(digits.drop_last()));
        last_colon_before_digits(head, digits.drop_last());
    }
}

proof fn item_behind_colon(head: Seq<char>, item: u64)
    ensures
        item_of("plex:"@ + head + ":"@ + decimal(item as nat)) == Some(item as nat),
{
    let digits = decimal(item as nat);
    let id = "plex:"@ + head + ":"@ + digits;
    let n = "plex:"@.len() as int;
    number_round_trip(item as nat, u64::MAX as nat);
    reveal_strlit("plex:");
    reveal_strlit(":");
    assert(id.subrange(0, n) =~= "plex:"@);
    let rest = id.skip(n);
    assert(rest =~= head + ":"@ + digits);
    last_colon_before_digits(head, digits);
    assert(rest.skip(head.len() as int + 1) =~= digits);
}

/// The identity of a queue entry gives the entry back, with or without its source.
pub proof fn occurrences_read_back(source: Seq<char>, queue: u64, item: u64)
    ensures
        item_of(occurrence_text(queue, item)) == Some(item as nat),
        item_of(receiver_text(source, queue, item)) == Some(item as nat),
{
    item_behind_colon(decimal(queue as nat), item);
    item_behind_colon(source + ":"@ + decimal(queue as nat), item);
    assert("plex:"@ + (source + ":"@ + decimal(queue as nat)) + ":"@ + decimal(item as nat)
        =~= receiver_text(source, queue, item));
}

/// Entries of different sources, queues or places never share an identity.
pub proof fn receiver_occurrences_differ(
    a: Seq<char>,
    queue_a: u64,
    item_a: u64,
    b: Seq<char>,
    queue_b: u64,
    item_b: u64,
)
    requires
        receiver_text(a, queue_a, item_a) == receiver_text(b, queue_b, item_b),
    ensures
        a == b && queue_a == queue_b && item_a == item_b,
{
    occurrences_read_back(a, queue_a, item_a);
    occurrences_read_back(b, queue_b, item_b);
    let x = "plex:"@ + a + ":"@ + decimal(queue_a as nat);
    let y = "plex:"@ + b + ":"@ + decimal(queue_b as nat);
    let tail = ":"@ + decimal(item_a as nat);
    assert(receiver_text(a, queue_a, item_a) =~= x + tail);
    assert(receiver_text(b, queue_b, item_b) =~= y + tail);
    assert(x =~= (x + tail).take(x.len() as int));
    assert(y =~= (y + tail).take(y.len() as int));
    assert(x == y);
    item_behind_colon(a, queue_a);
    item_behind_colon(b, queue_b);
    let end = ":"@ + decimal(queue_a as nat);
    assert(x =~= ("plex:"@ + a) + end);
    assert(y =~= ("plex:"@ + b) + end);
    assert("plex:"@ + a =~= x.take(("plex:"@ + a).len() as int));
    assert("plex:"@ + b =~= y.take(("plex:"@ + b).len() as int));
    assert(a =~= ("plex:"@ + a).skip("plex:"@.len() as int));
    assert(b =~= ("plex:"@ + b).skip("plex:"@.len() as int));
}

/// What the media of a queue entry is: the source, the kind and the key, where it comes from one.
pub struct MediaParts {
    pub source_id: String,
    pub kind: String,
    pub key: String,
}

/// The entry is a track of the source with a key of the server.
pub open spec fn admitted(entry: Option<MediaParts>, source: Seq<char>) -> bool {
    entry matches Some(parts) && parts.source_id@ == source && parts.kind@ == "track"@
        && matches_at(parts.key@, 0, "plex:track:"@)
}

/// The server's key of an admitted entry.
pub open spec fn server_key(parts: MediaParts) -> Seq<char> {
    parts.key@.skip("plex:track:"@.len() as int)
}

/// The server's keys of a queue, one for each entry. A player's queue holds music of one source
/// only.
pub fn queue_keys(entries: &Vec<Option<MediaParts>>, source: &str) -> (result: Result<
    Vec<String>,
    PlexError,
>)
    ensures
        match result {
            Ok(keys) => {
                &&& keys@.len() == entries@.len()
                &&& forall|i: int|
                    0 <= i < entries@.len() ==> admitted(#[trigger] entries@[i], source@)
                        && keys@[i]@ == server_key(entries@[i]->0)
            },
            Err(error) => error == PlexError::MixedSources && exists|i: int|
                0 <= i < entries@.len() && !admitted(#[trigger] entries@[i], source@),
        },
{
    let mut keys: Vec<String> = Vec::new();
    let prefix = chars_of("plex:track:");
    let mut i: usize = 0;
    while i < entries.len()
        invariant
            i <= entries@.len(),
            prefix@ == "plex:track:"@,
            keys@.len() == i,
            forall|j: int|
                0 <= j < i ==> admitted(#[trigger] entries@[j], source@) && keys@[j]@
                    == server_key(entries@[j]->0),
        decreases entries@.len() - i,
    {
        match &entries[i] {
            Some(parts) => {
                let key = chars_of(parts.key.as_str());
                if !same(parts.source_id.as_str(), source) || !same(parts.kind.as_str(), "track")
                    || !matches_here(&key, 0, &prefix) {
                    assert(!admitted(entries@[i as int], source@));
                    return Err(PlexError::MixedSources);
                }
                let rest = part(&key, prefix.len(), key.len());
                assert(rest@ =~= server_key(*parts));
                keys.push(string_of(&rest));
            },
            None => {
                assert(!admitted(entries@[i as int], source@));
                return Err(PlexError::MixedSources);
            },
        }
        i += 1;
    }
    Ok(keys)
}

pub fn check_cancelled(cancelled: bool) -> (result: Result<(), PlexError>)
    ensures
        result == if cancelled {
            Err::<(), PlexError>(PlexError::Cancelled)
        } else {
            Ok(())
        },
{
    if cancelled {
        Err(PlexError::Cancelled)
    } else {
        Ok(())
    }
}

/// The player has the entry in place: with the given state, or with any in which it is loaded. An
/// entry that is buffering counts as playing; waiting for sound would hold up later controls.
pub open spec fn is_installed(
    timeline: Timeline,
    server: Seq<char>,
    queue: u64,
    item: u64,
    state: Option<Seq<char>>,
) -> bool {
    &&& shown(timeline.machine_identifier) == Some(server)
    &&& timeline.play_queue_id == Some(queue)
    &&& timeline.play_queue_item_id == Some(item)
    &&& match state {
        Some(state) => timeline.state@ == state || (state == "playing"@ && timeline.state@
            == "buffering"@),
        None => timeline.state@ == "paused"@ || timeline.state@ == "playing"@ || timeline.state@
            == "buffering"@,
    }
}

/// Whether the wait for an entry is over: it is in place, or ten seconds have passed. Times count
/// milliseconds.
pub fn wait_for_plex_occurrence(
    timeline: &Option<Timeline>,
    server: &str,
    queue: u64,
    item: u64,
    state: Option<&str>,
    waited: u64,
) -> (result: Result<bool, PlexError>)
    ensures
        ({
            let wanted = match state {
                Some(state) => Some(state@),
                None => None,
            };
            let done = *timeline matches Some(report) && is_installed(
                report,
                server@,
                queue,
                item,
                wanted,
            );
            result == if done {
                Ok::<bool, PlexError>(true)
            } else if waited >= 10000 {
                Err(PlexError::LoadTimeout)
            } else {
                Ok(false)
            }
        }),
{
    if let Some(timeline) = timeline {
        let here: bool = match &timeline.machine_identifier {
            Some(machine) => same(machine.as_str(), server),
            None => false,
        };
        let ours: bool = timeline.play_queue_id == Some(queue) && timeline.play_queue_item_id
            == Some(item);
        let buffering: bool = same(timeline.state.as_str(), "buffering");
        let ready: bool = match state {
            Some(state) => same(timeline.state.as_str(), state) || (same(state, "playing")
                && buffering),
            None => same(timeline.state.as_str(), "paused") || same(
                timeline.state.as_str(),
                "playing",
            ) || buffering,
        };
        if here && ours && ready {
            return Ok(true);
        }
    }
    if waited >= 10000 {
        Err(PlexError::LoadTimeout)
    } else {
        Ok(false)
    }
}

/// Where entries go in a queue.
#[derive(Clone, Copy, Debug, PartialEq, Eq, Structural)]
pub enum QueuePlacement {
    Now,
    Next,
    Last,
    Replace,
}

/// A place in a queue, by its entries.
pub enum QueueReorderTarget {
    After(String),
    Before(String),
    End,
}

/// A place in a server's queue.
#[derive(Clone, Copy, Debug, PartialEq, Eq, Structural)]
pub enum PlexQueuePlacement {
    After(u64),
    Next,
    End,
}

/// How entries enter a player's queue.
#[derive(Clone, Copy, Debug, PartialEq, Eq, Structural)]
pub enum Insertion {
    Nothing,
    /// A new queue takes the place of the old one.
    Replace,
    Add,
}

pub open spec fn insertion_of(keys: nat, has_target: bool, placement: QueuePlacement) -> Insertion {
    if keys == 0 {
        Insertion::Nothing
    } else if (placement == QueuePlacement::Now || placement == QueuePlacement::Replace)
        && !has_target {
        Insertion::Replace
    } else {
        Insertion::Add
    }
}

pub fn insertion(
    keys: usize,
    has_target: bool,
    placement: QueuePlacement,
) -> (result: Insertion)
    ensures
        result == insertion_of(keys as nat, has_target, placement),
{
    if keys == 0 {
        Insertion::Nothing
    } else if (placement == QueuePlacement::Now || placement == QueuePlacement::Replace)
        && !has_target {
        Insertion::Replace
    } else {
        Insertion::Add
    }
}

/// The first entry of a queue with the given identity.
pub open spec fn item_index(items: Seq<PlexQueueItem>, id: u64, from: int) -> Option<int>
    decreases items.len() - from,
{
    if from < 0 || from >= items.len() {
        None
    } else if items[from].occurrence_id == id {
        Some(from)
    } else {
        item_index(items, id, from + 1)
    }
}

pub proof fn item_index_is_first(items: Seq<PlexQueueItem>, id: u64, from: int)
    requires
        0 <= from,
    ensures
        match item_index(items, id, from) {
            Some(i) => from <= i < items.len() && items[i].occurrence_id == id && forall|j: int|
                from <= j < i ==> (#[trigger] items[j]).occurrence_id != id,
            None => forall|j: int|
                from <= j < items.len() ==> (#[trigger] items[j]).occurrence_id != id,
        },
    decreases items.len() - from,
{
    if from < items.len() && items[from].occurrence_id != id {
        item_index_is_first(items, id, from + 1);
    }
}

pub fn find_item(items: &Vec<PlexQueueItem>, id: u64) -> (result: Option<usize>)
    ensures
        match result {
            Some(i) => item_index(items@, id, 0) == Some(i as int) && i < items@.len(),
            None => item_index(items@, id, 0) is None,
        },
{
    let mut i: usize = 0;
    while i < items.len()
        invariant
            i <= items@.len(),
            item_index(items@, id, 0) == item_index(items@, id, i as int),
        decreases items@.len() - i,
    {
        if items[i].occurrence_id == id {
            return Some(i);
        }
        i += 1;
    }
    None
}

/// How a new queue is started on a player.
#[derive(Clone, Copy, Debug, PartialEq, Eq, Structural)]
pub struct QueueStart {
    /// The entry that the player loads first.
    pub initial: usize,
    /// The entry that is to play.
    pub selected: usize,
    /// The player loads the first entry in silence and then goes to the other.
    pub switching: bool,
}

/// The entry that a player loads first: the one that the server selected, or the first.
pub open spec fn initial_index(items: Seq<PlexQueueItem>, selected: Option<u64>) -> int {
    match selected {
        Some(id) => match item_index(items, id, 0) {
            Some(i) => i,
            None => 0,
        },
        None => 0,
    }
}

/// The result says how the queue starts at the wanted entry.
pub open spec fn starts(
    items: Seq<PlexQueueItem>,
    selected_item_id: Option<u64>,
    anchor: usize,
    result: Result<QueueStart, PlexError>,
) -> bool {
    match result {
        Ok(start) => {
            &&& anchor < items.len()
            &&& start.selected == anchor
            &&& start.initial == initial_index(items, selected_item_id)
            &&& start.initial < items.len()
            &&& start.switching == (items[start.initial as int].occurrence_id
                != items[anchor as int].occurrence_id)
        },
        Err(error) => anchor >= items.len() && error == PlexError::OccurrenceNotRetained,
    }
}

pub fn queue_start(items: &Vec<PlexQueueItem>, selected_item_id: Option<u64>, anchor: usize) -> (result:
    Result<QueueStart, PlexError>)
    ensures
        starts(items@, selected_item_id, anchor, result),
{
    if anchor >= items.len() {
        return Err(PlexError::OccurrenceNotRetained);
    }
    let initial: usize = match selected_item_id {
        Some(id) => match find_item(items, id) {
            Some(i) => i,
            None => 0,
        },
        None => 0,
    };
    Ok(
        QueueStart {
            initial,
            selected: anchor,
            switching: items[initial].occurrence_id != items[anchor].occurrence_id,
        },
    )
}

/// One step of starting a queue on a player, and the entry it speaks of.
#[derive(Clone, Copy, Debug, PartialEq, Eq, Structural)]
pub enum StartStep {
    /// The queue is loaded at an entry, paused or playing.
    Load { at: usize, paused: bool },
    WaitPaused { at: usize },
    SkipTo { at: usize },
    WaitLoaded { at: usize },
    WaitPlaying { at: usize },
    /// The player is told to play, and the wait is for that.
    PlayIfPaused { at: usize },
}

/// Whether a player that has skipped to an entry must still be told to play it.
pub fn plays_if_paused(report: &Timeline) -> (result: bool)
    ensures
        result == (report.state@ == "paused"@),
{
    same(report.state.as_str(), "paused")
}

pub open spec fn start_plan(start: QueueStart) -> Seq<StartStep> {
    if start.switching {
        seq![
            StartStep::Load { at: start.initial, paused: true },
            StartStep::WaitPaused { at: start.initial },
            StartStep::SkipTo { at: start.selected },
            StartStep::WaitLoaded { at: start.selected },
            StartStep::PlayIfPaused { at: start.selected },
        ]
    } else {
        seq![
            StartStep::Load { at: start.initial, paused: false },
            StartStep::WaitPlaying { at: start.initial },
        ]
    }
}

/// The steps by which a player starts a queue at the wanted entry. The load is acknowledged before
/// it is finished, so the silent first entry must be in place before the player skips to another;
/// the skip itself starts that one, unless the player stays paused.
pub fn start_steps(start: QueueStart) -> (result: Vec<StartStep>)
    ensures
        result@ == start_plan(start),
{
    let mut steps: Vec<StartStep> = Vec::new();
    steps.push(StartStep::Load { at: start.initial, paused: start.switching });
    if start.switching {
        steps.push(StartStep::WaitPaused { at: start.initial });
        steps.push(StartStep::SkipTo { at: start.selected });
        steps.push(StartStep::WaitLoaded { at: start.selected });
        steps.push(StartStep::PlayIfPaused { at: start.selected });
        assert(steps@ =~= seq![
            StartStep::Load { at: start.initial, paused: true },
            StartStep::WaitPaused { at: start.initial },
            StartStep::SkipTo { at: start.selected },
            StartStep::WaitLoaded { at: start.selected },
            StartStep::PlayIfPaused { at: start.selected },
        ]);
    } else {
        steps.push(StartStep::WaitPlaying { at: start.initial });
        assert(steps@ =~= seq![
            StartStep::Load { at: start.initial, paused: false },
            StartStep::WaitPlaying { at: start.initial },
        ]);
    }
    steps
}

/// A place in a server's queue. With `first`, what is inserted behind that entry is then moved
/// before it, because the server cannot insert before its first entry.
#[derive(Clone, Copy, Debug, PartialEq, Eq, Structural)]
pub struct InsertPlace {
    pub placement: PlexQueuePlacement,
    pub first: Option<u64>,
}

/// The place in a server's queue for a target. `previous` is the entry before the target's one.
pub open spec fn place_of(
    target: Option<QueueReorderTarget>,
    placement: QueuePlacement,
    previous: Option<u64>,
) -> Result<InsertPlace, PlexError> {
    match target {
        Some(QueueReorderTarget::After(id)) => match item_of(id@) {
            Some(item) => Ok(
                InsertPlace { placement: PlexQueuePlacement::After(item as u64), first: None },
            ),
            None => Err(PlexError::TargetGone),
        },
        Some(QueueReorderTarget::Before(id)) => match item_of(id@) {
            Some(item) => match previous {
                Some(previous) => Ok(
                    InsertPlace { placement: PlexQueuePlacement::After(previous), first: None },
                ),
                None => Ok(
                    InsertPlace {
                        placement: PlexQueuePlacement::After(item as u64),
                        first: Some(item as u64),
                    },
                ),
            },
            None => Err(PlexError::TargetGone),
        },
        Some(QueueReorderTarget::End) => Ok(
            InsertPlace { placement: PlexQueuePlacement::End, first: None },
        ),
        None => if placement == QueuePlacement::Next {
            Ok(InsertPlace { placement: PlexQueuePlacement::Next, first: None })
        } else {
            Ok(InsertPlace { placement: PlexQueuePlacement::End, first: None })
        },
    }
}

pub fn insert_place(
    target: &Option<QueueReorderTarget>,
    placement: QueuePlacement,
    previous: Option<u64>,
) -> (result: Result<InsertPlace, PlexError>)
    ensures
        result == place_of(*target, placement, previous),
{
    match target {
        Some(QueueReorderTarget::After(id)) => match plex_occurrence(id.as_str()) {
            Some(item) => Ok(
                InsertPlace { placement: PlexQueuePlacement::After(item), first: None },
            ),
            None => Err(PlexError::TargetGone),
        },
        Some(QueueReorderTarget::Before(id)) => match plex_occurrence(id.as_str()) {
            Some(item) => match previous {
                Some(previous) => Ok(
                    InsertPlace { placement: PlexQueuePlacement::After(previous), first: None },
                ),
                None => Ok(
                    InsertPlace { placement: PlexQueuePlacement::After(item), first: Some(item) },
                ),
            },
            None => Err(PlexError::TargetGone),
        },
        Some(QueueReorderTarget::End) => Ok(
            InsertPlace { placement: PlexQueuePlacement::End, first: None },
        ),
        None => if placement == QueuePlacement::Next {
            Ok(InsertPlace { placement: PlexQueuePlacement::Next, first: None })
        } else {
            Ok(InsertPlace { placement: PlexQueuePlacement::End, first: None })
        },
    }
}

} // verus!
