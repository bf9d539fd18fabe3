//! Handing playback to a Plex player and taking it back.

use vstd::prelude::*;

use crate::playback::plex::{
    admitted, find_item, item_index, queue_keys, repeat, repeat_of, server_key, MediaParts,
    PlexError, PlexQueueItem, RepeatMode, Timeline,
};
use crate::playback::plex_session::{progress, progress_of};
use crate::text::{joined, same, same_option, shown};
use crate::textmap::TextMap;

verus! {

/// A configured Plex source: its own name and that of its server.
pub struct PlexContext {
    pub source_id: String,
    pub server_id: String,
}

/// The first source from `from` on that has the given name.
pub open spec fn source_at(sources: Seq<PlexContext>, id: Seq<char>, from: int) -> Option<int>
    decreases sources.len() - from,
{
    if from < 0 || from >= sources.len() {
        None
    } else if sources[from].source_id@ == id {
        Some(from)
    } else {
        source_at(sources, id, from + 1)
    }
}

fn find_source(sources: &Vec<PlexContext>, id: &str) -> (result: Option<usize>)
    ensures
        match result {
            Some(i) => source_at(sources@, id@, 0) == Some(i as int) && i < sources@.len(),
            None => source_at(sources@, id@, 0) is None,
        },
{
    let mut i: usize = 0;
    while i < sources.len()
        invariant
            i <= sources@.len(),
            source_at(sources@, id@, 0) == source_at(sources@, id@, i as int),
        decreases sources@.len() - i,
    {
        if same(sources[i].source_id.as_str(), id) {
            return Some(i);
        }
        i += 1;
    }
    None
}

/// The source can be the one that the player plays from.
pub open spec fn on_server(context: PlexContext, server: Option<Seq<char>>) -> bool {
    server matches Some(server) ==> context.server_id@ == server
}

/// The first source on the server, from `from` on; with a name, only the source of that name.
pub open spec fn candidate_at(
    sources: Seq<PlexContext>,
    server: Option<Seq<char>>,
    name: Option<Seq<char>>,
    from: int,
) -> Option<int>
    decreases sources.len() - from,
{
    if from < 0 || from >= sources.len() {
        None
    } else if on_server(sources[from], server) && (name matches Some(name)
        ==> sources[from].source_id@ == name) {
        Some(from)
    } else {
        candidate_at(sources, server, name, from + 1)
    }
}

fn find_candidate(
    sources: &Vec<PlexContext>,
    server: &Option<String>,
    name: &Option<String>,
) -> (result: Option<usize>)
    ensures
        match result {
            Some(i) => candidate_at(sources@, shown(*server), shown(*name), 0) == Some(i as int)
                && i < sources@.len(),
            None => candidate_at(sources@, shown(*server), shown(*name), 0) is None,
        },
{
    let mut i: usize = 0;
    while i < sources.len()
        invariant
            i <= sources@.len(),
            candidate_at(sources@, shown(*server), shown(*name), 0) == candidate_at(
                sources@,
                shown(*server),
                shown(*name),
                i as int,
            ),
        decreases sources@.len() - i,
    {
        let here: bool = match server {
            Some(server) => same(sources[i].server_id.as_str(), server.as_str()),
            None => true,
        };
        let wanted: bool = match name {
            Some(name) => same(sources[i].source_id.as_str(), name.as_str()),
            None => true,
        };
        if here && wanted {
            return Some(i);
        }
        i += 1;
    }
    None
}

/// The source for a player that already plays: the preferred one on its server, or the first.
pub open spec fn playing_source(
    sources: Seq<PlexContext>,
    server: Option<Seq<char>>,
    preferred: Option<Seq<char>>,
) -> Option<int> {
    if preferred is Some && candidate_at(sources, server, preferred, 0) is Some {
        candidate_at(sources, server, preferred, 0)
    } else {
        candidate_at(sources, server, None, 0)
    }
}

/// What is known when a player is selected.
pub struct SelectFacts {
    pub cancelled: bool,
    /// The player was found by the last search.
    pub player_known: bool,
    /// Another Plex player has playback already.
    pub other_player: bool,
    /// What the entries of the local queue are, the order in which they are played, and the
    /// current place in that order.
    pub entries: Vec<Option<MediaParts>>,
    pub order: Vec<u32>,
    pub sources: Vec<PlexContext>,
    /// The server that the player reports, where it plays something.
    pub server: Option<String>,
    pub preferred: Option<String>,
}

impl SelectFacts {
    /// The order names entries of the queue.
    pub open spec fn wf(&self) -> bool {
        forall|i: int| 0 <= i < self.order@.len() ==> (#[trigger] self.order@[i]) < self.entries@.len()
    }

    /// The local queue goes to the player.
    pub open spec fn transfers(&self) -> bool {
        self.entries@.len() > 0 && !self.other_player
    }

    /// Whether the local queue goes to the player; only where it does not is the player asked
    /// which server it plays from.
    pub fn sends_queue(&self) -> (result: bool)
        ensures
            result == self.transfers(),
    {
        self.entries.len() > 0 && !self.other_player
    }

    /// The source that the player is controlled through.
    pub open spec fn source(&self) -> Result<int, PlexError> {
        if self.transfers() {
            match self.entries@[0] {
                None => Err(PlexError::MixedSources),
                Some(parts) => match source_at(self.sources@, parts.source_id@, 0) {
                    Some(i) => Ok(i),
                    None => Err(PlexError::UnavailableSource),
                },
            }
        } else if self.sources@.len() == 0 {
            Err(PlexError::NoSource)
        } else {
            match playing_source(self.sources@, shown(self.server), shown(self.preferred)) {
                Some(i) => Ok(i),
                None => Err(PlexError::SourceUnavailable),
            }
        }
    }

    /// Every entry of the queue can go to a player of the source.
    pub open spec fn all_admitted(&self, source: int) -> bool {
        forall|i: int|
            0 <= i < self.entries@.len() ==> admitted(
                #[trigger] self.entries@[i],
                self.sources@[source].source_id@,
            )
    }

    pub open spec fn error(&self) -> Option<PlexError> {
        if self.cancelled {
            Some(PlexError::Cancelled)
        } else if !self.player_known {
            Some(PlexError::PlayerGone)
        } else {
            match self.source() {
                Err(error) => Some(error),
                Ok(source) => if self.transfers() && !self.all_admitted(source) {
                    Some(PlexError::MixedSources)
                } else {
                    None
                },
            }
        }
    }
}

/// How a player is selected: the source to control it through, and the keys of the local queue in
/// the order in which they are played, where it goes to the player.
pub struct Selection {
    pub source: usize,
    pub keys: Option<Vec<String>>,
}

impl SelectFacts {
    /// The selection is the right one.
    pub open spec fn selects(&self, selection: Selection) -> bool {
        &&& self.source() == Ok::<int, PlexError>(selection.source as int)
        &&& selection.keys is Some <==> self.transfers()
        &&& selection.keys matches Some(keys) ==> {
            &&& keys@.len() == self.order@.len()
            &&& forall|i: int|
                0 <= i < keys@.len() ==> #[trigger] keys@[i]@ == server_key(
                    self.entries@[self.order@[i] as int]->0,
                )
        }
    }
}

fn choose_source(facts: &SelectFacts) -> (result: Result<usize, PlexError>)
    ensures
        match result {
            Ok(i) => facts.source() == Ok::<int, PlexError>(i as int) && i < facts.sources@.len(),
            Err(error) => facts.source() == Err::<int, PlexError>(error),
        },
{
    if facts.sends_queue() {
        return match &facts.entries[0] {
            None => Err(PlexError::MixedSources),
            Some(parts) => match find_source(&facts.sources, parts.source_id.as_str()) {
                Some(i) => Ok(i),
                None => Err(PlexError::UnavailableSource),
            },
        };
    }
    if facts.sources.len() == 0 {
        return Err(PlexError::NoSource);
    }
    if facts.preferred.is_some() {
        if let Some(i) = find_candidate(&facts.sources, &facts.server, &facts.preferred) {
            return Ok(i);
        }
    }
    match find_candidate(&facts.sources, &facts.server, &None) {
        Some(i) => Ok(i),
        None => Err(PlexError::SourceUnavailable),
    }
}

/// Decides how a player is selected. Every entry is checked before anything is sent to it.
pub fn select_plex(facts: &SelectFacts) -> (result: Result<Selection, PlexError>)
    requires
        facts.wf(),
    ensures
        match result {
            Ok(selection) => facts.error() is None && facts.selects(selection),
            Err(error) => facts.error() == Some(error),
        },
{
    if facts.cancelled {
        return Err(PlexError::Cancelled);
    }
    if !facts.player_known {
        return Err(PlexError::PlayerGone);
    }
    let source: usize = match choose_source(facts) {
        Ok(source) => source,
        Err(error) => {
            return Err(error);
        },
    };
    if !facts.sends_queue() {
        return Ok(Selection { source, keys: None });
    }
    let keys = match queue_keys(&facts.entries, facts.sources[source].source_id.as_str()) {
        Ok(keys) => keys,
        Err(error) => {
            assert(!facts.all_admitted(source as int));
            return Err(error);
        },
    };
    let mut ordered: Vec<String> = Vec::new();
    let mut i: usize = 0;
    while i < facts.order.len()
        invariant
            facts.wf(),
            i <= facts.order@.len(),
            keys@.len() == facts.entries@.len(),
            forall|j: int|
                0 <= j < facts.entries@.len() ==> keys@[j]@ == server_key(
                    (#[trigger] facts.entries@[j])->0,
                ),
            ordered@.len() == i,
            forall|j: int|
                0 <= j < i ==> #[trigger] ordered@[j]@ == server_key(
                    facts.entries@[facts.order@[j] as int]->0,
                ),
        decreases facts.order@.len() - i,
    {
        let at: usize = facts.order[i] as usize;
        assert(facts.order@[i as int] < facts.entries@.len());
        ordered.push(keys[at].clone());
        i += 1;
    }
    Ok(Selection { source, keys: Some(ordered) })
}

/// The server has exactly the keys that it was given, in their order.
pub open spec fn order_kept(items: Seq<PlexQueueItem>, keys: Seq<String>) -> bool {
    items.len() == keys.len() && forall|i: int|
        0 <= i < items.len() ==> (#[trigger] items[i]).rating_key@ == keys[i]@
}

/// The entry that is to play, or what the server lost.
pub open spec fn transfer_result(
    items: Seq<PlexQueueItem>,
    keys: Seq<String>,
    current_index: Option<usize>,
) -> Result<usize, PlexError> {
    let wanted = match current_index {
        Some(i) => i,
        None => 0,
    };
    if !order_kept(items, keys) {
        Err(PlexError::OrderLost)
    } else if wanted >= items.len() {
        Err(PlexError::CurrentLost)
    } else {
        Ok(wanted)
    }
}

/// Checks what the server made of a transferred queue, and finds the entry that is to play.
pub fn check_transfer(
    items: &Vec<PlexQueueItem>,
    keys: &Vec<String>,
    current_index: Option<usize>,
) -> (result: Result<usize, PlexError>)
    ensures
        result == transfer_result(items@, keys@, current_index),
{
    if items.len() != keys.len() {
        return Err(PlexError::OrderLost);
    }
    let mut i: usize = 0;
    while i < items.len()
        invariant
            i <= items@.len() == keys@.len(),
            forall|j: int| 0 <= j < i ==> (#[trigger] items@[j]).rating_key@ == keys@[j]@,
        decreases items@.len() - i,
    {
        if !same(items[i].rating_key.as_str(), keys[i].as_str()) {
            return Err(PlexError::OrderLost);
        }
        i += 1;
    }
    let wanted: usize = match current_index {
        Some(i) => i,
        None => 0,
    };
    if wanted >= items.len() {
        Err(PlexError::CurrentLost)
    } else {
        Ok(wanted)
    }
}

/// The local queue as it was when a transfer began, or is now: its entries, their order, and the
/// current entry.
pub struct QueueState {
    pub entries: Vec<String>,
    pub order: Vec<u32>,
    pub current: Option<String>,
}

pub open spec fn same_queue(a: QueueState, b: QueueState) -> bool {
    &&& crate::text::texts(a.entries@) == crate::text::texts(b.entries@)
    &&& a.order@ == b.order@
    &&& shown(a.current) == shown(b.current)
}

/// Whether the player may take over.
pub open spec fn local_result(before: QueueState, now: QueueState, has_report: bool) -> Result<
    (),
    PlexError,
> {
    if !same_queue(before, now) {
        Err(PlexError::LocalChanged)
    } else if !has_report {
        Err(PlexError::NoReport)
    } else {
        Ok(())
    }
}

fn same_texts(a: &Vec<String>, b: &Vec<String>) -> (result: bool)
    ensures
        result == (crate::text::texts(a@) == crate::text::texts(b@)),
{
    let ghost x = crate::text::texts(a@);
    let ghost y = crate::text::texts(b@);
    if a.len() != b.len() {
        assert(x.len() != y.len());
        return false;
    }
    let mut i: usize = 0;
    while i < a.len()
        invariant
            i <= a@.len() == b@.len(),
            x == crate::text::texts(a@),
            y == crate::text::texts(b@),
            forall|j: int| 0 <= j < i ==> x[j] == y[j],
        decreases a@.len() - i,
    {
        if !same(a[i].as_str(), b[i].as_str()) {
            assert(x[i as int] != y[i as int]);
            return false;
        }
        assert(x[i as int] == y[i as int]);
        i += 1;
    }
    assert(x =~= y);
    true
}

fn same_order(a: &Vec<u32>, b: &Vec<u32>) -> (result: bool)
    ensures
        result == (a@ == b@),
{
    if a.len() != b.len() {
        return false;
    }
    let mut i: usize = 0;
    while i < a.len()
        invariant
            i <= a@.len() == b@.len(),
            forall|j: int| 0 <= j < i ==> a@[j] == b@[j],
        decreases a@.len() - i,
    {
        if a[i] != b[i] {
            return false;
        }
        i += 1;
    }
    assert(a@ =~= b@);
    true
}

/// The player takes over only where the local queue has not changed since the transfer began, and
/// its current entry can be reported.
pub fn check_local(before: &QueueState, now: &QueueState, has_report: bool) -> (result: Result<
    (),
    PlexError,
>)
    ensures
        result == local_result(*before, *now, has_report),
{
    if !same_texts(&before.entries, &now.entries) || !same_order(&before.order, &now.order)
        || !same_option(&before.current, &now.current) {
        return Err(PlexError::LocalChanged);
    }
    if has_report {
        Ok(())
    } else {
        Err(PlexError::NoReport)
    }
}

/// The part of a queue around its current entry whose rows are read.
#[derive(Clone, Copy, Debug, PartialEq, Eq, Structural)]
pub struct Nearby {
    pub selected: usize,
    pub start: usize,
    pub end: usize,
}

/// The player does nothing: it is stopped and has no queue.
pub open spec fn is_idle(report: Timeline) -> bool {
    report.state@ == "stopped"@ && report.play_queue_id is None
}

/// How playback comes back from a player.
pub enum Leave {
    /// There is nothing to take over: playback goes on with the output of this device.
    UseLocal,
    /// What the player reports now is looked at.
    Follow(Timeline),
}

/// The result is the right one for what was last seen of a player and what is reached of it now.
pub open spec fn leaves(
    last: Option<Timeline>,
    reached: Result<Option<Timeline>, String>,
    result: Result<Leave, String>,
) -> bool {
    match reached {
        Ok(Some(report)) => result == Ok::<Leave, String>(Leave::Follow(report)),
        Ok(None) => result matches Err(message) && message@
            == "The Plex player returned no music timeline"@,
        Err(error) => result == if last matches Some(report) && is_idle(report) {
            Ok::<Leave, String>(Leave::UseLocal)
        } else {
            Err(error)
        },
    }
}

/// Decides how playback comes back from a player. One that cannot be reached and was last seen idle
/// has nothing to give back, so it is simply left.
pub fn leave_report(last: &Option<Timeline>, reached: Result<Option<Timeline>, String>) -> (result:
    Result<Leave, String>)
    ensures
        leaves(*last, reached, result),
{
    match reached {
        Ok(Some(report)) => Ok(Leave::Follow(report)),
        Ok(None) => Err("The Plex player returned no music timeline".to_owned()),
        Err(error) => {
            if let Some(report) = last {
                if same(report.state.as_str(), "stopped") && report.play_queue_id.is_none() {
                    return Ok(Leave::UseLocal);
                }
            }
            Err(error)
        },
    }
}

/// What is done about a player that is left.
#[derive(Clone, Copy, Debug, PartialEq, Eq, Structural)]
pub enum LeaveStep {
    /// Playback goes on with the output of this device.
    UseLocal,
    /// The player's queue is taken over.
    TakeBack { queue: u64 },
}

pub open spec fn step_of(left: Leave) -> LeaveStep {
    match left {
        Leave::Follow(report) => match report.play_queue_id {
            Some(queue) => LeaveStep::TakeBack { queue },
            None => LeaveStep::UseLocal,
        },
        Leave::UseLocal => LeaveStep::UseLocal,
    }
}

/// Decides what is done about a player that is left: its queue is taken over exactly where it has
/// one.
pub fn leave_step(left: &Leave) -> (result: LeaveStep)
    ensures
        result == step_of(*left),
{
    match left {
        Leave::Follow(report) => match report.play_queue_id {
            Some(queue) => LeaveStep::TakeBack { queue },
            None => LeaveStep::UseLocal,
        },
        Leave::UseLocal => LeaveStep::UseLocal,
    }
}

/// The result is the part of the queue around the current entry.
pub open spec fn is_nearby(
    items: Seq<PlexQueueItem>,
    current: Option<u64>,
    result: Result<Nearby, PlexError>,
) -> bool {
    match result {
        Ok(nearby) => {
            &&& current matches Some(id) && item_index(items, id, 0) == Some(nearby.selected as int)
            &&& nearby.start == if nearby.selected < 20 {
                0
            } else {
                nearby.selected - 20
            }
            &&& nearby.end == if nearby.selected + 21 > items.len() {
                items.len() as int
            } else {
                nearby.selected + 21
            }
            &&& nearby.start <= nearby.selected < nearby.end <= items.len()
        },
        Err(error) => error == PlexError::NoCurrentQueueOccurrence && (current matches Some(id)
            ==> item_index(items, id, 0) is None),
    }
}

/// Finds the current entry and the entries around it, twenty to each side at most.
pub fn leave_plex(items: &Vec<PlexQueueItem>, current: Option<u64>) -> (result: Result<
    Nearby,
    PlexError,
>)
    ensures
        is_nearby(items@, current, result),
{
    let found: Option<usize> = match current {
        Some(id) => find_item(items, id),
        None => None,
    };
    match found {
        Some(selected) => {
            let start: usize = selected.saturating_sub(20);
            let length: usize = items.len();
            let end: usize = if length - selected < 21 {
                length
            } else {
                selected + 21
            };
            Ok(Nearby { selected, start, end })
        },
        None => Err(PlexError::NoCurrentQueueOccurrence),
    }
}

/// The player still plays the same entry of the same queue.
pub open spec fn same_report(a: Timeline, b: Timeline) -> bool {
    &&& shown(a.machine_identifier) == shown(b.machine_identifier)
    &&& a.play_queue_id == b.play_queue_id
    &&& a.play_queue_item_id == b.play_queue_item_id
    &&& a.play_queue_version == b.play_queue_version
}

/// What local playback starts with when it takes over from a player.
#[derive(Clone, Copy, Debug, PartialEq, Eq, Structural)]
pub struct LocalStart {
    /// The position, where the player reports one.
    pub progress_millis: Option<i64>,
    pub repeat_mode: RepeatMode,
    pub shuffled: bool,
    pub plays: bool,
}

/// What local playback starts with, or why it does not take over.
pub open spec fn local_start(before: Timeline, fresh: Timeline, cancelled: bool) -> Result<
    LocalStart,
    PlexError,
> {
    if cancelled {
        Err(PlexError::Cancelled)
    } else if !same_report(before, fresh) {
        Err(PlexError::PlayerChanged)
    } else {
        Ok(
            LocalStart {
                progress_millis: if fresh.time is Some {
                    Some(progress_of(fresh.time))
                } else {
                    None
                },
                repeat_mode: repeat_of(fresh.repeat),
                shuffled: fresh.shuffle == Some(true),
                plays: fresh.state@ == "playing"@,
            },
        )
    }
}

/// Local playback takes over only where the player has not changed its queue meanwhile.
pub fn take_over(before: &Timeline, fresh: &Timeline, cancelled: bool) -> (result: Result<
    LocalStart,
    PlexError,
>)
    ensures
        result == local_start(*before, *fresh, cancelled),
{
    if cancelled {
        return Err(PlexError::Cancelled);
    }
    if !same_option(&before.machine_identifier, &fresh.machine_identifier) || before.play_queue_id
        != fresh.play_queue_id || before.play_queue_item_id != fresh.play_queue_item_id
        || before.play_queue_version != fresh.play_queue_version {
        return Err(PlexError::PlayerChanged);
    }
    Ok(
        LocalStart {
            progress_millis: if fresh.time.is_some() {
                Some(progress(fresh.time))
            } else {
                None
            },
            repeat_mode: repeat(fresh),
            shuffled: match fresh.shuffle {
                Some(shuffle) => shuffle,
                None => false,
            },
            plays: same(fresh.state.as_str(), "playing"),
        },
    )
}

/// A player that was found.
pub struct FoundPlayer {
    pub machine_identifier: String,
    pub name: String,
    pub supports_music_control: bool,
}

/// The name under which a player can be selected.
pub open spec fn output_id(player: FoundPlayer) -> Seq<char> {
    "plex:"@ + player.machine_identifier@
}

/// The players that can be selected, the last one found under each name.
pub open spec fn targets_of(players: Seq<FoundPlayer>) -> Map<Seq<char>, FoundPlayer>
    decreases players.len(),
{
    if players.len() == 0 {
        Map::empty()
    } else {
        let earlier = targets_of(players.drop_last());
        if players.last().supports_music_control {
            earlier.insert(output_id(players.last()), players.last())
        } else {
            earlier
        }
    }
}

pub fn discover_plex(players: Vec<FoundPlayer>) -> (result: TextMap<FoundPlayer>)
    ensures
        result.wf(),
        result@ == targets_of(players@),
{
    let mut targets: TextMap<FoundPlayer> = TextMap::new();
    let mut i: usize = 0;
    while i < players.len()
        invariant
            i <= players@.len(),
            targets.wf(),
            targets@ == targets_of(players@.take(i as int)),
        decreases players@.len() - i,
    {
        proof {
            assert(players@.take(i + 1).drop_last() =~= players@.take(i as int));
            assert(players@.take(i + 1).last() == players@[i as int]);
        }
        let player = &players[i];
        if player.supports_music_control {
            let id = joined("plex:", player.machine_identifier.as_str());
            targets.insert(
                id,
                FoundPlayer {
                    machine_identifier: player.machine_identifier.clone(),
                    name: player.name.clone(),
                    supports_music_control: true,
                },
            );
        }
        i += 1;
    }
    assert(players@.take(i as int) =~= players@);
    targets
}

} // verus!
