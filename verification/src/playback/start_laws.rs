//! What comes of starting a queue on a player, of adding to it, and of following what it reports.

use vstd::prelude::*;

use crate::playback::plex::{
    insertion_of, item_index_is_first, item_of, occurrences_read_back, place_of, start_plan, starts,
    InsertPlace, Insertion, PlexError, PlexQueueItem, PlexQueuePlacement,
    PlexQueueWindow, QueuePlacement, QueueReorderTarget, QueueStart, RepeatMode, StartStep, Timeline,
    TransportStatus,
};
use crate::playback::plex_laws::{place, put_in};
use crate::playback::plex_session::{
    observation_of, playback_shown, restores, update_of, Observation, QueueRestore, QueueUpdate,
};

verus! {

/// A player that a queue is started on.
pub struct StartModel {
    /// Every step so far found what it needs.
    pub sound: bool,
    pub entry: Option<u64>,
    pub playing: bool,
    /// The entries that have sounded.
    pub heard: Seq<u64>,
}

/// The player is at an entry, and plays it or not.
pub open spec fn at_entry(player: StartModel, entry: u64, playing: bool) -> StartModel {
    StartModel {
        entry: Some(entry),
        playing,
        heard: if playing {
            player.heard.push(entry)
        } else {
            player.heard
        },
        ..player
    }
}

/// The player once a step was made. Whether a player that skips to an entry plays it at once is up to
/// the player: `eager` says so.
pub open spec fn started(
    player: StartModel,
    items: Seq<PlexQueueItem>,
    step: StartStep,
    eager: bool,
) -> StartModel {
    match step {
        StartStep::Load { at, paused } => at_entry(
            player,
            items[at as int].occurrence_id,
            !paused,
        ),
        StartStep::WaitPaused { at } => StartModel {
            sound: player.sound && player.entry == Some(items[at as int].occurrence_id)
                && !player.playing,
            ..player
        },
        // Only a player that has the queue in place can skip in it.
        StartStep::SkipTo { at } => StartModel {
            sound: player.sound && player.entry is Some,
            ..at_entry(player, items[at as int].occurrence_id, eager)
        },
        StartStep::WaitLoaded { at } => StartModel {
            sound: player.sound && player.entry == Some(items[at as int].occurrence_id),
            ..player
        },
        StartStep::WaitPlaying { at } => StartModel {
            sound: player.sound && player.entry == Some(items[at as int].occurrence_id)
                && player.playing,
            ..player
        },
        StartStep::PlayIfPaused { at } => if player.playing {
            player
        } else {
            StartModel {
                sound: player.sound && player.entry == Some(items[at as int].occurrence_id),
                ..at_entry(player, items[at as int].occurrence_id, true)
            }
        },
    }
}

pub open spec fn start_run(
    player: StartModel,
    items: Seq<PlexQueueItem>,
    steps: Seq<StartStep>,
    eager: bool,
    count: int,
) -> StartModel
    decreases count,
{
    if count <= 0 {
        player
    } else {
        started(
            start_run(player, items, steps, eager, count - 1),
            items,
            steps[count - 1],
            eager,
        )
    }
}

/// A queue that is started on a player plays at the entry that was asked for, and no other entry
/// sounds on the way, whatever entry the server had selected.
pub proof fn started_queues_play_the_wanted_entry(
    player: StartModel,
    items: Seq<PlexQueueItem>,
    selected: Option<u64>,
    anchor: usize,
    start: QueueStart,
    eager: bool,
)
    requires
        player.sound,
        starts(items, selected, anchor, Ok(start)),
    ensures
        ({
            let steps = start_plan(start);
            let wanted = items[anchor as int].occurrence_id;
            start_run(player, items, steps, eager, steps.len() as int) == (StartModel {
                entry: Some(wanted),
                playing: true,
                heard: player.heard.push(wanted),
                ..player
            })
        }),
{
    reveal_with_fuel(start_run, 6);
}

/// A queue starts wherever it has the wanted entry.
pub proof fn queues_start_where_they_have_the_entry(
    items: Seq<PlexQueueItem>,
    selected: Option<u64>,
    anchor: usize,
    result: Result<QueueStart, PlexError>,
)
    requires
        starts(items, selected, anchor, result),
    ensures
        result is Ok <==> anchor < items.len(),
{
}

/// What is to be played at once takes the place of the queue, unless it has a place of its own; else
/// it is added; and nothing is done about nothing.
pub proof fn only_plain_plays_replace_the_queue(
    keys: nat,
    has_target: bool,
    placement: QueuePlacement,
)
    ensures
        insertion_of(keys, has_target, placement) == Insertion::Nothing <==> keys == 0,
        insertion_of(keys, has_target, placement) == Insertion::Replace ==> !has_target && placement
            != QueuePlacement::Next && placement != QueuePlacement::Last,
        keys > 0 && (has_target || placement == QueuePlacement::Next || placement
            == QueuePlacement::Last) ==> insertion_of(keys, has_target, placement)
            == Insertion::Add,
{
}

/// A server's queue once entries were inserted, and moved to the front where that is to follow.
pub open spec fn inserted(
    entries: Seq<u64>,
    current: u64,
    place_in: InsertPlace,
    more: Seq<u64>,
) -> Seq<u64> {
    if place_in.first is Some {
        more + entries
    } else {
        match place_in.placement {
            PlexQueuePlacement::After(entry) => put_in(entries, place(entries, entry) + 1, more),
            PlexQueuePlacement::Next => put_in(entries, place(entries, current) + 1, more),
            PlexQueuePlacement::End => entries + more,
        }
    }
}

/// Entries that are added to a player's queue stand where they are dropped: behind the entry that is
/// named, before it also where it is the first, or at the end; and without such a place right behind
/// the current entry, or at the end.
pub proof fn added_entries_stand_where_they_are_dropped(
    entries: Seq<u64>,
    current: u64,
    target: Option<QueueReorderTarget>,
    placement: QueuePlacement,
    at: int,
    previous: Option<u64>,
    place_in: InsertPlace,
    more: Seq<u64>,
)
    requires
        entries.no_duplicates(),
        0 <= at < entries.len(),
        previous == if at > 0 {
            Some(entries[at - 1])
        } else {
            None
        },
        place_of(target, placement, previous) == Ok::<InsertPlace, PlexError>(place_in),
    ensures
        target matches Some(QueueReorderTarget::After(name)) ==> (item_of(name@) == Some(
            entries[at] as nat,
        ) ==> inserted(entries, current, place_in, more) == put_in(entries, at + 1, more)),
        target matches Some(QueueReorderTarget::Before(name)) ==> (item_of(name@) == Some(
            entries[at] as nat,
        ) ==> inserted(entries, current, place_in, more) == put_in(entries, at, more)),
        target matches Some(QueueReorderTarget::End) ==> inserted(entries, current, place_in, more)
            == entries + more,
        target is None && placement == QueuePlacement::Next && current == entries[at] ==> inserted(
            entries,
            current,
            place_in,
            more,
        ) == put_in(entries, at + 1, more),
        target is None && placement == QueuePlacement::Last ==> inserted(
            entries,
            current,
            place_in,
            more,
        ) == entries + more,
{
    let i = place(entries, entries[at]);
    assert(0 <= i < entries.len() && entries[i] == entries[at]);
    if at > 0 {
        let k = place(entries, entries[at - 1]);
        assert(0 <= k < entries.len() && entries[k] == entries[at - 1]);
    } else {
        assert(put_in(entries, 0, more) =~= more + entries);
    }
}

/// A report is left alone only where playback was given up, or where it was made while the player
/// replaces its track; any other report without a queue says that there is none.
pub proof fn reports_without_a_queue_count(cancelled: bool, timeline: Timeline)
    ensures
        observation_of(cancelled, timeline) == Observation::Queue ==> timeline.play_queue_id is Some
            && !cancelled,
        observation_of(cancelled, timeline) == Observation::NoQueue ==> timeline.play_queue_id
            is None && !cancelled,
        !cancelled && timeline.state@ != "buffering"@ ==> observation_of(cancelled, timeline)
            != Observation::Ignore,
        !cancelled && timeline.play_queue_item_id is Some ==> observation_of(cancelled, timeline)
            != Observation::Ignore,
        cancelled ==> observation_of(cancelled, timeline) == Observation::Ignore,
{
}

/// What is shown of the queue is kept only where it is the player's queue in its version, holds the
/// entry that the player is at, and shows that one; it is read again exactly where it does not hold
/// that entry, or that is asked for.
pub proof fn shown_queues_follow_the_player(
    force: bool,
    cached: Option<PlexQueueWindow>,
    timeline: Timeline,
    current: Option<String>,
)
    ensures
        ({
            let holds = cached matches Some(window) && timeline.play_queue_id == Some(window.id)
                && timeline.play_queue_version == Some(window.version) && (
            timeline.play_queue_item_id matches Some(item) && exists|i: int|
                0 <= i < window.items@.len() && (#[trigger] window.items@[i]).occurrence_id == item);
            let update = update_of(force, cached, timeline, current);
            &&& update == QueueUpdate::Reload <==> force || !holds
            &&& update == QueueUpdate::Keep ==> (current matches Some(id) && item_of(id@) == Some(
                timeline.play_queue_item_id->0 as nat,
            ))
            &&& !force && holds && (current matches Some(id) && item_of(id@) == Some(
                timeline.play_queue_item_id->0 as nat,
            )) ==> update == QueueUpdate::Keep
        }),
{
    if let Some(window) = cached {
        if let Some(item) = timeline.play_queue_item_id {
            item_index_is_first(window.items@, item, 0);
        }
    }
}

/// What is shown of a player is what it reports: whether it plays, where, how loud and how.
pub proof fn players_are_shown_as_they_report(
    timeline: Timeline,
    window: Option<PlexQueueWindow>,
    prior: Option<u8>,
)
    ensures
        ({
            let shown = playback_shown(timeline, window, prior);
            &&& shown.status == TransportStatus::Playing <==> timeline.state@ == "playing"@
            &&& shown.status == TransportStatus::Paused ==> timeline.state@ == "paused"@
            &&& shown.status == TransportStatus::Buffering ==> timeline.state@ == "buffering"@
            &&& shown.position_millis == timeline.time && shown.duration_millis
                == timeline.duration
            &&& timeline.volume matches Some(volume) ==> shown.volume == volume
            &&& shown.muted <==> prior is Some
            &&& shown.repeat == RepeatMode::One <==> timeline.repeat == Some(2u8)
            &&& shown.repeat == RepeatMode::All <==> timeline.repeat == Some(1u8)
            &&& shown.shuffle <==> timeline.shuffle == Some(true)
            &&& window matches Some(queue) ==> shown.queue_total == queue.total
                && shown.queue_offset == queue.offset
        }),
{
}

/// The queue that is taken over from a player holds its entries in their order, each of which can be
/// told back to the player, and is at the entry that the player is at.
pub proof fn restored_queues_are_the_players(
    window: PlexQueueWindow,
    source: Seq<char>,
    timeline: Timeline,
    result: QueueRestore,
    i: int,
)
    requires
        restores(window, source, timeline, result),
        0 <= i < window.items@.len(),
    ensures
        result.entries@.len() == window.items@.len(),
        result.entries@[i].media_uri == window.items@[i].media_uri,
        item_of(result.entries@[i].occurrence@) == Some(window.items@[i].occurrence_id as nat),
        result.current_index matches Some(at) ==> at < window.items@.len()
            && timeline.play_queue_item_id == Some(window.items@[at as int].occurrence_id),
        timeline.play_queue_item_id == Some(window.items@[i].occurrence_id) ==> result.current_index
            is Some,
        timeline.time matches Some(time) ==> (time <= i64::MAX ==> result.progress_millis == time),
{
    occurrences_read_back(source, window.id, window.items@[i].occurrence_id);
    if let Some(item) = timeline.play_queue_item_id {
        item_index_is_first(window.items@, item, 0);
    }
}

} // verus!
