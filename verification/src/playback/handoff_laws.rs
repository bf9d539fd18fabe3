//! What comes of handing playback to a player and taking it back.

use vstd::prelude::*;
use vstd::string::*;

use crate::playback::handoff::{
    candidate_at, is_idle, is_nearby, leaves, local_result, local_start, output_id,
    source_at, step_of, targets_of, transfer_result, FoundPlayer, Leave, LeaveStep, LocalStart,
    Nearby, PlexContext, QueueState, SelectFacts, Selection,
};
use crate::playback::plex::{
    item_index_is_first, PlexError, PlexQueueItem, RepeatMode, Timeline,
};
use crate::text::{shown, texts};

verus! {

proof fn source_at_is_first(sources: Seq<PlexContext>, id: Seq<char>, from: int)
    requires
        0 <= from,
    ensures
        match source_at(sources, id, from) {
            Some(i) => from <= i < sources.len() && sources[i].source_id@ == id && forall|j: int|
                from <= j < i ==> (#[trigger] sources[j]).source_id@ != id,
            None => forall|j: int|
                from <= j < sources.len() ==> (#[trigger] sources[j]).source_id@ != id,
        },
    decreases sources.len() - from,
{
    if from < sources.len() && sources[from].source_id@ != id {
        source_at_is_first(sources, id, from + 1);
    }
}

/// The source is on the server, where one is known, and has the name, where one is asked for.
pub open spec fn suits(context: PlexContext, server: Option<Seq<char>>, name: Option<Seq<char>>) -> bool {
    &&& server matches Some(server) ==> context.server_id@ == server
    &&& name matches Some(name) ==> context.source_id@ == name
}

proof fn candidate_at_is_first(
    sources: Seq<PlexContext>,
    server: Option<Seq<char>>,
    name: Option<Seq<char>>,
    from: int,
)
    requires
        0 <= from,
    ensures
        match candidate_at(sources, server, name, from) {
            Some(i) => from <= i < sources.len() && suits(sources[i], server, name) && forall|j: int|
                from <= j < i ==> !suits(#[trigger] sources[j], server, name),
            None => forall|j: int|
                from <= j < sources.len() ==> !suits(#[trigger] sources[j], server, name),
        },
    decreases sources.len() - from,
{
    if from < sources.len() && !suits(sources[from], server, name) {
        candidate_at_is_first(sources, server, name, from + 1);
    }
}

/// A queue that was handed over is on the player entry by entry, in the order in which it was played
/// here, and goes on at the entry that was current here; all of it is music of the one source that
/// the player is controlled through.
pub proof fn handed_over_queues_play_on(
    facts: SelectFacts,
    selection: Selection,
    keys: Vec<String>,
    items: Seq<PlexQueueItem>,
    current: Option<usize>,
    at: usize,
)
    requires
        facts.wf(),
        facts.error() is None,
        facts.selects(selection),
        selection.keys == Some(keys),
        transfer_result(items, keys@, current) == Ok::<usize, PlexError>(at),
    ensures
        items.len() == facts.order@.len(),
        at < items.len(),
        current matches Some(index) ==> at == index,
        current is None ==> at == 0,
        forall|i: int|
            0 <= i < items.len() ==> {
                let parts = facts.entries@[facts.order@[i] as int];
                &&& parts is Some
                &&& parts->0.key@ == "plex:track:"@ + (#[trigger] items[i]).rating_key@
                &&& parts->0.source_id@ == facts.sources@[selection.source as int].source_id@
            },
        !facts.other_player,
{
    let source = selection.source as int;
    assert(facts.all_admitted(source));
    assert forall|i: int| 0 <= i < items.len() implies {
        let parts = facts.entries@[facts.order@[i] as int];
        &&& parts is Some
        &&& parts->0.key@ == "plex:track:"@ + (#[trigger] items[i]).rating_key@
        &&& parts->0.source_id@ == facts.sources@[selection.source as int].source_id@
    } by {
        assert(facts.order@[i] < facts.entries@.len());
        let parts = facts.entries@[facts.order@[i] as int]->0;
        assert(items[i].rating_key@ == keys@[i]@);
        reveal_strlit("plex:track:");
        assert(parts.key@ =~= "plex:track:"@ + parts.key@.skip("plex:track:"@.len() as int));
    }
}

/// The player takes over only what is still played here: the same entries in the same order, at the
/// same entry, which can be reported; and then it does.
pub proof fn changed_queues_stay_here(before: QueueState, now: QueueState, has_report: bool)
    ensures
        local_result(before, now, has_report) is Ok <==> has_report && texts(before.entries@)
            == texts(now.entries@) && before.order@ == now.order@ && shown(before.current) == shown(
            now.current,
        ),
        local_result(before, now, has_report) matches Err(error) ==> error
            == PlexError::LocalChanged || (error == PlexError::NoReport && !has_report),
{
}

/// A queue of this device goes to a player through the source of its first entry; a player that
/// plays already is controlled through a source on the server that it reports, the preferred one
/// where that is on it, and else the first that is.
pub proof fn players_are_controlled_through_their_source(facts: SelectFacts, source: int, other: int)
    requires
        facts.source() == Ok::<int, PlexError>(source),
        0 <= other < facts.sources@.len(),
    ensures
        0 <= source < facts.sources@.len(),
        facts.entries@.len() > 0 && !facts.other_player ==> (facts.entries@[0] matches Some(parts)
            && parts.source_id@ == facts.sources@[source].source_id@),
        facts.entries@.len() == 0 || facts.other_player ==> {
            let list = facts.sources@;
            &&& suits(list[source], shown(facts.server), None)
            &&& (facts.preferred is Some && suits(
                list[other],
                shown(facts.server),
                shown(facts.preferred),
            )) ==> list[source].source_id@ == facts.preferred->0@
            &&& (facts.preferred is None && other < source) ==> !suits(
                list[other],
                shown(facts.server),
                None,
            )
        },
{
    let list = facts.sources@;
    if facts.transfers() {
        source_at_is_first(list, facts.entries@[0]->0.source_id@, 0);
    } else {
        candidate_at_is_first(list, shown(facts.server), shown(facts.preferred), 0);
        candidate_at_is_first(list, shown(facts.server), None, 0);
    }
}

/// A player is not selected where it was cancelled, is gone, or no source can control it; a queue is
/// not handed over where it holds anything but music of one source.
pub proof fn selections_fail_for_a_reason(facts: SelectFacts)
    ensures
        facts.error() is None ==> !facts.cancelled && facts.player_known && facts.source() is Ok,
        facts.cancelled ==> facts.error() == Some(PlexError::Cancelled),
        !facts.cancelled && !facts.player_known ==> facts.error() == Some(PlexError::PlayerGone),
        !facts.cancelled && facts.player_known && facts.source() is Ok && (facts.entries@.len() == 0
            || facts.other_player) ==> facts.error() is None,
        facts.entries@.len() > 0 && !facts.other_player && facts.entries@[0] is None ==> facts.error()
            is Some,
        facts.entries@.len() == 0 && facts.sources@.len() == 0 && !facts.cancelled
            && facts.player_known ==> facts.error() == Some(PlexError::NoSource),
{
}

/// What is taken back goes on where the player was, as it was set, and plays exactly where the player
/// played; it is taken back only from the same entry of the same queue on the same server.
pub proof fn playback_goes_on_where_the_player_was(
    before: Timeline,
    fresh: Timeline,
    cancelled: bool,
    start: LocalStart,
)
    requires
        local_start(before, fresh, cancelled) == Ok::<LocalStart, PlexError>(start),
    ensures
        !cancelled,
        before.play_queue_id == fresh.play_queue_id,
        before.play_queue_item_id == fresh.play_queue_item_id,
        before.play_queue_version == fresh.play_queue_version,
        shown(before.machine_identifier) == shown(fresh.machine_identifier),
        fresh.time matches Some(time) ==> (start.progress_millis matches Some(progress) && (time
            <= i64::MAX ==> progress == time) && progress >= 0),
        fresh.time is None ==> start.progress_millis is None,
        start.plays <==> fresh.state@ == "playing"@,
        start.shuffled <==> fresh.shuffle == Some(true),
        start.repeat_mode == RepeatMode::One <==> fresh.repeat == Some(2u8),
        start.repeat_mode == RepeatMode::All <==> fresh.repeat == Some(1u8),
{
}

/// A player that has not changed, and was not cancelled, gives its playback back.
pub proof fn unchanged_players_give_playback_back(before: Timeline, fresh: Timeline)
    requires
        before.play_queue_id == fresh.play_queue_id,
        before.play_queue_item_id == fresh.play_queue_item_id,
        before.play_queue_version == fresh.play_queue_version,
        shown(before.machine_identifier) == shown(fresh.machine_identifier),
    ensures
        local_start(before, fresh, false) is Ok,
        local_start(before, fresh, true) == Err::<LocalStart, PlexError>(PlexError::Cancelled),
{
}

/// A player that has a queue gives that queue back, and one without a queue, or that was idle when it
/// was last seen and cannot be reached, is simply left. Any other player that cannot be reached is
/// not left.
pub proof fn queues_are_taken_back(
    last: Option<Timeline>,
    reached: Result<Option<Timeline>, String>,
    result: Result<Leave, String>,
)
    requires
        leaves(last, reached, result),
    ensures
        reached matches Ok(Some(report)) ==> result is Ok && (match report.play_queue_id {
            Some(queue) => step_of(result->Ok_0) == (LeaveStep::TakeBack { queue }),
            None => step_of(result->Ok_0) == LeaveStep::UseLocal,
        }),
        reached matches Ok(None) ==> result is Err,
        reached is Err && (last matches Some(seen) && seen.state@ == "stopped"@
            && seen.play_queue_id is None) ==> result is Ok && step_of(result->Ok_0)
            == LeaveStep::UseLocal,
        reached is Err && !(last matches Some(seen) && is_idle(seen)) ==> result == Err::<
            Leave,
            String,
        >(reached->Err_0),
{
}

/// What is read of a queue that is taken back is the current entry and all entries within twenty of
/// it, and no other.
pub proof fn entries_around_the_current_one_are_read(
    items: Seq<PlexQueueItem>,
    current: u64,
    nearby: Nearby,
    i: int,
)
    requires
        is_nearby(items, Some(current), Ok(nearby)),
        0 <= i < items.len(),
    ensures
        items[nearby.selected as int].occurrence_id == current,
        nearby.start <= i < nearby.end <==> -20 <= i - nearby.selected <= 20,
{
    item_index_is_first(items, current, 0);
}

/// The players that can be selected are those that were found and can be controlled, each under its
/// own name.
pub proof fn found_players_can_be_selected(players: Seq<FoundPlayer>, i: int)
    requires
        0 <= i < players.len(),
    ensures
        players[i].supports_music_control ==> targets_of(players).dom().contains(
            "plex:"@ + players[i].machine_identifier@,
        ),
        forall|id: Seq<char>|
            targets_of(players).dom().contains(id) ==> {
                let player = #[trigger] targets_of(players)[id];
                &&& id == "plex:"@ + player.machine_identifier@
                &&& player.supports_music_control
                &&& players.contains(player)
            },
    decreases players.len(),
{
    let init = players.drop_last();
    if init.len() > 0 {
        if i < init.len() {
            found_players_can_be_selected(init, i);
        } else {
            found_players_can_be_selected(init, 0);
        }
    }
    assert forall|id: Seq<char>| targets_of(players).dom().contains(id) implies {
        let player = #[trigger] targets_of(players)[id];
        &&& id == "plex:"@ + player.machine_identifier@
        &&& player.supports_music_control
        &&& players.contains(player)
    } by {
        if players.last().supports_music_control && id == output_id(players.last()) {
            assert(players[players.len() - 1] == targets_of(players)[id]);
        } else {
            assert(targets_of(init).dom().contains(id));
            if init.len() == 0 {
                assert(targets_of(init) == Map::<Seq<char>, FoundPlayer>::empty());
            }
            let player = targets_of(init)[id];
            assert(targets_of(players)[id] == player);
            let k = choose|k: int| 0 <= k < init.len() && init[k] == player;
            assert(players[k] == player);
        }
    }
}

} // verus!
