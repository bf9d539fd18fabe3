//! What commands do to a player: a model of a player and its queue, before and after it was told.

use vstd::prelude::*;

use crate::playback::plex::{
    item_of, occurrences_read_back, PlexError, QueuePlacement, QueueReorderTarget,
    RepeatMode, Timeline,
};
use crate::playback::plex_session::{
    command_error, obeys, prior_after, volume_after, PlexAction, SessionCommand,
};

verus! {

/// Whether a player runs.
pub enum Running {
    Playing,
    Paused,
    Stopped,
}

/// A player: its queue by the entries in their order, the entry it is at, and how it plays.
pub struct PlayerModel {
    pub queue: u64,
    pub entries: Seq<u64>,
    pub current: u64,
    pub position: u64,
    pub running: Running,
    pub volume: u8,
    pub repeat: RepeatMode,
    pub shuffle: bool,
}

/// The place of an entry.
pub open spec fn place(entries: Seq<u64>, entry: u64) -> int {
    choose|i: int| 0 <= i < entries.len() && #[trigger] entries[i] == entry
}

proof fn place_is(entries: Seq<u64>, at: int)
    requires
        entries.no_duplicates(),
        0 <= at < entries.len(),
    ensures
        place(entries, entries[at]) == at,
{
    let i = place(entries, entries[at]);
    assert(0 <= i < entries.len() && entries[i] == entries[at]);
}

/// The entry is one of those that are named.
pub open spec fn is_named(names: Seq<String>, entry: u64) -> bool {
    exists|i: int| 0 <= i < names.len() && item_of(#[trigger] names[i]@) == Some(entry as nat)
}

/// The entries that are not named, in their order.
pub open spec fn without(entries: Seq<u64>, names: Seq<String>) -> Seq<u64> {
    entries.filter(|entry: u64| !is_named(names, entry))
}

/// The entries that are named, in the order of the names.
pub open spec fn entries_of(names: Seq<String>) -> Seq<u64> {
    names.map_values(|name: String| item_of(name@)->0 as u64)
}

/// The entries with others put in at a place.
pub open spec fn put_in(entries: Seq<u64>, at: int, more: Seq<u64>) -> Seq<u64> {
    entries.take(at) + more + entries.skip(at)
}

/// The entries with others put in where a target says.
pub open spec fn put_at(entries: Seq<u64>, target: QueueReorderTarget, more: Seq<u64>) -> Seq<u64> {
    match target {
        QueueReorderTarget::After(name) => put_in(
            entries,
            place(entries, item_of(name@)->0 as u64) + 1,
            more,
        ),
        QueueReorderTarget::Before(name) => put_in(
            entries,
            place(entries, item_of(name@)->0 as u64),
            more,
        ),
        QueueReorderTarget::End => entries + more,
    }
}

/// The player is at another entry, from its start on.
pub open spec fn gone_to(player: PlayerModel, entry: u64) -> PlayerModel {
    PlayerModel { current: entry, position: 0, ..player }
}

/// The player once it was told something. What goes into its queue are `more` entries.
pub open spec fn told(player: PlayerModel, action: PlexAction, more: Seq<u64>) -> PlayerModel {
    let at = place(player.entries, player.current);
    match action {
        PlexAction::Play => PlayerModel { running: Running::Playing, ..player },
        PlexAction::Pause => PlayerModel { running: Running::Paused, ..player },
        PlexAction::Stop => PlayerModel { running: Running::Stopped, ..player },
        PlexAction::Next => if at + 1 < player.entries.len() {
            gone_to(player, player.entries[at + 1])
        } else {
            player
        },
        PlexAction::Previous => if at > 0 {
            gone_to(player, player.entries[at - 1])
        } else {
            player
        },
        PlexAction::Seek(offset) => PlayerModel { position: offset, ..player },
        PlexAction::Volume(volume) => PlayerModel { volume, ..player },
        PlexAction::Repeat(repeat) => PlayerModel { repeat, ..player },
        PlexAction::Shuffle(shuffle) => PlayerModel { shuffle, ..player },
        PlexAction::SkipTo { queue, item } => if queue == player.queue {
            gone_to(player, item)
        } else {
            player
        },
        PlexAction::Remove { queue, occurrences } => if queue == player.queue {
            PlayerModel { entries: without(player.entries, occurrences@), ..player }
        } else {
            player
        },
        PlexAction::Reorder { queue, occurrences, target } => if queue == player.queue {
            PlayerModel {
                entries: put_at(
                    without(player.entries, occurrences@),
                    target,
                    entries_of(occurrences@),
                ),
                ..player
            }
        } else {
            player
        },
        PlexAction::Insert { target } => PlayerModel {
            entries: put_at(player.entries, target, more),
            ..player
        },
        PlexAction::Clear { keep } => PlayerModel {
            entries: player.entries.filter(|entry: u64| keep == Some(entry)),
            ..player
        },
        PlexAction::ApplyBatch { placement } => match placement {
            QueuePlacement::Now | QueuePlacement::Replace => PlayerModel {
                entries: more,
                current: more[0],
                position: 0,
                ..player
            },
            QueuePlacement::Next => PlayerModel {
                entries: put_in(player.entries, at + 1, more),
                ..player
            },
            QueuePlacement::Last => PlayerModel { entries: player.entries + more, ..player },
        },
        PlexAction::Nothing => player,
    }
}

/// The report is what the player says of itself.
pub open spec fn reports(player: PlayerModel, timeline: Timeline) -> bool {
    &&& timeline.play_queue_id == Some(player.queue)
    &&& timeline.play_queue_item_id == Some(player.current)
    &&& player.running is Playing <==> (timeline.state@ == "playing"@ || timeline.state@
        == "buffering"@)
}

/// The player stands at the entry `at` of its queue.
pub open spec fn stands_at(player: PlayerModel, at: int) -> bool {
    &&& player.entries.no_duplicates()
    &&& 0 <= at < player.entries.len()
    &&& player.current == player.entries[at]
}

/// The command to go to the next entry moves a player one entry forward, and the command to go to
/// the previous one moves it one entry back, from the start of that entry on; nothing else changes,
/// and one undoes the other.
pub proof fn next_and_previous_move_by_one(
    player: PlayerModel,
    timeline: Timeline,
    forward: PlexAction,
    back: PlexAction,
    at: int,
    more: Seq<u64>,
)
    requires
        stands_at(player, at),
        obeys(SessionCommand::Next, timeline, forward),
        obeys(SessionCommand::Previous, timeline, back),
    ensures
        at + 1 < player.entries.len() ==> {
            &&& told(player, forward, more) == gone_to(player, player.entries[at + 1])
            &&& told(told(player, forward, more), back, more) == gone_to(player, player.current)
        },
        at > 0 ==> {
            &&& told(player, back, more) == gone_to(player, player.entries[at - 1])
            &&& told(told(player, back, more), forward, more) == gone_to(player, player.current)
        },
{
    place_is(player.entries, at);
    if at + 1 < player.entries.len() {
        place_is(player.entries, at + 1);
    }
    if at > 0 {
        place_is(player.entries, at - 1);
    }
}

/// Playing, pausing and stopping do what they say, and the one command for both turns what the
/// player does into the other; the place and the queue stay.
pub proof fn transport_commands_do_what_they_say(
    player: PlayerModel,
    timeline: Timeline,
    command: SessionCommand,
    action: PlexAction,
    more: Seq<u64>,
)
    requires
        reports(player, timeline),
        obeys(command, timeline, action),
    ensures
        command is Play ==> told(player, action, more) == (PlayerModel {
            running: Running::Playing,
            ..player
        }),
        command is Pause ==> told(player, action, more) == (PlayerModel {
            running: Running::Paused,
            ..player
        }),
        command is Stop ==> told(player, action, more) == (PlayerModel {
            running: Running::Stopped,
            ..player
        }),
        command is PlayPause && player.running is Playing ==> told(player, action, more) == (
        PlayerModel { running: Running::Paused, ..player }),
        command is PlayPause && !(player.running is Playing) ==> told(player, action, more) == (
        PlayerModel { running: Running::Playing, ..player }),
{
}

/// Where a player stands, how loud it is and how it goes through its queue are what was asked for,
/// and nothing else changes.
pub proof fn settings_are_what_was_asked_for(
    player: PlayerModel,
    timeline: Timeline,
    command: SessionCommand,
    action: PlexAction,
    more: Seq<u64>,
)
    requires
        obeys(command, timeline, action),
    ensures
        command matches SessionCommand::Seek(offset) ==> told(player, action, more) == (
        PlayerModel { position: offset, ..player }),
        command matches SessionCommand::SetVolume(volume) ==> told(player, action, more) == (
        PlayerModel { volume, ..player }),
        command matches SessionCommand::SetRepeat(repeat) ==> told(player, action, more) == (
        PlayerModel { repeat, ..player }),
        command matches SessionCommand::SetShuffle(shuffle) ==> told(player, action, more) == (
        PlayerModel { shuffle, ..player }),
{
}

/// A muted player is silent, and one that is no longer muted has the volume from before; without
/// one it keeps the volume that it reports.
pub proof fn muted_players_are_silent(player: PlayerModel, prior: Option<u8>, more: Seq<u64>)
    ensures
        told(player, PlexAction::Volume(volume_after(prior, true, player.volume)), more) == (
        PlayerModel { volume: 0, ..player }),
        prior_after(None, true, player.volume) == Some(player.volume),
        prior is Some ==> prior_after(prior, true, player.volume) == prior,
        prior_after(prior, false, player.volume) is None,
        prior is None ==> told(
            player,
            PlexAction::Volume(volume_after(prior, false, player.volume)),
            more,
        ) == player,
        prior matches Some(before) ==> told(
            player,
            PlexAction::Volume(volume_after(prior, false, player.volume)),
            more,
        ) == (PlayerModel { volume: before, ..player }),
{
}

/// The commands by which a player is driven.
pub open spec fn drives(command: SessionCommand) -> bool {
    command is Play || command is Pause || command is Stop || command is Next || command is Previous
}

/// No two of the commands by which a player is driven lead to the same.
pub proof fn driving_commands_differ(
    player: PlayerModel,
    timeline: Timeline,
    first: SessionCommand,
    second: SessionCommand,
    one: PlexAction,
    other: PlexAction,
    at: int,
    more: Seq<u64>,
)
    requires
        stands_at(player, at),
        0 < at && at + 1 < player.entries.len(),
        drives(first) && drives(second) && first != second,
        obeys(first, timeline, one),
        obeys(second, timeline, other),
    ensures
        told(player, one, more) != told(player, other, more),
{
    place_is(player.entries, at);
    assert(player.entries[at] != player.entries[at + 1]);
    assert(player.entries[at] != player.entries[at - 1]);
    assert(player.entries[at - 1] != player.entries[at + 1]);
}

/// An entry that is activated is the one that the player goes to.
pub proof fn activated_entries_play(
    player: PlayerModel,
    timeline: Timeline,
    name: String,
    action: PlexAction,
    entry: u64,
    more: Seq<u64>,
)
    requires
        reports(player, timeline),
        item_of(name@) == Some(entry as nat),
        obeys(SessionCommand::Activate(name), timeline, action),
    ensures
        command_error(SessionCommand::Activate(name), timeline) is None,
        told(player, action, more) == gone_to(player, entry),
{
}

/// Entries that are removed are gone, and all others stay in their order.
pub proof fn removed_entries_are_gone(
    player: PlayerModel,
    timeline: Timeline,
    names: Vec<String>,
    name: String,
    one: PlexAction,
    many: PlexAction,
    forgotten: PlexAction,
    more: Seq<u64>,
)
    requires
        reports(player, timeline),
        obeys(SessionCommand::Remove(name), timeline, one),
        obeys(SessionCommand::RemoveMany(names), timeline, many),
        obeys(SessionCommand::Forget(names), timeline, forgotten),
    ensures
        told(player, many, more) == (PlayerModel {
            entries: player.entries.filter(|entry: u64| !is_named(names@, entry)),
            ..player
        }),
        told(player, forgotten, more) == told(player, many, more),
        told(player, one, more) == (PlayerModel {
            entries: player.entries.filter(|entry: u64| item_of(name@) != Some(entry as nat)),
            ..player
        }),
{
    let single = seq![name];
    let by_list = |entry: u64| !is_named(single, entry);
    let by_name = |entry: u64| item_of(name@) != Some(entry as nat);
    assert forall|entry: u64| #[trigger] by_list(entry) == by_name(entry) by {
        if item_of(name@) == Some(entry as nat) {
            assert(item_of(single[0]@) == Some(entry as nat));
        }
    }
    filters_agree(player.entries, by_list, by_name);
}

proof fn filters_agree(entries: Seq<u64>, a: spec_fn(u64) -> bool, b: spec_fn(u64) -> bool)
    requires
        forall|entry: u64| #[trigger] a(entry) == b(entry),
    ensures
        entries.filter(a) == entries.filter(b),
    decreases entries.len(),
{
    reveal(Seq::filter);
    if entries.len() > 0 {
        filters_agree(entries.drop_last(), a, b);
        assert(a(entries.last()) == b(entries.last()));
    }
}

/// A queue that is cleared is empty, or holds the current entry alone where that is to stay.
pub proof fn cleared_queues_keep_at_most_the_current_entry(
    player: PlayerModel,
    timeline: Timeline,
    include_current: bool,
    action: PlexAction,
    more: Seq<u64>,
)
    requires
        reports(player, timeline),
        obeys((SessionCommand::Clear { include_current }), timeline, action),
    ensures
        ({
            let left = told(player, action, more).entries;
            &&& include_current ==> left.len() == 0
            &&& !include_current ==> (forall|i: int|
                0 <= i < left.len() ==> #[trigger] left[i] == player.current)
            &&& !include_current && player.entries.contains(player.current) ==> left.contains(
                player.current,
            )
            &&& told(player, action, more) == (PlayerModel { entries: left, ..player })
        }),
{
    let keep = if include_current {
        None
    } else {
        Some(player.current)
    };
    let kept = |entry: u64| keep == Some(entry);
    let left = player.entries.filter(kept);
    assert forall|i: int| 0 <= i < left.len() implies !include_current && #[trigger] left[i]
        == player.current by {
        player.entries.lemma_filter_pred(kept, i);
    }
    if left.len() > 0 {
        assert(!include_current && left[0] == player.current);
    }
    if !include_current && player.entries.contains(player.current) {
        let i = choose|i: int| 0 <= i < player.entries.len() && player.entries[i] == player.current;
        player.entries.lemma_filter_contains(kept, i);
    }
}

/// Entries that are moved stand together where the target says, in the order they were named in,
/// among the others in their order.
pub proof fn moved_entries_stand_at_their_target(
    player: PlayerModel,
    timeline: Timeline,
    names: Vec<String>,
    target: QueueReorderTarget,
    action: PlexAction,
    at: int,
    more: Seq<u64>,
)
    requires
        reports(player, timeline),
        player.entries.no_duplicates(),
        obeys((SessionCommand::Reorder { occurrences: names, target }), timeline, action),
        0 <= at < without(player.entries, names@).len(),
    ensures
        ({
            let rest = player.entries.filter(|entry: u64| !is_named(names@, entry));
            let block = entries_of(names@);
            let next = told(player, action, more);
            &&& next == (PlayerModel { entries: next.entries, ..player })
            &&& target is End ==> next.entries == rest + block
            &&& target matches QueueReorderTarget::After(name) ==> (item_of(name@) == Some(
                rest[at] as nat,
            ) ==> next.entries == rest.take(at + 1) + block + rest.skip(at + 1))
            &&& target matches QueueReorderTarget::Before(name) ==> (item_of(name@) == Some(
                rest[at] as nat,
            ) ==> next.entries == rest.take(at) + block + rest.skip(at))
        }),
{
    let rest = without(player.entries, names@);
    filter_keeps_apart(player.entries, |entry: u64| !is_named(names@, entry));
    place_is(rest, at);
}

proof fn filter_keeps_apart(entries: Seq<u64>, kept: spec_fn(u64) -> bool)
    requires
        entries.no_duplicates(),
    ensures
        entries.filter(kept).no_duplicates(),
        forall|entry: u64| #[trigger]
            entries.filter(kept).contains(entry) <==> entries.contains(entry) && kept(entry),
    decreases entries.len(),
{
    reveal(Seq::filter);
    if entries.len() > 0 {
        let init = entries.drop_last();
        assert forall|i: int, j: int| 0 <= i < j < init.len() implies init[i] != init[j] by {
            assert(entries[i] != entries[j]);
        }
        filter_keeps_apart(init, kept);
        let last = entries.last();
        let before = init.filter(kept);
        let all = entries.filter(kept);
        assert(!init.contains(last)) by {
            if init.contains(last) {
                let k = choose|k: int| 0 <= k < init.len() && init[k] == last;
                assert(entries[k] != entries[entries.len() - 1]);
            }
        }
        assert(!before.contains(last));
        assert forall|entry: u64| #[trigger] all.contains(entry) <==> entries.contains(entry)
            && kept(entry) by {
            if entries.contains(entry) {
                let k = choose|k: int| 0 <= k < entries.len() && entries[k] == entry;
                if k < init.len() {
                    assert(init[k] == entry);
                }
            }
            if init.contains(entry) {
                let k = choose|k: int| 0 <= k < init.len() && init[k] == entry;
                assert(entries[k] == entry);
            }
            if kept(last) {
                assert(all == before.push(last));
                if before.contains(entry) {
                    let k = choose|k: int| 0 <= k < before.len() && before[k] == entry;
                    assert(all[k] == entry);
                }
                if entry == last {
                    assert(all[all.len() - 1] == entry);
                }
            }
        }
        if kept(last) {
            assert forall|i: int, j: int| 0 <= i < j < all.len() implies all[i] != all[j] by {
                assert(all == before.push(last));
                if j == before.len() {
                    assert(before.contains(before[i]));
                }
            }
        }
    }
}

/// An entry that is moved behind the current one stands right behind it; the others keep their order.
pub proof fn entries_move_behind_the_current_one(
    player: PlayerModel,
    timeline: Timeline,
    name: String,
    entry: u64,
    action: PlexAction,
    at: int,
    more: Seq<u64>,
)
    requires
        reports(player, timeline),
        player.entries.no_duplicates(),
        item_of(name@) == Some(entry as nat),
        obeys(SessionCommand::MoveAfterCurrent(name), timeline, action),
        ({
            let rest = player.entries.filter(|other: u64| other != entry);
            0 <= at < rest.len() && rest[at] == player.current
        }),
    ensures
        ({
            let rest = player.entries.filter(|other: u64| other != entry);
            told(player, action, more) == (PlayerModel {
                entries: rest.take(at + 1) + seq![entry] + rest.skip(at + 1),
                ..player
            })
        }),
{
    let single = seq![name];
    let by_list = |other: u64| !is_named(single, other);
    let by_entry = |other: u64| other != entry;
    assert forall|other: u64| #[trigger] by_list(other) == by_entry(other) by {
        if other == entry {
            assert(item_of(single[0]@) == Some(entry as nat));
        }
    }
    filters_agree(player.entries, by_list, by_entry);
    filter_keeps_apart(player.entries, by_entry);
    let rest = player.entries.filter(by_entry);
    place_is(rest, at);
    occurrences_read_back(seq![], player.queue, player.current);
    assert(entries_of(single) =~= seq![entry]);
}

/// What is inserted stands where the target says, and what is added stands right behind the current
/// entry, or behind all, or takes the place of all, as was asked for.
pub proof fn added_entries_stand_where_they_were_asked_for(
    player: PlayerModel,
    timeline: Timeline,
    target: QueueReorderTarget,
    placement: QueuePlacement,
    inserted: PlexAction,
    added: PlexAction,
    at: int,
    more: Seq<u64>,
)
    requires
        stands_at(player, at),
        obeys((SessionCommand::Insert { target }), timeline, inserted),
        obeys((SessionCommand::ApplyBatch { placement }), timeline, added),
    ensures
        ({
            let entries = player.entries;
            let next = told(player, added, more).entries;
            let placed = told(player, inserted, more).entries;
            &&& placement == QueuePlacement::Next ==> next == entries.take(at + 1) + more
                + entries.skip(at + 1)
            &&& placement == QueuePlacement::Last ==> next == entries + more
            &&& placement == QueuePlacement::Now || placement == QueuePlacement::Replace ==> next
                == more
            &&& target is End ==> placed == entries + more
            &&& target matches QueueReorderTarget::After(name) ==> (item_of(name@) == Some(
                player.current as nat,
            ) ==> placed == entries.take(at + 1) + more + entries.skip(at + 1))
            &&& target matches QueueReorderTarget::Before(name) ==> (item_of(name@) == Some(
                player.current as nat,
            ) ==> placed == entries.take(at) + more + entries.skip(at))
        }),
{
    place_is(player.entries, at);
}

/// A command that is not for players leaves them as they are.
pub proof fn other_commands_leave_the_player_alone(
    player: PlayerModel,
    timeline: Timeline,
    command: SessionCommand,
    action: PlexAction,
    more: Seq<u64>,
)
    requires
        command is UpdateSettings || command is SetAutoDj || command is SetVisualizerEnabled
            || command is ArtworkRefreshed || command is CatalogChanged
            || command is PersistOutputState || command is Other,
        obeys(command, timeline, action),
    ensures
        command_error(command, timeline) is None,
        told(player, action, more) == player,
{
}

/// A command fails only for want of what it names: the queue, the current entry, or an entry of a
/// player. One that does not fail acts on the queue that the player reports.
pub proof fn commands_fail_for_want_of_what_they_name(
    timeline: Timeline,
    command: SessionCommand,
    action: PlexAction,
)
    ensures
        command_error(command, timeline) matches Some(error) ==> {
            ||| error == PlexError::NoQueue && timeline.play_queue_id is None
            ||| error == PlexError::NoCurrent && timeline.play_queue_item_id is None
                && command is MoveAfterCurrent
            ||| error == PlexError::NoSuchOccurrence && (command matches SessionCommand::Activate(
                name,
            ) && item_of(name@) is None)
        },
        drives(command) || command is PlayPause || command is Seek || command is SetVolume
            || command is SetRepeat || command is SetShuffle ==> command_error(
            command,
            timeline,
        ) is None,
        command_error(command, timeline) is None && obeys(command, timeline, action) ==> match action {
            PlexAction::SkipTo { queue, .. } => timeline.play_queue_id == Some(queue),
            PlexAction::Remove { queue, .. } => timeline.play_queue_id == Some(queue),
            PlexAction::Reorder { queue, .. } => timeline.play_queue_id == Some(queue),
            PlexAction::Clear { .. } => timeline.play_queue_id is Some,
            _ => true,
        },
{
}

} // verus!
